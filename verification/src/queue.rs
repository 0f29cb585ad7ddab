//! Descriptors, descriptor chains and the queue that carries them.

use vstd::prelude::*;
use crate::error::QueueError;

verus! {

/// One buffer of a chain: a region of guest memory and its direction.
#[derive(Clone, Copy, Debug, PartialEq, Eq, Structural)]
pub struct Descriptor {
    /// Guest physical address of the region.
    pub addr: u64,
    /// Length of the region in bytes.
    pub len: u32,
    /// Whether the device writes the region (else it reads it).
    pub write_only: bool,
}

/// What a descriptor chain is: the index of its head in the descriptor
/// table, and its descriptors in chain order.
pub struct ChainView {
    pub index: u16,
    pub descriptors: Seq<Descriptor>,
}

impl ChainView {
    /// Whether a descriptor follows the head.
    pub open spec fn has_next(self) -> bool {
        self.descriptors.len() > 1
    }

    /// Length that the head advertises; zero for a chain without descriptors.
    pub open spec fn head_len(self) -> nat {
        if self.descriptors.len() > 0 {
            self.descriptors[0].len as nat
        } else {
            0
        }
    }
}

/// A descriptor chain as the transport gathered it: the head and every
/// descriptor that follows it, in order.
#[derive(Debug)]
pub struct DescriptorChain {
    /// Index of the head in the descriptor table.
    pub index: u16,
    /// The descriptors, head first.
    pub descriptors: Vec<Descriptor>,
}

impl View for DescriptorChain {
    type V = ChainView;

    open spec fn view(&self) -> ChainView {
        ChainView { index: self.index, descriptors: self.descriptors@ }
    }
}

impl DescriptorChain {
    /// A chain that is just its head, found at `index` of the descriptor table.
    pub fn new(index: u16, head: Descriptor) -> (chain: DescriptorChain)
        ensures
            chain@ == (ChainView { index, descriptors: seq![head] }),
    {
        let mut descriptors: Vec<Descriptor> = Vec::new();
        descriptors.push(head);
        DescriptorChain { index, descriptors }
    }

    /// Appends the descriptor that follows the chain's last one.
    pub fn push(&mut self, next: Descriptor)
        ensures
            final(self)@ == (ChainView {
                index: old(self)@.index,
                descriptors: old(self)@.descriptors.push(next),
            }),
    {
        self.descriptors.push(next);
    }

    /// Whether a descriptor follows the head.
    pub fn has_next(&self) -> (more: bool)
        ensures
            more == self@.has_next(),
    {
        self.descriptors.len() > 1
    }

    /// Length that the head advertises.
    pub fn len(&self) -> (len: u32)
        ensures
            len == self@.head_len(),
    {
        if self.descriptors.len() > 0 {
            self.descriptors[0].len
        } else {
            0
        }
    }
}

/// An entry of the used ring: a chain that the device is done with.
#[derive(Clone, Copy, Debug, PartialEq, Eq, Structural)]
pub struct UsedElement {
    /// Index of the chain's head in the descriptor table.
    pub id: u16,
    /// Number of bytes that the device wrote into the chain.
    pub len: u32,
}

/// What a queue is: its depth, the chains that the driver made available
/// and the device has not taken yet (oldest first), the chains that the
/// device marked used (oldest first), and whether the driver is to notify
/// the device of the next available chain.
pub struct QueueView {
    pub max_size: u16,
    pub avail: Seq<ChainView>,
    pub used: Seq<UsedElement>,
    pub notification_enabled: bool,
}

/// The device's side of a virtqueue.
pub struct Queue {
    max_size: u16,
    avail: Vec<DescriptorChain>,
    used: Vec<UsedElement>,
    notification_enabled: bool,
}

impl View for Queue {
    type V = QueueView;

    closed spec fn view(&self) -> QueueView {
        QueueView {
            max_size: self.max_size,
            avail: self.avail@.map_values(|chain: DescriptorChain| chain@),
            used: self.used@,
            notification_enabled: self.notification_enabled,
        }
    }
}

impl Queue {
    /// An empty queue of depth `max_size`, with notifications enabled.
    pub fn new(max_size: u16) -> (queue: Queue)
        ensures
            queue@ == (QueueView {
                max_size,
                avail: Seq::empty(),
                used: Seq::empty(),
                notification_enabled: true,
            }),
    {
        let queue = Queue {
            max_size,
            avail: Vec::new(),
            used: Vec::new(),
            notification_enabled: true,
        };
        assert(queue@.avail =~= Seq::empty());
        queue
    }

    /// Depth of the queue.
    pub fn max_size(&self) -> (size: u16)
        ensures
            size == self@.max_size,
    {
        self.max_size
    }

    /// The driver's side: makes `chain` available to the device.
    ///
    /// A queue that already holds as many available chains as it is deep
    /// refuses the chain with `Full` and stays as it is. Otherwise the chain
    /// is queued behind the others, notifications are switched off until the
    /// device asks for them again, and the result tells whether the device
    /// is to be notified now.
    pub fn make_available(&mut self, chain: DescriptorChain) -> (res: Result<bool, QueueError>)
        ensures
            old(self)@.avail.len() >= old(self)@.max_size ==> res == Err::<bool, QueueError>(
                QueueError::Full,
            ) && final(self)@ == old(self)@,
            old(self)@.avail.len() < old(self)@.max_size ==> res == Ok::<bool, QueueError>(
                old(self)@.notification_enabled,
            ) && final(self)@ == (QueueView {
                avail: old(self)@.avail.push(chain@),
                notification_enabled: false,
                ..old(self)@
            }),
    {
        if self.avail.len() >= self.max_size as usize {
            return Err(QueueError::Full);
        }
        let notify = self.notification_enabled;
        self.avail.push(chain);
        self.notification_enabled = false;
        assert(self@.avail =~= old(self)@.avail.push(chain@));
        Ok(notify)
    }

    /// Takes the oldest available chain. Where there is none, notifications
    /// are enabled instead, so that the driver announces the next one.
    pub fn pop_or_enable_notification(&mut self) -> (head: Option<DescriptorChain>)
        ensures
            old(self)@.avail.len() == 0 ==> head is None && final(self)@ == (QueueView {
                notification_enabled: true,
                ..old(self)@
            }),
            old(self)@.avail.len() > 0 ==> (head matches Some(chain) && chain@ == old(
                self,
            )@.avail[0] && final(self)@ == (QueueView {
                avail: old(self)@.avail.skip(1),
                ..old(self)@
            })),
    {
        if self.avail.len() == 0 {
            self.notification_enabled = true;
            return None;
        }
        let chain = self.avail.remove(0);
        assert(self@.avail =~= old(self)@.avail.skip(1));
        Some(chain)
    }

    /// Marks the chain whose head is at `desc_index` used, with `len` bytes
    /// written. An index beyond the queue's depth is refused and changes
    /// nothing.
    pub fn add_used(&mut self, desc_index: u16, len: u32) -> (res: Result<(), QueueError>)
        ensures
            desc_index >= old(self)@.max_size ==> res == Err::<(), QueueError>(
                QueueError::DescIndexOutOfBounds(desc_index),
            ) && final(self)@ == old(self)@,
            desc_index < old(self)@.max_size ==> res is Ok && final(self)@ == (QueueView {
                used: old(self)@.used.push(UsedElement { id: desc_index, len }),
                ..old(self)@
            }),
    {
        if desc_index >= self.max_size {
            return Err(QueueError::DescIndexOutOfBounds(desc_index));
        }
        self.used.push(UsedElement { id: desc_index, len });
        Ok(())
    }

    /// Number of chains that wait for the device.
    pub fn avail_len(&self) -> (n: usize)
        ensures
            n == self@.avail.len(),
    {
        self.avail.len()
    }

    /// The driver's side: hands over the used entries, oldest first, and
    /// leaves none behind.
    pub fn take_used(&mut self) -> (used: Vec<UsedElement>)
        ensures
            used@ == old(self)@.used,
            final(self)@ == (QueueView { used: Seq::empty(), ..old(self)@ }),
    {
        let mut used: Vec<UsedElement> = Vec::new();
        std::mem::swap(&mut used, &mut self.used);
        used
    }
}

} // verus!
