//! The device engine: it owns the queue, the feature bits, the activation
//! state and the backend, and drains the queue when the driver notifies it.

use vstd::prelude::*;
use vm_memory::GuestMemoryMmap;
use crate::chain_io::read_chain;
use crate::chain_io::read_from_descriptor_chain;
use crate::chain_io::write_chain;
use crate::chain_io::write_to_descriptor_chain;
use crate::chain_io::ChainRead;
use crate::error::ActivateError;
use crate::mem::guest_bytes;
use crate::queue::ChainView;
use crate::queue::DescriptorChain;
use crate::queue::Queue;
use crate::queue::QueueView;
use crate::queue::UsedElement;
use crate::TPM_BUFSIZE;
use crate::TPM_DEV_ID;

verus! {

/// Depth of the device's queue. The driver keeps one chain in flight at a
/// time: a command buffer followed by a response buffer.
pub const QUEUE_SIZE: u16 = 2;

/// Feature bit: the device follows version 1 of the virtio standard.
pub const VIRTIO_F_VERSION_1: u32 = 32;

/// Feature bit: driver and device tell each other when to notify.
pub const VIRTIO_RING_F_EVENT_IDX: u32 = 29;

/// The features that the device offers.
pub const AVAIL_FEATURES: u64 = 0x1_2000_0000;

/// The device offers version 1 of the standard and the event index, and
/// nothing else.
pub proof fn lemma_avail_features()
    ensures
        AVAIL_FEATURES == (1u64 << VIRTIO_F_VERSION_1) | (1u64 << VIRTIO_RING_F_EVENT_IDX),
{
    assert(0x1_2000_0000u64 == (1u64 << 32u32) | (1u64 << 29u32)) by (bit_vector);
}

/// Device type under which the transport announces a TPM.
pub const TYPE_TPM: u32 = 62;

/// A host-side TPM: it executes one command and hands back the response.
///
/// A backend keeps its failures to itself: where the exchange with the TPM
/// fails, it returns an empty response.
pub trait TpmBackend: Send {
    /// Executes `command` and returns the TPM's response. The call returns
    /// when the exchange is over, however it went.
    fn execute_command(&mut self, command: &[u8]) -> Vec<u8>;
}

/// Whether the device may touch guest memory, and through what.
pub enum DeviceState {
    /// The device has not been activated: it has no access to guest memory.
    Inactive,
    /// The device is activated, and this is the guest's memory.
    Activated(GuestMemoryMmap),
}

/// One call of the backend: the command it was given and what it answered.
pub struct Exchange {
    pub command: Seq<u8>,
    pub response: Seq<u8>,
}

/// What the guest sees of the device's work: its memory, and the used
/// entries of the queue.
pub struct GuestView {
    pub memory: Map<u64, u8>,
    pub used: Seq<UsedElement>,
}

/// What the engine works on while it drains a queue: guest memory, the
/// queue's used entries, and the calls made to the backend so far.
pub struct Engine {
    pub memory: Map<u64, u8>,
    pub used: Seq<UsedElement>,
    pub exchanges: Seq<Exchange>,
}

impl Engine {
    /// The part of the engine that the guest sees.
    pub open spec fn guest(self) -> GuestView {
        GuestView { memory: self.memory, used: self.used }
    }
}

/// The command that the engine hands to the backend for `chain`, if it
/// hands it one: the chain must have a descriptor after its head, its head
/// may not advertise more than `TPM_BUFSIZE` bytes, and the command must be
/// readable.
pub open spec fn chain_command(memory: Map<u64, u8>, chain: ChainView) -> Option<Seq<u8>> {
    if !chain.has_next() || chain.head_len() > TPM_BUFSIZE {
        None
    } else {
        match read_chain(memory, chain.descriptors, Seq::empty()) {
            ChainRead::Command(command) => Some(command),
            _ => None,
        }
    }
}

/// How the engine deals with the backend's `response` to the command of
/// `chain`. A response beyond `TPM_BUFSIZE` is dropped untouched. Any other
/// is written into the chain. Only where all of it was stored, and the
/// queue knows the chain's index, is the chain marked used, with the length
/// of the response.
pub open spec fn response_handled(
    before: GuestView,
    max_size: u16,
    chain: ChainView,
    response: Seq<u8>,
    after: GuestView,
) -> bool {
    let written = write_chain(before.memory, response, chain.descriptors);
    &&& after.memory.dom() == before.memory.dom()
    &&& if response.len() > TPM_BUFSIZE {
        after == before
    } else {
        &&& written.leaves(after.memory)
        &&& after.used == if written.outcome is Done && chain.index < max_size {
            before.used.push(UsedElement { id: chain.index, len: response.len() as u32 })
        } else {
            before.used
        }
    }
}

/// One chain of a drain pass, from the engine `before` to the engine
/// `after`. A chain without a command changes nothing. Any other chain
/// costs exactly one call of the backend, with the chain's command, and the
/// response is dealt with as `response_handled` says.
pub open spec fn chain_step(
    before: Engine,
    max_size: u16,
    chain: ChainView,
    after: Engine,
) -> bool {
    match chain_command(before.memory, chain) {
        None => after == before,
        Some(command) => {
            &&& after.exchanges.len() == before.exchanges.len() + 1
            &&& after.exchanges.drop_last() == before.exchanges
            &&& after.exchanges.last().command == command
            &&& response_handled(
                before.guest(),
                max_size,
                chain,
                after.exchanges.last().response,
                after.guest(),
            )
        },
    }
}

/// A drain pass over `chains`, oldest first, from the engine `before` to
/// the engine `after`: one `chain_step` per chain, each starting where the
/// one before it ended.
pub open spec fn drains(
    before: Engine,
    max_size: u16,
    chains: Seq<ChainView>,
    after: Engine,
) -> bool
    decreases chains.len(),
{
    if chains.len() == 0 {
        after == before
    } else {
        exists|mid: Engine|
            drains(before, max_size, chains.drop_last(), mid) && #[trigger] chain_step(
                mid,
                max_size,
                chains.last(),
                after,
            )
    }
}

/// Extracts the command that the chain `head` carries, if the engine is to
/// serve the chain at all: see `chain_command`.
pub fn extract_command(mem: &GuestMemoryMmap, head: &DescriptorChain) -> (command: Option<Vec<u8>>)
    ensures
        match chain_command(guest_bytes(mem), head@) {
            Some(bytes) => command matches Some(found) && found@ == bytes,
            None => command is None,
        },
        command matches Some(found) ==> found@.len() <= TPM_BUFSIZE,
{
    if !head.has_next() {
        // two descriptors are needed: one for the command, one for the response
        return None;
    }
    let len = head.len() as usize;
    if len > TPM_BUFSIZE {
        return None;
    }
    match read_from_descriptor_chain(mem, head) {
        Ok(command) => Some(command),
        Err(_) => None,
    }
}

/// Delivers the backend's `response` to the chain `head`, which was taken
/// off `queue`: see `response_handled`. The result tells whether the chain
/// was completed, that is, marked used.
pub fn deliver_response(
    mem: &mut GuestMemoryMmap,
    queue: &mut Queue,
    head: &DescriptorChain,
    response: &[u8],
) -> (completed: bool)
    ensures
        response_handled(
            GuestView { memory: guest_bytes(old(mem)), used: old(queue)@.used },
            old(queue)@.max_size,
            head@,
            response@,
            GuestView { memory: guest_bytes(final(mem)), used: final(queue)@.used },
        ),
        final(queue)@ == (QueueView { used: final(queue)@.used, ..old(queue)@ }),
        final(queue)@.used.len() >= old(queue)@.used.len(),
        completed == (final(queue)@.used.len() > old(queue)@.used.len()),
{
    if response.len() > TPM_BUFSIZE {
        return false;
    }
    match write_to_descriptor_chain(mem, response, head) {
        Ok(()) => match queue.add_used(head.index, response.len() as u32) {
            Ok(()) => true,
            Err(_) => false,
        },
        Err(_) => false,
    }
}

/// Handles one chain that was taken off `queue`: extracts its command,
/// calls the backend with it, and delivers the response. The result tells
/// whether the chain was completed.
fn process_chain(
    mem: &mut GuestMemoryMmap,
    queue: &mut Queue,
    backend: &mut Box<dyn TpmBackend>,
    exchanges: &mut Ghost<Seq<Exchange>>,
    head: DescriptorChain,
) -> (completed: bool)
    ensures
        chain_step(
            Engine {
                memory: guest_bytes(old(mem)),
                used: old(queue)@.used,
                exchanges: old(exchanges)@,
            },
            old(queue)@.max_size,
            head@,
            Engine {
                memory: guest_bytes(final(mem)),
                used: final(queue)@.used,
                exchanges: final(exchanges)@,
            },
        ),
        guest_bytes(final(mem)).dom() == guest_bytes(old(mem)).dom(),
        final(queue)@ == (QueueView { used: final(queue)@.used, ..old(queue)@ }),
        final(queue)@.used.len() >= old(queue)@.used.len(),
        completed == (final(queue)@.used.len() > old(queue)@.used.len()),
{
    let cmd = match extract_command(mem, &head) {
        Some(cmd) => cmd,
        None => {
            return false;
        },
    };
    let resp = backend.execute_command(cmd.as_slice());
    proof {
        *exchanges = Ghost(exchanges@.push(Exchange { command: cmd@, response: resp@ }));
        assert(exchanges@.drop_last() =~= old(exchanges)@);
    }
    deliver_response(mem, queue, &head, resp.as_slice())
}

/// What the device is: its feature bits, the descriptors of its
/// notifications, its queues, guest memory once it is activated, and every
/// call that it has made to its backend, oldest first.
pub struct TpmView {
    pub avail_features: u64,
    pub acked_features: u64,
    pub activate_evt: i32,
    pub queue_evt: i32,
    pub queues: Seq<QueueView>,
    pub memory: Option<Map<u64, u8>>,
    pub exchanges: Seq<Exchange>,
}

impl TpmView {
    /// The engine as a drain pass over queue `index` finds or leaves it.
    pub open spec fn engine(self, index: int) -> Engine {
        Engine {
            memory: self.memory->0,
            used: self.queues[index].used,
            exchanges: self.exchanges,
        }
    }
}

/// Virtio vTPM device.
pub struct Tpm {
    backend: Box<dyn TpmBackend>,
    avail_features: u64,
    acked_features: u64,
    activate_evt: i32,
    queues: Vec<Queue>,
    queue_evts: [i32; 1],
    device_state: DeviceState,
    exchanges: Ghost<Seq<Exchange>>,
}

impl View for Tpm {
    type V = TpmView;

    closed spec fn view(&self) -> TpmView {
        TpmView {
            avail_features: self.avail_features,
            acked_features: self.acked_features,
            activate_evt: self.activate_evt,
            queue_evt: self.queue_evts[0],
            queues: self.queues@.map_values(|queue: Queue| queue@),
            memory: match self.device_state {
                DeviceState::Inactive => None,
                DeviceState::Activated(mem) => Some(guest_bytes(&mem)),
            },
            exchanges: self.exchanges@,
        }
    }
}

impl Tpm {
    /// What every device keeps to: once activated, it has exactly one queue.
    pub open spec fn wf(&self) -> bool {
        self@.memory is Some ==> self@.queues.len() == 1
    }

    /// A device around `backend`, not yet activated, with one empty queue of
    /// depth `QUEUE_SIZE`. `activate_evt` and `queue_evt` are the descriptors
    /// of the notifications that announce the activation and the driver's
    /// chains.
    pub fn new(backend: Box<dyn TpmBackend>, activate_evt: i32, queue_evt: i32) -> (tpm: Tpm)
        ensures
            tpm@ == (TpmView {
                avail_features: AVAIL_FEATURES,
                acked_features: 0,
                activate_evt,
                queue_evt,
                queues: seq![
                    QueueView {
                        max_size: QUEUE_SIZE,
                        avail: Seq::empty(),
                        used: Seq::empty(),
                        notification_enabled: true,
                    },
                ],
                memory: None,
                exchanges: Seq::empty(),
            }),
            tpm.wf(),
    {
        let mut queues: Vec<Queue> = Vec::new();
        queues.push(Queue::new(QUEUE_SIZE));
        let tpm = Tpm {
            backend,
            avail_features: AVAIL_FEATURES,
            acked_features: 0u64,
            activate_evt,
            queues,
            queue_evts: [queue_evt],
            device_state: DeviceState::Inactive,
            exchanges: Ghost(Seq::empty()),
        };
        assert(tpm@.queues =~= seq![
            QueueView {
                max_size: QUEUE_SIZE,
                avail: Seq::empty(),
                used: Seq::empty(),
                notification_enabled: true,
            },
        ]);
        tpm
    }

    /// Drains the device's queue: takes every available chain, oldest
    /// first, and relays its command to the backend and the response back
    /// to the guest. A chain that cannot be served is passed over and stays
    /// unmarked; the chains behind it are served all the same.
    ///
    /// The result tells whether the guest is owed an interrupt: one for the
    /// whole pass, however many chains were completed, and none where no
    /// chain was. A pass over an empty queue changes nothing but to enable
    /// the driver's notifications.
    pub fn process_virtio_queues(&mut self) -> (interrupt: bool)
        requires
            old(self).wf(),
            old(self)@.memory is Some,
        ensures
            final(self).wf(),
            drains(
                old(self)@.engine(0),
                old(self)@.queues[0].max_size,
                old(self)@.queues[0].avail,
                final(self)@.engine(0),
            ),
            final(self)@.memory is Some,
            final(self)@.memory->0.dom() == old(self)@.memory->0.dom(),
            final(self)@ == (TpmView {
                queues: seq![
                    QueueView {
                        avail: Seq::empty(),
                        used: final(self)@.queues[0].used,
                        notification_enabled: true,
                        ..old(self)@.queues[0]
                    },
                ],
                memory: final(self)@.memory,
                exchanges: final(self)@.exchanges,
                ..old(self)@
            }),
            interrupt == (final(self)@.queues[0].used.len() > old(self)@.queues[0].used.len()),
            old(self)@.queues[0].avail.len() == 0 ==> !interrupt && final(self)@ == (TpmView {
                queues: seq![QueueView { notification_enabled: true, ..old(self)@.queues[0] }],
                ..old(self)@
            }),
    {
        let interrupt = self.process_queue(0);
        assert(self@.queues =~= seq![
            QueueView {
                avail: Seq::empty(),
                used: self@.queues[0].used,
                notification_enabled: true,
                ..old(self)@.queues[0]
            },
        ]);
        proof {
            if old(self)@.queues[0].avail.len() == 0 {
                assert(self@.engine(0) == old(self)@.engine(0));
                assert(self@.memory == old(self)@.memory);
                assert(old(self)@.queues[0].avail =~= Seq::<ChainView>::empty());
                assert(self@.queues =~= seq![
                    QueueView { notification_enabled: true, ..old(self)@.queues[0] },
                ]);
            }
        }
        interrupt
    }

    /// The name under which the device is known.
    pub fn id(&self) -> (id: &str)
        ensures
            id@ == TPM_DEV_ID@,
    {
        TPM_DEV_ID
    }

    /// The features that the device offers.
    pub fn avail_features(&self) -> (features: u64)
        ensures
            features == self@.avail_features,
    {
        self.avail_features
    }

    /// The features that the driver accepted.
    pub fn acked_features(&self) -> (features: u64)
        ensures
            features == self@.acked_features,
    {
        self.acked_features
    }

    /// Records the features that the driver accepted.
    pub fn set_acked_features(&mut self, acked_features: u64)
        ensures
            final(self)@ == (TpmView { acked_features, ..old(self)@ }),
    {
        self.acked_features = acked_features;
    }

    /// The device type that the transport announces.
    pub fn device_type(&self) -> (device_type: u32)
        ensures
            device_type == TYPE_TPM,
    {
        TYPE_TPM
    }

    /// Hands guest memory to the device. `signalled` tells whether the
    /// activation notification could be raised.
    ///
    /// The device is activated where it has exactly one queue and the
    /// notification was raised; it then holds `mem` from now on. Otherwise
    /// the activation is refused and the device stays as it was.
    pub fn activate(&mut self, mem: GuestMemoryMmap, signalled: bool) -> (res: Result<
        (),
        ActivateError,
    >)
        ensures
            old(self)@.queues.len() == 1 && signalled ==> res is Ok && final(self)@ == (TpmView {
                memory: Some(guest_bytes(&mem)),
                ..old(self)@
            }),
            !(old(self)@.queues.len() == 1 && signalled) ==> res == Err::<(), ActivateError>(
                ActivateError::BadActivate,
            ) && final(self)@ == old(self)@,
            old(self).wf() ==> final(self).wf(),
    {
        if self.queues.len() != 1 {
            return Err(ActivateError::BadActivate);
        }
        if !signalled {
            return Err(ActivateError::BadActivate);
        }
        self.device_state = DeviceState::Activated(mem);
        Ok(())
    }

    /// The device's queues.
    pub fn queues(&self) -> (queues: &[Queue])
        ensures
            queues@.map_values(|queue: Queue| queue@) == self@.queues,
    {
        self.queues.as_slice()
    }

    /// Queue `index`, for the transport to make chains available in it and
    /// to collect the used ones.
    pub fn queue_mut(&mut self, index: usize) -> (queue: &mut Queue)
        requires
            index < old(self)@.queues.len(),
        ensures
            queue@ == old(self)@.queues[index as int],
            final(self)@ == (TpmView {
                queues: old(self)@.queues.update(index as int, final(queue)@),
                ..old(self)@
            }),
    {
        let queue = &mut self.queues[index];
        assert(after_borrow(self.queues)@.map_values(|queue: Queue| queue@) =~= old(
            self,
        ).queues@.map_values(|queue: Queue| queue@).update(index as int, final(queue)@));
        queue
    }

    /// The descriptor of the activation notification.
    pub fn activate_evt(&self) -> (fd: i32)
        ensures
            fd == self@.activate_evt,
    {
        self.activate_evt
    }

    /// The descriptors of the queue notifications, one for each queue.
    pub fn queue_events(&self) -> (events: [i32; 1])
        ensures
            events[0] == self@.queue_evt,
    {
        self.queue_evts
    }

    /// The device has no configuration space: a read leaves `data` as it is.
    pub fn read_config(&self, offset: u64, data: &mut [u8])
        ensures
            final(data)@ == old(data)@,
    {
    }

    /// The device has no configuration space: a write changes nothing.
    pub fn write_config(&mut self, offset: u64, data: &[u8])
        ensures
            final(self)@ == old(self)@,
    {
    }

    /// Whether the device holds guest memory.
    pub fn is_activated(&self) -> (activated: bool)
        ensures
            activated == self@.memory is Some,
    {
        match self.device_state {
            DeviceState::Inactive => false,
            DeviceState::Activated(_) => true,
        }
    }

    /// Drains queue `queue_index`, as `process_virtio_queues` describes.
    fn process_queue(&mut self, queue_index: usize) -> (interrupt: bool)
        requires
            old(self)@.memory is Some,
            queue_index < old(self)@.queues.len(),
        ensures
            drains(
                old(self)@.engine(queue_index as int),
                old(self)@.queues[queue_index as int].max_size,
                old(self)@.queues[queue_index as int].avail,
                final(self)@.engine(queue_index as int),
            ),
            final(self)@.memory is Some,
            final(self)@.memory->0.dom() == old(self)@.memory->0.dom(),
            final(self)@.queues == old(self)@.queues.update(
                queue_index as int,
                QueueView {
                    avail: Seq::empty(),
                    used: final(self)@.queues[queue_index as int].used,
                    notification_enabled: true,
                    ..old(self)@.queues[queue_index as int]
                },
            ),
            final(self)@.avail_features == old(self)@.avail_features,
            final(self)@.acked_features == old(self)@.acked_features,
            final(self)@.activate_evt == old(self)@.activate_evt,
            final(self)@.queue_evt == old(self)@.queue_evt,
            interrupt == (final(self)@.queues[queue_index as int].used.len() > old(
                self,
            )@.queues[queue_index as int].used.len()),
    {
        let mut interrupt = false;
        let ghost start = self@.engine(queue_index as int);
        let ghost chains = self@.queues[queue_index as int].avail;
        let ghost max_size = self@.queues[queue_index as int].max_size;
        match &mut self.device_state {
            DeviceState::Inactive => {},
            DeviceState::Activated(mem) => {
                let queue = &mut self.queues[queue_index];
                let ghost mut taken: int = 0;
                loop
                    invariant
                        after_borrow(self.queues)@ == old(self).queues@.update(
                            queue_index as int,
                            *final(queue),
                        ),
                        after_borrow(self.device_state) == DeviceState::Activated(*final(mem)),
                        queue_index < old(self).queues@.len(),
                        self.avail_features == old(self).avail_features,
                        self.acked_features == old(self).acked_features,
                        self.activate_evt == old(self).activate_evt,
                        self.queue_evts == old(self).queue_evts,
                        0 <= taken <= chains.len(),
                        queue@.max_size == max_size,
                        queue@.avail == chains.skip(taken),
                        guest_bytes(mem).dom() == start.memory.dom(),
                        queue@.used.len() >= start.used.len(),
                        interrupt == (queue@.used.len() > start.used.len()),
                        drains(
                            start,
                            max_size,
                            chains.take(taken),
                            Engine {
                                memory: guest_bytes(mem),
                                used: queue@.used,
                                exchanges: self.exchanges@,
                            },
                        ),
                    ensures
                        taken == chains.len(),
                        queue@.avail.len() == 0,
                        queue@.notification_enabled,
                    decreases chains.len() - taken,
                {
                    match queue.pop_or_enable_notification() {
                        None => {
                            break ;
                        },
                        Some(head) => {
                            let completed = process_chain(
                                mem,
                                queue,
                                &mut self.backend,
                                &mut self.exchanges,
                                head,
                            );
                            if completed {
                                interrupt = true;
                            }
                            proof {
                                assert(chains.take(taken + 1).drop_last() =~= chains.take(taken));
                                assert(chains.take(taken + 1).last() == chains[taken]);
                                assert(chains.skip(taken).skip(1) =~= chains.skip(taken + 1));
                                taken = taken + 1;
                            }
                        },
                    }
                }
                assert(chains.take(taken) =~= chains);
            },
        }
        assert(self@.queues[queue_index as int].avail =~= Seq::empty());
        assert(self@.queues =~= old(self)@.queues.update(
            queue_index as int,
            QueueView {
                avail: Seq::empty(),
                used: self@.queues[queue_index as int].used,
                notification_enabled: true,
                ..old(self)@.queues[queue_index as int]
            },
        ));
        interrupt
    }
}

} // verus!
