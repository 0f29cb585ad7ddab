//! Walking the descriptors of one chain.

use vstd::prelude::*;
use crate::queue::Descriptor;
use crate::queue::DescriptorChain;

verus! {

/// What is left of `descs` once the write-only descriptors at its front are
/// passed over: it starts at the first readable descriptor and runs to the
/// end of the chain.
pub open spec fn skip_write_only(descs: Seq<Descriptor>) -> Seq<Descriptor>
    decreases descs.len(),
{
    if descs.len() == 0 || !descs[0].write_only {
        descs
    } else {
        skip_write_only(descs.skip(1))
    }
}

/// What `skip_write_only` leaves is the end of `descs`: only write-only
/// descriptors were passed over, and what is left is empty or starts with a
/// readable descriptor.
pub proof fn lemma_skip_write_only(descs: Seq<Descriptor>)
    ensures
        skip_write_only(descs).len() <= descs.len(),
        skip_write_only(descs) == descs.skip(descs.len() - skip_write_only(descs).len()),
        forall|i: int|
            0 <= i < descs.len() - skip_write_only(descs).len() ==> (#[trigger] descs[i]).write_only,
        skip_write_only(descs).len() > 0 ==> !skip_write_only(descs)[0].write_only,
    decreases descs.len(),
{
    if descs.len() == 0 || !descs[0].write_only {
        assert(descs.skip(0) =~= descs);
    } else {
        let rest = descs.skip(1);
        lemma_skip_write_only(rest);
        let passed = rest.len() - skip_write_only(rest).len();
        assert(rest.skip(passed) =~= descs.skip(passed + 1));
        assert forall|i: int| 0 <= i < passed + 1 implies (#[trigger] descs[i]).write_only by {
            if i > 0 {
                assert(descs[i] == rest[i - 1]);
            }
        }
    }
}

/// An iterator over the descriptors of a single chain. Not to be confused
/// with a walk over the chain heads of a queue.
pub struct DescIter {
    descriptors: Vec<Descriptor>,
    next: usize,
}

impl View for DescIter {
    type V = Seq<Descriptor>;

    /// The descriptors still to come, in chain order.
    closed spec fn view(&self) -> Seq<Descriptor> {
        if self.next <= self.descriptors@.len() {
            self.descriptors@.skip(self.next as int)
        } else {
            Seq::empty()
        }
    }
}

impl DescIter {
    /// An iterator that starts at the head of `chain`.
    pub fn new(chain: DescriptorChain) -> (iter: DescIter)
        ensures
            iter@ == chain@.descriptors,
    {
        let iter = DescIter { descriptors: chain.descriptors, next: 0 };
        assert(iter@ =~= chain@.descriptors);
        iter
    }

    /// The next descriptor of the chain, if one is left.
    pub fn next(&mut self) -> (item: Option<Descriptor>)
        ensures
            old(self)@.len() == 0 ==> item is None && final(self)@ == old(self)@,
            old(self)@.len() > 0 ==> item == Some(old(self)@[0]) && final(self)@ == old(
                self,
            )@.skip(1),
    {
        if self.next < self.descriptors.len() {
            let current = self.descriptors[self.next];
            self.next = self.next + 1;
            assert(self@ =~= old(self)@.skip(1));
            Some(current)
        } else {
            None
        }
    }

    /// Passes over the write-only descriptors at the front, and yields the
    /// chain from its first readable descriptor on.
    pub fn readable(self) -> (iter: DescIter)
        ensures
            iter@ == skip_write_only(self@),
    {
        self.skip_leading_write_only()
    }

    /// Passes over the write-only descriptors at the front, exactly as
    /// `readable` does, and yields what follows them.
    pub fn writable(self) -> (iter: DescIter)
        ensures
            iter@ == skip_write_only(self@),
    {
        self.skip_leading_write_only()
    }

    fn skip_leading_write_only(self) -> (iter: DescIter)
        ensures
            iter@ == skip_write_only(self@),
    {
        let mut iter = self;
        while iter.next < iter.descriptors.len() && iter.descriptors[iter.next].write_only
            invariant
                skip_write_only(self@) == skip_write_only(iter@),
            decreases iter@.len(),
        {
            assert(iter@.skip(1) =~= iter.descriptors@.skip(iter.next + 1));
            iter.next = iter.next + 1;
        }
        iter
    }
}

} // verus!
