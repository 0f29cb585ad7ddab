use vtpm::error::QueueError;
use vtpm::queue::Descriptor;
use vtpm::queue::DescriptorChain;
use vtpm::queue::Queue;
use vtpm::queue::UsedElement;
use vtpm::queue_utils::DescIter;

fn readable(addr: u64, len: u32) -> Descriptor {
    Descriptor { addr, len, write_only: false }
}

fn writable(addr: u64, len: u32) -> Descriptor {
    Descriptor { addr, len, write_only: true }
}

fn chain(index: u16, descriptors: &[Descriptor]) -> DescriptorChain {
    let mut chain = DescriptorChain::new(index, descriptors[0]);
    for descriptor in &descriptors[1..] {
        chain.push(*descriptor);
    }
    chain
}

fn collect(mut iter: DescIter) -> Vec<Descriptor> {
    let mut out = Vec::new();
    while let Some(descriptor) = iter.next() {
        out.push(descriptor);
    }
    out
}

#[test]
fn chain_knows_its_head() {
    let head_only = DescriptorChain::new(7, readable(0x100, 12));
    assert_eq!(head_only.index, 7);
    assert_eq!(head_only.len(), 12);
    assert!(!head_only.has_next());
    assert_eq!(head_only.descriptors, vec![readable(0x100, 12)]);

    let pair = chain(1, &[readable(0x100, 12), writable(0x200, 64)]);
    assert_eq!(pair.len(), 12);
    assert!(pair.has_next());
    assert_eq!(pair.descriptors, vec![readable(0x100, 12), writable(0x200, 64)]);
}

#[test]
fn chain_without_descriptors_advertises_nothing() {
    let empty = DescriptorChain { index: 0, descriptors: Vec::new() };
    assert_eq!(empty.len(), 0);
    assert!(!empty.has_next());
}

#[test]
fn new_queue_is_empty_and_awaits_a_notification() {
    let mut queue = Queue::new(2);
    assert_eq!(queue.max_size(), 2);
    assert_eq!(queue.avail_len(), 0);
    assert!(queue.take_used().is_empty());
    // the first chain is announced to the device
    assert_eq!(queue.make_available(chain(0, &[readable(0, 1)])), Ok(true));
}

#[test]
fn queue_hands_out_chains_oldest_first() {
    let mut queue = Queue::new(2);
    assert_eq!(queue.make_available(chain(0, &[readable(0x10, 1)])), Ok(true));
    assert_eq!(queue.make_available(chain(1, &[readable(0x20, 2)])), Ok(false));
    assert_eq!(queue.avail_len(), 2);

    let first = queue.pop_or_enable_notification().unwrap();
    assert_eq!((first.index, first.len()), (0, 1));
    let second = queue.pop_or_enable_notification().unwrap();
    assert_eq!((second.index, second.len()), (1, 2));
    assert!(queue.pop_or_enable_notification().is_none());
    assert_eq!(queue.avail_len(), 0);
}

#[test]
fn queue_refuses_more_chains_than_it_is_deep() {
    let mut queue = Queue::new(2);
    assert_eq!(queue.make_available(chain(0, &[readable(0, 1)])), Ok(true));
    assert_eq!(queue.make_available(chain(1, &[readable(0, 1)])), Ok(false));
    assert_eq!(queue.make_available(chain(0, &[readable(0, 1)])), Err(QueueError::Full));
    assert_eq!(queue.avail_len(), 2);

    let mut none = Queue::new(0);
    assert_eq!(none.make_available(chain(0, &[readable(0, 1)])), Err(QueueError::Full));
}

#[test]
fn notifications_are_enabled_only_by_a_pop_that_finds_nothing() {
    let mut queue = Queue::new(2);
    assert_eq!(queue.make_available(chain(0, &[readable(0, 1)])), Ok(true));
    // taking the chain does not ask for a notification
    assert!(queue.pop_or_enable_notification().is_some());
    assert_eq!(queue.make_available(chain(1, &[readable(0, 1)])), Ok(false));
    assert!(queue.pop_or_enable_notification().is_some());
    // finding the queue empty does
    assert!(queue.pop_or_enable_notification().is_none());
    assert_eq!(queue.make_available(chain(0, &[readable(0, 1)])), Ok(true));
}

#[test]
fn add_used_records_chains_in_order() {
    let mut queue = Queue::new(2);
    assert_eq!(queue.add_used(1, 12), Ok(()));
    assert_eq!(queue.add_used(0, 4096), Ok(()));
    assert_eq!(
        queue.take_used(),
        vec![UsedElement { id: 1, len: 12 }, UsedElement { id: 0, len: 4096 }]
    );
    assert!(queue.take_used().is_empty());
}

#[test]
fn add_used_refuses_an_index_beyond_the_depth() {
    let mut queue = Queue::new(2);
    assert_eq!(queue.add_used(2, 12), Err(QueueError::DescIndexOutOfBounds(2)));
    assert_eq!(queue.add_used(u16::MAX, 1), Err(QueueError::DescIndexOutOfBounds(u16::MAX)));
    assert!(queue.take_used().is_empty());
}

#[test]
fn desc_iter_walks_the_chain_in_order() {
    let descriptors = [readable(0x10, 1), writable(0x20, 2), readable(0x30, 3)];
    let mut iter = DescIter::new(chain(0, &descriptors));
    assert_eq!(iter.next(), Some(descriptors[0]));
    assert_eq!(iter.next(), Some(descriptors[1]));
    assert_eq!(iter.next(), Some(descriptors[2]));
    assert_eq!(iter.next(), None);
    assert_eq!(iter.next(), None);
}

#[test]
fn readable_starts_at_the_first_readable_descriptor() {
    let descriptors = [writable(0x10, 1), writable(0x20, 2), readable(0x30, 3), writable(0x40, 4)];
    let iter = DescIter::new(chain(0, &descriptors)).readable();
    assert_eq!(collect(iter), descriptors[2..].to_vec());

    let descriptors = [readable(0x10, 1), writable(0x20, 2)];
    let iter = DescIter::new(chain(0, &descriptors)).readable();
    assert_eq!(collect(iter), descriptors.to_vec());

    let descriptors = [writable(0x10, 1), writable(0x20, 2)];
    let iter = DescIter::new(chain(0, &descriptors)).readable();
    assert_eq!(collect(iter), Vec::new());
}

#[test]
fn writable_passes_over_the_leading_write_only_descriptors() {
    let descriptors = [writable(0x10, 1), readable(0x30, 3), writable(0x40, 4)];
    let iter = DescIter::new(chain(0, &descriptors)).writable();
    assert_eq!(collect(iter), descriptors[1..].to_vec());

    let descriptors = [readable(0x10, 1), writable(0x20, 2)];
    let iter = DescIter::new(chain(0, &descriptors)).writable();
    assert_eq!(collect(iter), descriptors.to_vec());
}

#[test]
fn readable_after_a_step_starts_from_where_the_walk_stands() {
    let descriptors = [readable(0x10, 1), writable(0x20, 2), readable(0x30, 3)];
    let mut iter = DescIter::new(chain(0, &descriptors));
    assert_eq!(iter.next(), Some(descriptors[0]));
    assert_eq!(collect(iter.readable()), descriptors[2..].to_vec());
}
