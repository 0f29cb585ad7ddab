use std::sync::Arc;
use std::sync::Mutex;

use vm_memory::Bytes;
use vm_memory::GuestAddress;
use vm_memory::GuestMemoryMmap;
use vtpm::device::AVAIL_FEATURES;
use vtpm::device::QUEUE_SIZE;
use vtpm::device::TYPE_TPM;
use vtpm::device::VIRTIO_F_VERSION_1;
use vtpm::device::VIRTIO_RING_F_EVENT_IDX;
use vtpm::error::ActivateError;
use vtpm::queue::Descriptor;
use vtpm::queue::DescriptorChain;
use vtpm::queue::UsedElement;
use vtpm::Tpm;
use vtpm::TpmBackend;
use vtpm::TPM_BUFSIZE;
use vtpm::TPM_DEV_ID;

/// A backend that records each command and answers with its bytes in
/// reverse order.
struct Reverser {
    calls: Arc<Mutex<Vec<Vec<u8>>>>,
}

impl TpmBackend for Reverser {
    fn execute_command(&mut self, command: &[u8]) -> Vec<u8> {
        self.calls.lock().unwrap().push(command.to_vec());
        command.iter().rev().cloned().collect()
    }
}

fn guest_memory() -> GuestMemoryMmap {
    GuestMemoryMmap::<()>::from_ranges(&[(GuestAddress(0), 0x10000)]).unwrap()
}

fn inactive_device() -> (Tpm, Arc<Mutex<Vec<Vec<u8>>>>) {
    let calls = Arc::new(Mutex::new(Vec::new()));
    let tpm = Tpm::new(Box::new(Reverser { calls: calls.clone() }), 10, 11);
    (tpm, calls)
}

fn device(mem: &GuestMemoryMmap) -> (Tpm, Arc<Mutex<Vec<Vec<u8>>>>) {
    let (mut tpm, calls) = inactive_device();
    assert_eq!(tpm.activate(mem.clone(), true), Ok(()));
    (tpm, calls)
}

fn chain(index: u16, command: (u64, u32), response: (u64, u32)) -> DescriptorChain {
    let mut chain = DescriptorChain::new(
        index,
        Descriptor { addr: command.0, len: command.1, write_only: false },
    );
    chain.push(Descriptor { addr: response.0, len: response.1, write_only: true });
    chain
}

fn read_back(mem: &GuestMemoryMmap, addr: u64, len: usize) -> Vec<u8> {
    let mut out = vec![0u8; len];
    mem.read_slice(&mut out, GuestAddress(addr)).unwrap();
    out
}

#[test]
fn new_device_offers_its_features_and_waits() {
    let (mut tpm, calls) = inactive_device();
    assert_eq!(tpm.avail_features(), (1u64 << 32) | (1u64 << 29));
    assert_eq!(AVAIL_FEATURES, (1u64 << VIRTIO_F_VERSION_1) | (1u64 << VIRTIO_RING_F_EVENT_IDX));
    assert_eq!(tpm.acked_features(), 0);
    assert_eq!(tpm.device_type(), TYPE_TPM);
    assert_eq!(tpm.id(), "vtpm");
    assert_eq!(TPM_DEV_ID, "vtpm");
    assert_eq!(TPM_BUFSIZE, 4096);
    assert!(!tpm.is_activated());
    assert_eq!(tpm.activate_evt(), 10);
    assert_eq!(tpm.queue_events(), [11]);
    assert_eq!(tpm.queues().len(), 1);
    assert_eq!(tpm.queues()[0].max_size(), QUEUE_SIZE);
    assert_eq!(QUEUE_SIZE, 2);
    assert_eq!(tpm.queues()[0].avail_len(), 0);
    assert!(tpm.queue_mut(0).take_used().is_empty());
    assert!(calls.lock().unwrap().is_empty());
}

#[test]
fn acked_features_are_recorded() {
    let (mut tpm, _) = inactive_device();
    tpm.set_acked_features(1u64 << 32);
    assert_eq!(tpm.acked_features(), 1u64 << 32);
    assert_eq!(tpm.avail_features(), AVAIL_FEATURES);
}

#[test]
fn activation_needs_the_notification() {
    let (mut tpm, _) = inactive_device();
    assert_eq!(tpm.activate(guest_memory(), false), Err(ActivateError::BadActivate));
    assert!(!tpm.is_activated());
    assert_eq!(tpm.activate(guest_memory(), true), Ok(()));
    assert!(tpm.is_activated());
}

#[test]
fn second_activation_replaces_guest_memory() {
    let first = guest_memory();
    let second = guest_memory();
    second.write_slice(&[1, 2, 3], GuestAddress(0x100)).unwrap();
    let (mut tpm, calls) = device(&first);
    assert_eq!(tpm.activate(second.clone(), true), Ok(()));
    assert!(tpm.is_activated());

    assert_eq!(tpm.queue_mut(0).make_available(chain(0, (0x100, 3), (0x200, 3))), Ok(true));
    assert!(tpm.process_virtio_queues());

    assert_eq!(*calls.lock().unwrap(), vec![vec![1, 2, 3]]);
    assert_eq!(read_back(&second, 0x200, 3), vec![3, 2, 1]);
    assert_eq!(read_back(&first, 0x200, 3), vec![0, 0, 0]);
}

#[test]
fn config_space_is_empty() {
    let (mut tpm, _) = inactive_device();
    let mut data = [0x5a; 8];
    tpm.read_config(0, &mut data);
    assert_eq!(data, [0x5a; 8]);
    tpm.write_config(4, &[1, 2, 3]);
    tpm.read_config(4, &mut data);
    assert_eq!(data, [0x5a; 8]);
    assert_eq!(tpm.acked_features(), 0);
    assert!(!tpm.is_activated());
}

#[test]
fn drain_of_an_empty_queue_does_nothing() {
    let mem = guest_memory();
    mem.write_slice(&[7; 32], GuestAddress(0x100)).unwrap();
    let (mut tpm, calls) = device(&mem);

    assert!(!tpm.process_virtio_queues());
    assert!(!tpm.process_virtio_queues());

    assert!(calls.lock().unwrap().is_empty());
    assert!(tpm.queue_mut(0).take_used().is_empty());
    assert_eq!(read_back(&mem, 0x100, 32), vec![7; 32]);
    assert_eq!(read_back(&mem, 0x200, 32), vec![0; 32]);
}

#[test]
fn two_completed_chains_make_one_interrupt() {
    let mem = guest_memory();
    mem.write_slice(&[1, 2, 3], GuestAddress(0x100)).unwrap();
    mem.write_slice(&[4, 5], GuestAddress(0x300)).unwrap();
    let (mut tpm, calls) = device(&mem);
    assert_eq!(tpm.queue_mut(0).make_available(chain(0, (0x100, 3), (0x200, 16))), Ok(true));
    assert_eq!(tpm.queue_mut(0).make_available(chain(1, (0x300, 2), (0x400, 16))), Ok(false));

    let interrupt = tpm.process_virtio_queues();

    assert!(interrupt);
    assert_eq!(*calls.lock().unwrap(), vec![vec![1, 2, 3], vec![4, 5]]);
    assert_eq!(read_back(&mem, 0x200, 3), vec![3, 2, 1]);
    assert_eq!(read_back(&mem, 0x400, 2), vec![5, 4]);
    assert_eq!(
        tpm.queue_mut(0).take_used(),
        vec![UsedElement { id: 0, len: 3 }, UsedElement { id: 1, len: 2 }]
    );
    // the queue is drained, and the next chain is announced again
    assert_eq!(tpm.queue_mut(0).make_available(chain(0, (0x100, 3), (0x200, 16))), Ok(true));
}

#[test]
fn later_chain_sees_what_an_earlier_response_wrote() {
    let mem = guest_memory();
    mem.write_slice(&[1, 2, 3], GuestAddress(0x100)).unwrap();
    let (mut tpm, calls) = device(&mem);
    // the second command is read from where the first response goes
    assert_eq!(tpm.queue_mut(0).make_available(chain(0, (0x100, 3), (0x200, 3))), Ok(true));
    assert_eq!(tpm.queue_mut(0).make_available(chain(1, (0x200, 3), (0x300, 3))), Ok(false));

    assert!(tpm.process_virtio_queues());

    assert_eq!(*calls.lock().unwrap(), vec![vec![1, 2, 3], vec![3, 2, 1]]);
    assert_eq!(read_back(&mem, 0x300, 3), vec![1, 2, 3]);
}

#[test]
fn failed_chain_does_not_stop_the_next_one() {
    let mem = guest_memory();
    mem.write_slice(&[9, 8], GuestAddress(0x300)).unwrap();
    let (mut tpm, calls) = device(&mem);
    let lonely = DescriptorChain::new(0, Descriptor { addr: 0x100, len: 3, write_only: false });
    assert_eq!(tpm.queue_mut(0).make_available(lonely), Ok(true));
    assert_eq!(tpm.queue_mut(0).make_available(chain(1, (0x300, 2), (0x400, 16))), Ok(false));

    assert!(tpm.process_virtio_queues());

    assert_eq!(*calls.lock().unwrap(), vec![vec![9, 8]]);
    assert_eq!(tpm.queue_mut(0).take_used(), vec![UsedElement { id: 1, len: 2 }]);
}

#[test]
fn head_beyond_the_limit_is_passed_over() {
    let mem = guest_memory();
    let (mut tpm, calls) = device(&mem);
    assert_eq!(tpm.queue_mut(0).make_available(chain(0, (0x100, 4097), (0x2000, 64))), Ok(true));

    assert!(!tpm.process_virtio_queues());

    assert!(calls.lock().unwrap().is_empty());
    assert!(tpm.queue_mut(0).take_used().is_empty());
    assert_eq!(read_back(&mem, 0x2000, 64), vec![0; 64]);
}

#[test]
fn command_of_exactly_the_limit_is_served() {
    let mem = guest_memory();
    let command: Vec<u8> = (0..4096usize).map(|i| (i % 251) as u8).collect();
    mem.write_slice(&command, GuestAddress(0x1000)).unwrap();
    let (mut tpm, calls) = device(&mem);
    assert_eq!(tpm.queue_mut(0).make_available(chain(0, (0x1000, 4096), (0x4000, 4096))), Ok(true));

    assert!(tpm.process_virtio_queues());

    assert_eq!(*calls.lock().unwrap(), vec![command.clone()]);
    let reversed: Vec<u8> = command.iter().rev().cloned().collect();
    assert_eq!(read_back(&mem, 0x4000, 4096), reversed);
    assert_eq!(tpm.queue_mut(0).take_used(), vec![UsedElement { id: 0, len: 4096 }]);
}

#[test]
fn unreadable_command_is_passed_over() {
    let mem = guest_memory();
    let (mut tpm, calls) = device(&mem);
    assert_eq!(tpm.queue_mut(0).make_available(chain(0, (0x20000, 8), (0x200, 16))), Ok(true));

    assert!(!tpm.process_virtio_queues());

    assert!(calls.lock().unwrap().is_empty());
    assert!(tpm.queue_mut(0).take_used().is_empty());
}

#[test]
fn unwritable_response_leaves_the_chain_unmarked() {
    let mem = guest_memory();
    mem.write_slice(&[1, 2, 3], GuestAddress(0x100)).unwrap();
    let (mut tpm, calls) = device(&mem);
    assert_eq!(tpm.queue_mut(0).make_available(chain(0, (0x100, 3), (0x20000, 16))), Ok(true));

    assert!(!tpm.process_virtio_queues());

    assert_eq!(calls.lock().unwrap().len(), 1);
    assert!(tpm.queue_mut(0).take_used().is_empty());
}

#[test]
fn chain_with_an_index_beyond_the_queue_is_not_marked_used() {
    let mem = guest_memory();
    mem.write_slice(&[1, 2, 3], GuestAddress(0x100)).unwrap();
    let (mut tpm, calls) = device(&mem);
    assert_eq!(tpm.queue_mut(0).make_available(chain(2, (0x100, 3), (0x200, 16))), Ok(true));

    assert!(!tpm.process_virtio_queues());

    // the response was written, but the queue refused the index
    assert_eq!(calls.lock().unwrap().len(), 1);
    assert_eq!(read_back(&mem, 0x200, 3), vec![3, 2, 1]);
    assert!(tpm.queue_mut(0).take_used().is_empty());
}

#[test]
fn empty_response_completes_the_chain_with_length_zero() {
    let mem = guest_memory();
    let (mut tpm, calls) = device(&mem);
    // a command of no bytes is answered by no bytes
    assert_eq!(tpm.queue_mut(0).make_available(chain(0, (0x100, 0), (0x200, 16))), Ok(true));

    assert!(tpm.process_virtio_queues());

    assert_eq!(*calls.lock().unwrap(), vec![Vec::<u8>::new()]);
    assert_eq!(tpm.queue_mut(0).take_used(), vec![UsedElement { id: 0, len: 0 }]);
}
