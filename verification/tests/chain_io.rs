use vm_memory::Bytes;
use vm_memory::GuestAddress;
use vm_memory::GuestMemoryMmap;
use vtpm::chain_io::read_from_descriptor_chain;
use vtpm::chain_io::write_to_descriptor_chain;
use vtpm::queue::Descriptor;
use vtpm::queue::DescriptorChain;
use vtpm::TpmError;
use vtpm::TPM_BUFSIZE;

/// Guest memory of two regions with a hole between them:
/// `0x0000..0x4000` and `0x8000..0x9000`.
fn memory_with_hole() -> GuestMemoryMmap {
    GuestMemoryMmap::<()>::from_ranges(&[(GuestAddress(0), 0x4000), (GuestAddress(0x8000), 0x1000)])
        .unwrap()
}

fn readable(addr: u64, len: u32) -> Descriptor {
    Descriptor { addr, len, write_only: false }
}

fn writable(addr: u64, len: u32) -> Descriptor {
    Descriptor { addr, len, write_only: true }
}

fn chain(descriptors: &[Descriptor]) -> DescriptorChain {
    let mut chain = DescriptorChain::new(0, descriptors[0]);
    for descriptor in &descriptors[1..] {
        chain.push(*descriptor);
    }
    chain
}

fn pattern(len: usize, seed: u8) -> Vec<u8> {
    (0..len).map(|i| (i as u8).wrapping_mul(7).wrapping_add(seed)).collect()
}

fn read_back(mem: &GuestMemoryMmap, addr: u64, len: usize) -> Vec<u8> {
    let mut out = vec![0u8; len];
    mem.read_slice(&mut out, GuestAddress(addr)).unwrap();
    out
}

#[test]
fn read_returns_the_bytes_of_the_readable_descriptor() {
    let mem = memory_with_hole();
    let command = pattern(300, 1);
    mem.write_slice(&command, GuestAddress(0x100)).unwrap();

    let res =
        read_from_descriptor_chain(&mem, &chain(&[readable(0x100, 300), writable(0x2000, 64)]));

    assert_eq!(res.unwrap(), command);
}

#[test]
fn read_joins_readable_descriptors_in_chain_order() {
    let mem = memory_with_hole();
    let first = pattern(123, 3);
    let second = pattern(45, 9);
    mem.write_slice(&first, GuestAddress(0x1000)).unwrap();
    mem.write_slice(&second, GuestAddress(0x200)).unwrap();

    let res = read_from_descriptor_chain(
        &mem,
        &chain(&[readable(0x1000, 123), writable(0x3000, 16), readable(0x200, 45)]),
    );

    let mut expected = first.clone();
    expected.extend_from_slice(&second);
    assert_eq!(res.unwrap(), expected);
}

#[test]
fn read_of_a_chain_without_readable_descriptor_is_empty() {
    let mem = memory_with_hole();

    let res = read_from_descriptor_chain(&mem, &chain(&[writable(0x100, 8), writable(0x200, 8)]));

    assert_eq!(res.unwrap(), Vec::<u8>::new());
}

#[test]
fn read_takes_a_command_of_exactly_the_limit() {
    let mem = memory_with_hole();
    let command = pattern(TPM_BUFSIZE, 5);
    mem.write_slice(&command, GuestAddress(0)).unwrap();

    let res = read_from_descriptor_chain(&mem, &chain(&[readable(0, 4096)]));

    assert_eq!(res.unwrap(), command);
}

#[test]
fn read_refuses_a_descriptor_beyond_the_limit() {
    let mem = memory_with_hole();

    let res = read_from_descriptor_chain(&mem, &chain(&[readable(0, 4097), writable(0x2000, 8)]));

    assert!(matches!(res, Err(TpmError::CommandTooLong { size: 4097 })));
}

#[test]
fn read_refuses_a_descriptor_beyond_the_room_that_is_left() {
    let mem = memory_with_hole();

    let res = read_from_descriptor_chain(
        &mem,
        &chain(&[readable(0, 4000), readable(0x1000, 200), writable(0x2000, 8)]),
    );

    assert!(matches!(res, Err(TpmError::CommandTooLong { size: 4200 })));
}

#[test]
fn read_reports_unmapped_memory() {
    let mem = memory_with_hole();

    let unmapped = read_from_descriptor_chain(&mem, &chain(&[readable(0x5000, 16)]));
    assert!(matches!(unmapped, Err(TpmError::GuestMemory(_))));

    // the region starts mapped and runs into the hole
    let partly = read_from_descriptor_chain(&mem, &chain(&[readable(0x3ff0, 32)]));
    assert!(matches!(partly, Err(TpmError::GuestMemory(_))));

    // an empty region at an unmapped address is refused as well
    let empty = read_from_descriptor_chain(&mem, &chain(&[readable(0x5000, 0)]));
    assert!(matches!(empty, Err(TpmError::GuestMemory(_))));
}

#[test]
fn read_reports_the_first_descriptor_at_fault() {
    let mem = memory_with_hole();

    let res = read_from_descriptor_chain(&mem, &chain(&[readable(0x5000, 16), readable(0, 5000)]));
    assert!(matches!(res, Err(TpmError::GuestMemory(_))));

    let res = read_from_descriptor_chain(&mem, &chain(&[readable(0, 5000), readable(0x5000, 16)]));
    assert!(matches!(res, Err(TpmError::CommandTooLong { size: 5000 })));
}

#[test]
fn write_stores_the_response_in_the_write_only_descriptor() {
    let mut mem = memory_with_hole();
    let view = mem.clone();
    let response = pattern(40, 2);

    let res = write_to_descriptor_chain(
        &mut mem,
        &response,
        &chain(&[readable(0x100, 12), writable(0x2000, 64)]),
    );

    assert!(res.is_ok());
    assert_eq!(read_back(&view, 0x2000, 40), response);
    assert_eq!(read_back(&view, 0x2000 + 40, 24), vec![0u8; 24]);
    assert_eq!(read_back(&view, 0x100, 12), vec![0u8; 12]);
}

#[test]
fn write_spreads_the_response_over_write_only_descriptors() {
    let mut mem = memory_with_hole();
    let view = mem.clone();
    let response = pattern(100, 4);

    let res = write_to_descriptor_chain(
        &mut mem,
        &response,
        &chain(&[writable(0x2000, 30), readable(0x100, 12), writable(0x8000, 100)]),
    );

    assert!(res.is_ok());
    assert_eq!(read_back(&view, 0x2000, 30), response[..30].to_vec());
    assert_eq!(read_back(&view, 0x2000 + 30, 10), vec![0u8; 10]);
    assert_eq!(read_back(&view, 0x8000, 70), response[30..].to_vec());
    assert_eq!(read_back(&view, 0x8000 + 70, 30), vec![0u8; 30]);
}

#[test]
fn write_reports_the_bytes_that_found_no_room() {
    let mut mem = memory_with_hole();
    let view = mem.clone();
    let response = pattern(100, 6);

    let res = write_to_descriptor_chain(
        &mut mem,
        &response,
        &chain(&[writable(0x2000, 30), writable(0x3000, 20)]),
    );

    assert!(matches!(res, Err(TpmError::ResponseTooLong { size: 50 })));
    assert_eq!(read_back(&view, 0x2000, 30), response[..30].to_vec());
    assert_eq!(read_back(&view, 0x3000, 20), response[30..50].to_vec());
    assert_eq!(read_back(&view, 0x3000 + 20, 16), vec![0u8; 16]);
}

#[test]
fn write_without_write_only_descriptor_stores_nothing() {
    let mut mem = memory_with_hole();
    let view = mem.clone();

    let res = write_to_descriptor_chain(&mut mem, &[1, 2, 3], &chain(&[readable(0x100, 12)]));

    assert!(matches!(res, Err(TpmError::ResponseTooLong { size: 3 })));
    assert_eq!(read_back(&view, 0x100, 12), vec![0u8; 12]);
}

#[test]
fn write_of_an_empty_response_needs_a_write_only_descriptor() {
    let mut mem = memory_with_hole();

    let with =
        write_to_descriptor_chain(&mut mem, &[], &chain(&[readable(0, 4), writable(0x2000, 8)]));
    assert!(with.is_ok());

    let without = write_to_descriptor_chain(&mut mem, &[], &chain(&[readable(0, 4)]));
    assert!(matches!(without, Err(TpmError::ResponseTooLong { size: 0 })));

    let unmapped = write_to_descriptor_chain(&mut mem, &[], &chain(&[writable(0x5000, 8)]));
    assert!(matches!(unmapped, Err(TpmError::GuestMemory(_))));
}

#[test]
fn write_passes_through_an_empty_write_only_descriptor() {
    let mut mem = memory_with_hole();
    let view = mem.clone();

    let res = write_to_descriptor_chain(
        &mut mem,
        &[9, 8, 7],
        &chain(&[writable(0x2000, 0), writable(0x3000, 8)]),
    );

    assert!(res.is_ok());
    assert_eq!(read_back(&view, 0x2000, 4), vec![0u8; 4]);
    assert_eq!(read_back(&view, 0x3000, 3), vec![9, 8, 7]);
}

#[test]
fn write_reports_unmapped_memory_and_keeps_what_was_stored() {
    let mut mem = memory_with_hole();
    let view = mem.clone();
    let response = pattern(64, 8);

    let res = write_to_descriptor_chain(
        &mut mem,
        &response,
        &chain(&[writable(0x2000, 16), writable(0x5000, 64)]),
    );

    assert!(matches!(res, Err(TpmError::GuestMemory(_))));
    assert_eq!(read_back(&view, 0x2000, 16), response[..16].to_vec());
    assert_eq!(read_back(&view, 0x2000 + 16, 16), vec![0u8; 16]);
}

#[test]
fn write_stops_at_the_descriptor_that_takes_the_last_byte() {
    let mut mem = memory_with_hole();
    let view = mem.clone();

    // the second descriptor points into the hole, and is never reached
    let res = write_to_descriptor_chain(
        &mut mem,
        &[1, 2, 3, 4],
        &chain(&[writable(0x2000, 4), writable(0x5000, 4)]),
    );

    assert!(res.is_ok());
    assert_eq!(read_back(&view, 0x2000, 4), vec![1, 2, 3, 4]);
}
