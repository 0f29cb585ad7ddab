//! Guest memory as the device sees it: a partial map from guest physical
//! addresses to bytes, read and written through `vm_memory`.

use vstd::prelude::*;
use vm_memory::Bytes;
use vm_memory::GuestAddress;
use vm_memory::GuestMemoryError;
use vm_memory::GuestMemoryMmap;

verus! {

/// `GuestMemoryMmap` of `vm_memory`: the guest's memory, mapped into this
/// process. Proofs see nothing of it but what `guest_bytes` names.
#[verifier::external_type_specification]
#[verifier::external_body]
#[verifier::reject_recursive_types(B)]
pub struct ExGuestMemoryMmap<B>(GuestMemoryMmap<B>);

/// `GuestMemoryError` of `vm_memory`: why an access to guest memory failed.
/// Proofs see nothing of it.
#[verifier::external_type_specification]
#[verifier::external_body]
pub struct ExGuestMemoryError(GuestMemoryError);

/// The bytes that guest memory holds, by guest physical address. An address
/// is in the domain exactly when one of the memory's regions maps it.
///
/// Trusted: between two calls of the device, memory holds what it held
/// after the first. Guest memory is the engine's alone for the length of a
/// drain pass.
pub uninterp spec fn guest_bytes(mem: &GuestMemoryMmap) -> Map<u64, u8>;

/// Whether `len` bytes starting at `addr` can be accessed in one piece: the
/// start address is mapped, and so is every address of the range.
pub open spec fn range_mapped(bytes: Map<u64, u8>, addr: u64, len: nat) -> bool {
    &&& bytes.dom().contains(addr)
    &&& addr + len <= u64::MAX + 1
    &&& forall|a: u64| addr <= a < addr + len ==> bytes.dom().contains(a)
}

/// The `len` bytes found at `addr`.
pub open spec fn bytes_at(bytes: Map<u64, u8>, addr: u64, len: nat) -> Seq<u8> {
    Seq::new(len, |i: int| bytes[(addr + i) as u64])
}

/// Memory after `data` has been stored at `addr`: the range holds `data`,
/// every other mapped address keeps its byte.
pub open spec fn stored(bytes: Map<u64, u8>, addr: u64, data: Seq<u8>) -> Map<u64, u8> {
    Map::new(
        |a: u64| bytes.dom().contains(a),
        |a: u64|
            if addr <= a < addr + data.len() {
                data[a - addr]
            } else {
                bytes[a]
            },
    )
}

/// `Bytes::read_slice` of `vm_memory` on a `GuestMemoryMmap`, filling
/// `buf[start..end]` from guest address `addr`.
///
/// Trusted: the read succeeds exactly when the start address and the whole
/// range are mapped, and then the filled part of the buffer holds the bytes
/// of guest memory in order. Whether it succeeds or not, the buffer keeps
/// its length and nothing outside `start..end` changes.
#[verifier::external_body]
pub(crate) fn read_slice(
    mem: &GuestMemoryMmap,
    buf: &mut Vec<u8>,
    start: usize,
    end: usize,
    addr: u64,
) -> (res: Result<(), GuestMemoryError>)
    requires
        start <= end <= old(buf)@.len(),
    ensures
        final(buf)@.len() == old(buf)@.len(),
        forall|i: int|
            0 <= i < old(buf)@.len() && !(start <= i < end) ==> final(buf)@[i] == old(buf)@[i],
        res is Ok <==> range_mapped(guest_bytes(mem), addr, (end - start) as nat),
        res is Ok ==> final(buf)@.subrange(start as int, end as int) == bytes_at(
            guest_bytes(mem),
            addr,
            (end - start) as nat,
        ),
{
    mem.read_slice(&mut buf[start..end], GuestAddress(addr))
}

/// `Bytes::write_slice` of `vm_memory` on a `GuestMemoryMmap`, storing
/// `data` at guest address `addr`.
///
/// Trusted: the write succeeds exactly when the start address and the whole
/// range are mapped, and then memory holds `data` there and is otherwise
/// unchanged. A failed write may have stored part of `data`, but touches no
/// address outside the range. The set of mapped addresses never changes.
#[verifier::external_body]
pub(crate) fn write_slice(mem: &mut GuestMemoryMmap, data: &[u8], addr: u64) -> (res: Result<
    (),
    GuestMemoryError,
>)
    ensures
        guest_bytes(final(mem)).dom() == guest_bytes(old(mem)).dom(),
        res is Ok <==> range_mapped(guest_bytes(old(mem)), addr, data@.len()),
        res is Ok ==> guest_bytes(final(mem)) == stored(guest_bytes(old(mem)), addr, data@),
        forall|a: u64|
            guest_bytes(old(mem)).dom().contains(a) && !(addr <= a < addr + data@.len())
                ==> guest_bytes(final(mem))[a] == guest_bytes(old(mem))[a],
{
    mem.write_slice(data, GuestAddress(addr))
}

} // verus!
