//! Moving a command out of a descriptor chain and a response back into it.
//!
//! Neither direction trusts the chain: lengths, directions and addresses
//! come from the guest, and every inconsistency ends in a typed error.

use vstd::prelude::*;
use vstd::slice::slice_subrange;
use vm_memory::GuestMemoryMmap;
use crate::error::TpmError;
use crate::mem::bytes_at;
use crate::mem::guest_bytes;
use crate::mem::range_mapped;
use crate::mem::read_slice;
use crate::mem::stored;
use crate::mem::write_slice;
use crate::queue::Descriptor;
use crate::queue::DescriptorChain;
use crate::TPM_BUFSIZE;

verus! {

/// How reading a command out of a chain ends.
pub enum ChainRead {
    /// Every readable descriptor was copied: the command.
    Command(Seq<u8>),
    /// A readable descriptor did not fit the room left in the buffer. The
    /// number is the length that the command would have reached with it.
    TooLong(nat),
    /// Guest memory refused to be read where a readable descriptor points.
    Fault,
}

/// Reads the command that `descs` describe, after `acc` has been read:
/// write-only descriptors are passed over, each readable one contributes the
/// bytes of its whole region, in chain order, and the command may not grow
/// beyond `TPM_BUFSIZE`.
pub open spec fn read_chain(bytes: Map<u64, u8>, descs: Seq<Descriptor>, acc: Seq<u8>) -> ChainRead
    decreases descs.len(),
{
    if descs.len() == 0 {
        ChainRead::Command(acc)
    } else if descs[0].write_only {
        read_chain(bytes, descs.skip(1), acc)
    } else if acc.len() + descs[0].len > TPM_BUFSIZE {
        ChainRead::TooLong(acc.len() + descs[0].len as nat)
    } else if !range_mapped(bytes, descs[0].addr, descs[0].len as nat) {
        ChainRead::Fault
    } else {
        read_chain(
            bytes,
            descs.skip(1),
            acc + bytes_at(bytes, descs[0].addr, descs[0].len as nat),
        )
    }
}

/// How writing a response into a chain ends.
pub enum WriteOutcome {
    /// All of the response was stored.
    Done,
    /// The chain ran out of writable room with this many bytes left over.
    TooLong(nat),
    /// Guest memory refused the write of `len` bytes at `addr`.
    Fault { addr: u64, len: nat },
}

/// Guest memory after a response was written into a chain, and how the
/// write ended. After a fault, `bytes` is memory as it stood before the
/// write that failed.
pub struct ChainWrite {
    pub bytes: Map<u64, u8>,
    pub outcome: WriteOutcome,
}

impl ChainWrite {
    /// Whether `after` is guest memory as this write leaves it: exactly
    /// `bytes`, except that a refused write may have stored anything in the
    /// range that it was meant for.
    pub open spec fn leaves(self, after: Map<u64, u8>) -> bool {
        match self.outcome {
            WriteOutcome::Fault { addr, len } => {
                &&& after.dom() == self.bytes.dom()
                &&& forall|a: u64|
                    after.dom().contains(a) && !(addr <= a < addr + len) ==> after[a]
                        == self.bytes[a]
            },
            _ => after == self.bytes,
        }
    }
}

/// The smaller of the data left over and a descriptor's length.
pub open spec fn chunk_len(left: nat, d: Descriptor) -> nat {
    if left < d.len {
        left
    } else {
        d.len as nat
    }
}

/// Writes `data` into the regions that `descs` describe: readable
/// descriptors are passed over, each write-only one takes as much of what is
/// left of `data` as it can hold, in chain order. The write is done as soon
/// as a write-only descriptor has taken the last of `data`.
pub open spec fn write_chain(
    bytes: Map<u64, u8>,
    data: Seq<u8>,
    descs: Seq<Descriptor>,
) -> ChainWrite
    decreases descs.len(),
{
    if descs.len() == 0 {
        ChainWrite { bytes, outcome: WriteOutcome::TooLong(data.len()) }
    } else if !descs[0].write_only {
        write_chain(bytes, data, descs.skip(1))
    } else {
        let n = chunk_len(data.len(), descs[0]);
        if !range_mapped(bytes, descs[0].addr, n) {
            ChainWrite { bytes, outcome: WriteOutcome::Fault { addr: descs[0].addr, len: n } }
        } else if n == data.len() {
            ChainWrite {
                bytes: stored(bytes, descs[0].addr, data.take(n as int)),
                outcome: WriteOutcome::Done,
            }
        } else {
            write_chain(
                stored(bytes, descs[0].addr, data.take(n as int)),
                data.skip(n as int),
                descs.skip(1),
            )
        }
    }
}

/// A length as an error reports it: itself where it fits `usize`, else the
/// largest `usize`.
pub open spec fn reported(size: nat) -> usize {
    if size <= usize::MAX {
        size as usize
    } else {
        usize::MAX
    }
}

/// Reads the command that the chain `head` carries out of guest memory.
///
/// The command is the content of the chain's readable descriptors, in chain
/// order. A descriptor that does not fit what is left of `TPM_BUFSIZE` fails
/// the whole read with `CommandTooLong`; a region that guest memory does not
/// map fails it with `GuestMemory`. The first descriptor at fault decides.
pub fn read_from_descriptor_chain(mem: &GuestMemoryMmap, head: &DescriptorChain) -> (res: Result<
    Vec<u8>,
    TpmError,
>)
    ensures
        match read_chain(guest_bytes(mem), head@.descriptors, Seq::empty()) {
            ChainRead::Command(bytes) => res matches Ok(command) && command@ == bytes,
            ChainRead::TooLong(size) => res matches Err(TpmError::CommandTooLong { size: s })
                && s == reported(size),
            ChainRead::Fault => res matches Err(TpmError::GuestMemory(_)),
        },
        res matches Ok(command) ==> command@.len() <= TPM_BUFSIZE,
{
    let ghost bytes = guest_bytes(mem);
    let ghost descs = head@.descriptors;
    let mut read_bytes: usize = 0;
    let mut buf: Vec<u8> = vec![0u8; TPM_BUFSIZE];
    let mut i: usize = 0;
    assert(descs.skip(0) =~= descs);
    assert(buf@.take(0) =~= Seq::<u8>::empty());
    while i < head.descriptors.len()
        invariant
            bytes == guest_bytes(mem),
            descs == head@.descriptors,
            i <= descs.len(),
            buf@.len() == TPM_BUFSIZE,
            read_bytes <= TPM_BUFSIZE,
            read_chain(bytes, descs, Seq::empty()) == read_chain(
                bytes,
                descs.skip(i as int),
                buf@.take(read_bytes as int),
            ),
        decreases descs.len() - i,
    {
        let descriptor = head.descriptors[i];
        assert(descs.skip(i as int)[0] == descriptor);
        assert(descs.skip(i as int).skip(1) =~= descs.skip(i + 1));
        if !descriptor.write_only {
            let len = descriptor.len as usize;
            if len > buf.len() - read_bytes {
                // descriptor contains too much data
                return Err(TpmError::CommandTooLong { size: read_bytes.saturating_add(len) });
            }
            let ghost before = buf@;
            match read_slice(mem, &mut buf, read_bytes, read_bytes + len, descriptor.addr) {
                Ok(()) => {
                    assert(buf@.take(read_bytes + len) =~= before.take(read_bytes as int)
                        + bytes_at(bytes, descriptor.addr, len as nat));
                    read_bytes += len;
                },
                Err(err) => {
                    return Err(TpmError::GuestMemory(err));
                },
            }
        }
        i += 1;
    }
    buf.truncate(read_bytes);
    Ok(buf)
}

/// Writes the response `data` into the chain `head`.
///
/// The response goes into the chain's write-only descriptors, in chain
/// order, each taking as much as it holds. The write succeeds as soon as all
/// of `data` is stored. Where the chain ends first, it fails with
/// `ResponseTooLong` and the number of bytes left over; where guest memory
/// does not map a region, it fails with `GuestMemory`. What was stored before
/// a failure stays stored.
pub fn write_to_descriptor_chain(
    mem: &mut GuestMemoryMmap,
    data: &[u8],
    head: &DescriptorChain,
) -> (res: Result<(), TpmError>)
    ensures
        guest_bytes(final(mem)).dom() == guest_bytes(old(mem)).dom(),
        write_chain(guest_bytes(old(mem)), data@, head@.descriptors).leaves(
            guest_bytes(final(mem)),
        ),
        match write_chain(guest_bytes(old(mem)), data@, head@.descriptors).outcome {
            WriteOutcome::Done => res is Ok,
            WriteOutcome::TooLong(size) => res matches Err(TpmError::ResponseTooLong { size: s })
                && s == size,
            WriteOutcome::Fault { .. } => res matches Err(TpmError::GuestMemory(_)),
        },
{
    let ghost start = guest_bytes(mem);
    let ghost descs = head@.descriptors;
    let mut offset: usize = 0;
    let mut i: usize = 0;
    assert(descs.skip(0) =~= descs);
    assert(data@.skip(0) =~= data@);
    while i < head.descriptors.len()
        invariant
            start == guest_bytes(old(mem)),
            descs == head@.descriptors,
            i <= descs.len(),
            offset <= data@.len(),
            guest_bytes(mem).dom() == start.dom(),
            write_chain(start, data@, descs) == write_chain(
                guest_bytes(mem),
                data@.skip(offset as int),
                descs.skip(i as int),
            ),
        decreases descs.len() - i,
    {
        let descriptor = head.descriptors[i];
        assert(descs.skip(i as int)[0] == descriptor);
        assert(descs.skip(i as int).skip(1) =~= descs.skip(i + 1));
        if descriptor.write_only {
            let left = data.len() - offset;
            let room = descriptor.len as usize;
            let len = if left < room {
                left
            } else {
                room
            };
            assert(data@.skip(offset as int).take(len as int) =~= data@.subrange(
                offset as int,
                offset + len,
            ));
            assert(data@.skip(offset as int).skip(len as int) =~= data@.skip(offset + len));
            match write_slice(mem, slice_subrange(data, offset, offset + len), descriptor.addr) {
                Ok(()) => {
                    offset += len;
                },
                Err(err) => {
                    return Err(TpmError::GuestMemory(err));
                },
            }
            if offset == data.len() {
                return Ok(());
            }
        }
        i += 1;
    }
    Err(TpmError::ResponseTooLong { size: data.len() - offset })
}

} // verus!
