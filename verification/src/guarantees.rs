//! What the engine guarantees to the guest and to the backend, whatever the
//! guest puts into its chains.

use vstd::prelude::*;
use crate::chain_io::chunk_len;
use crate::chain_io::read_chain;
use crate::chain_io::write_chain;
use crate::chain_io::ChainRead;
use crate::chain_io::WriteOutcome;
use crate::device::chain_command;
use crate::device::chain_step;
use crate::device::drains;
use crate::device::response_handled;
use crate::device::Engine;
use crate::device::GuestView;
use crate::mem::bytes_at;
use crate::mem::range_mapped;
use crate::mem::stored;
use crate::queue::ChainView;
use crate::queue::Descriptor;
use crate::queue::UsedElement;
use crate::TPM_BUFSIZE;

verus! {

/// A chain as the driver is meant to build it: a readable descriptor for
/// the command, followed by a write-only descriptor for the response.
pub open spec fn command_then_response(chain: ChainView) -> bool {
    &&& chain.descriptors.len() == 2
    &&& !chain.descriptors[0].write_only
    &&& chain.descriptors[1].write_only
}

/// Whether `a` lies in a region that a write-only descriptor of `descs`
/// names.
pub open spec fn in_write_region(descs: Seq<Descriptor>, a: u64) -> bool {
    exists|i: int|
        0 <= i < descs.len() && (#[trigger] descs[i]).write_only && descs[i].addr <= a
            < descs[i].addr + descs[i].len
}

/// The number of bytes that the write-only descriptors of `descs` hold
/// together.
pub open spec fn write_capacity(descs: Seq<Descriptor>) -> nat
    decreases descs.len(),
{
    if descs.len() == 0 {
        0
    } else if descs[0].write_only {
        descs[0].len as nat + write_capacity(descs.skip(1))
    } else {
        write_capacity(descs.skip(1))
    }
}

/// The number of bytes that the readable descriptors of `descs` name
/// together.
pub open spec fn readable_len(descs: Seq<Descriptor>) -> nat
    decreases descs.len(),
{
    if descs.len() == 0 {
        0
    } else if descs[0].write_only {
        readable_len(descs.skip(1))
    } else {
        descs[0].len as nat + readable_len(descs.skip(1))
    }
}

/// A command that was read holds one byte for each byte that the chain's
/// readable descriptors name, and never more than `TPM_BUFSIZE`. A read
/// that ends as too long would have gone beyond `TPM_BUFSIZE`.
pub proof fn lemma_command_length(bytes: Map<u64, u8>, descs: Seq<Descriptor>, acc: Seq<u8>)
    requires
        acc.len() <= TPM_BUFSIZE,
    ensures
        match read_chain(bytes, descs, acc) {
            ChainRead::Command(command) => command.len() == acc.len() + readable_len(descs)
                && command.len() <= TPM_BUFSIZE,
            ChainRead::TooLong(size) => size > TPM_BUFSIZE && size <= acc.len() + readable_len(
                descs,
            ),
            ChainRead::Fault => true,
        },
    decreases descs.len(),
{
    if descs.len() > 0 {
        if descs[0].write_only {
            lemma_command_length(bytes, descs.skip(1), acc);
        } else if acc.len() + descs[0].len <= TPM_BUFSIZE && range_mapped(
            bytes,
            descs[0].addr,
            descs[0].len as nat,
        ) {
            lemma_command_length(
                bytes,
                descs.skip(1),
                acc + bytes_at(bytes, descs[0].addr, descs[0].len as nat),
            );
        }
    }
}

/// No command of more than `TPM_BUFSIZE` bytes reaches the backend: a
/// chain whose readable descriptors name more than that is passed over.
pub proof fn lemma_overlong_command_ignored(
    before: Engine,
    max_size: u16,
    chain: ChainView,
    after: Engine,
)
    requires
        readable_len(chain.descriptors) > TPM_BUFSIZE,
        chain_step(before, max_size, chain, after),
    ensures
        chain_command(before.memory, chain) is None,
        after == before,
{
    lemma_command_length(before.memory, chain.descriptors, Seq::empty());
}

/// A readable descriptor followed by a write-only one yields the content of
/// the readable region as the command, provided the region is mapped and
/// holds no more than `TPM_BUFSIZE` bytes.
pub proof fn lemma_read_command(bytes: Map<u64, u8>, chain: ChainView)
    requires
        command_then_response(chain),
        chain.descriptors[0].len <= TPM_BUFSIZE,
        range_mapped(bytes, chain.descriptors[0].addr, chain.descriptors[0].len as nat),
    ensures
        read_chain(bytes, chain.descriptors, Seq::empty()) == ChainRead::Command(
            bytes_at(bytes, chain.descriptors[0].addr, chain.descriptors[0].len as nat),
        ),
        chain_command(bytes, chain) == Some(
            bytes_at(bytes, chain.descriptors[0].addr, chain.descriptors[0].len as nat),
        ),
{
    let descs = chain.descriptors;
    let command = bytes_at(bytes, descs[0].addr, descs[0].len as nat);
    reveal_with_fuel(read_chain, 3);
    assert(descs.skip(1)[0] == descs[1]);
    assert(descs.skip(1).skip(1).len() == 0);
    assert(Seq::<u8>::empty() + command =~= command);
}

/// Every command of at most `TPM_BUFSIZE` bytes that sits in a well-formed
/// chain reaches the backend: the step calls the backend exactly once, and
/// hands it exactly the bytes of the command region.
pub proof fn lemma_command_reaches_backend(
    before: Engine,
    max_size: u16,
    chain: ChainView,
    after: Engine,
)
    requires
        command_then_response(chain),
        chain.descriptors[0].len <= TPM_BUFSIZE,
        range_mapped(before.memory, chain.descriptors[0].addr, chain.descriptors[0].len as nat),
        chain_step(before, max_size, chain, after),
    ensures
        after.exchanges.len() == before.exchanges.len() + 1,
        after.exchanges.drop_last() == before.exchanges,
        after.exchanges.last().command == bytes_at(
            before.memory,
            chain.descriptors[0].addr,
            chain.descriptors[0].len as nat,
        ),
{
    lemma_read_command(before.memory, chain);
}

/// Every response of at most `TPM_BUFSIZE` bytes that fits the response
/// region of a well-formed chain reaches the guest: afterwards the region
/// starts with exactly the response, and the chain is marked used with the
/// length of the response.
pub proof fn lemma_response_reaches_guest(
    before: GuestView,
    max_size: u16,
    chain: ChainView,
    response: Seq<u8>,
    after: GuestView,
)
    requires
        command_then_response(chain),
        chain.index < max_size,
        response.len() <= TPM_BUFSIZE,
        response.len() <= chain.descriptors[1].len,
        range_mapped(before.memory, chain.descriptors[1].addr, response.len()),
        response_handled(before, max_size, chain, response, after),
    ensures
        bytes_at(after.memory, chain.descriptors[1].addr, response.len()) == response,
        after.memory == stored(before.memory, chain.descriptors[1].addr, response),
        after.used == before.used.push(
            UsedElement { id: chain.index, len: response.len() as u32 },
        ),
{
    let descs = chain.descriptors;
    reveal_with_fuel(write_chain, 3);
    assert(descs.skip(1)[0] == descs[1]);
    assert(chunk_len(response.len(), descs[1]) == response.len());
    assert(response.take(response.len() as int) =~= response);
    assert(bytes_at(after.memory, descs[1].addr, response.len()) =~= response);
}

/// A chain of a single descriptor is passed over: the backend is not
/// called, nothing is marked used, and guest memory stays as it is.
pub proof fn lemma_single_descriptor_ignored(
    before: Engine,
    max_size: u16,
    chain: ChainView,
    after: Engine,
)
    requires
        chain.descriptors.len() <= 1,
        chain_step(before, max_size, chain, after),
    ensures
        after == before,
{
}

/// A chain whose head advertises more than `TPM_BUFSIZE` bytes is passed
/// over: the backend is not called.
pub proof fn lemma_oversized_chain_ignored(
    before: Engine,
    max_size: u16,
    chain: ChainView,
    after: Engine,
)
    requires
        chain.head_len() > TPM_BUFSIZE,
        chain_step(before, max_size, chain, after),
    ensures
        after == before,
{
}

/// A response of more than `TPM_BUFSIZE` bytes is dropped whole: no byte of
/// guest memory changes, and the chain is not marked used.
pub proof fn lemma_oversized_response_dropped(
    before: GuestView,
    max_size: u16,
    chain: ChainView,
    response: Seq<u8>,
    after: GuestView,
)
    requires
        response.len() > TPM_BUFSIZE,
        response_handled(before, max_size, chain, response, after),
    ensures
        after.memory == before.memory,
        after.used == before.used,
{
}

/// Writing into a chain keeps the set of mapped addresses and changes no
/// byte outside the regions of the chain's write-only descriptors.
pub proof fn lemma_write_stays_in_write_regions(
    bytes: Map<u64, u8>,
    data: Seq<u8>,
    descs: Seq<Descriptor>,
)
    ensures
        write_chain(bytes, data, descs).bytes.dom() == bytes.dom(),
        forall|a: u64|
            bytes.dom().contains(a) && !in_write_region(descs, a) ==> write_chain(
                bytes,
                data,
                descs,
            ).bytes[a] == bytes[a],
        write_chain(bytes, data, descs).outcome matches WriteOutcome::Fault { addr, len }
            ==> forall|a: u64| addr <= a < addr + len ==> in_write_region(descs, a),
    decreases descs.len(),
{
    if descs.len() > 0 {
        let rest = descs.skip(1);
        assert forall|a: u64| in_write_region(rest, a) implies in_write_region(descs, a) by {
            let i = choose|i: int|
                0 <= i < rest.len() && (#[trigger] rest[i]).write_only && rest[i].addr <= a
                    < rest[i].addr + rest[i].len;
            assert(descs[i + 1] == rest[i]);
        }
        if !descs[0].write_only {
            lemma_write_stays_in_write_regions(bytes, data, rest);
        } else {
            let n = chunk_len(data.len(), descs[0]);
            assert forall|a: u64| descs[0].addr <= a < descs[0].addr + n implies in_write_region(
                descs,
                a,
            ) by {
                assert(descs[0].write_only);
            }
            if range_mapped(bytes, descs[0].addr, n) {
                let after = stored(bytes, descs[0].addr, data.take(n as int));
                assert(after.dom() =~= bytes.dom());
                if n != data.len() {
                    lemma_write_stays_in_write_regions(after, data.skip(n as int), rest);
                }
            }
        }
    }
}

/// A response that is longer than the chain's write-only descriptors hold
/// together is never stored in full: the write does not end well.
pub proof fn lemma_write_needs_capacity(bytes: Map<u64, u8>, data: Seq<u8>, descs: Seq<Descriptor>)
    requires
        write_capacity(descs) < data.len(),
    ensures
        !(write_chain(bytes, data, descs).outcome is Done),
    decreases descs.len(),
{
    if descs.len() > 0 {
        let rest = descs.skip(1);
        if !descs[0].write_only {
            lemma_write_needs_capacity(bytes, data, rest);
        } else {
            let n = chunk_len(data.len(), descs[0]);
            if range_mapped(bytes, descs[0].addr, n) && n != data.len() {
                lemma_write_needs_capacity(
                    stored(bytes, descs[0].addr, data.take(n as int)),
                    data.skip(n as int),
                    rest,
                );
            }
        }
    }
}

/// Whether guest memory maps the whole region of every write-only
/// descriptor of `descs`.
pub open spec fn write_regions_mapped(bytes: Map<u64, u8>, descs: Seq<Descriptor>) -> bool {
    forall|i: int|
        0 <= i < descs.len() && (#[trigger] descs[i]).write_only ==> range_mapped(
            bytes,
            descs[i].addr,
            descs[i].len as nat,
        )
}

/// Whether `descs` holds a write-only descriptor.
pub open spec fn has_write_only(descs: Seq<Descriptor>) -> bool {
    exists|i: int| 0 <= i < descs.len() && (#[trigger] descs[i]).write_only
}

/// Whether guest memory maps the whole region of every readable descriptor
/// of `descs`.
pub open spec fn readable_regions_mapped(bytes: Map<u64, u8>, descs: Seq<Descriptor>) -> bool {
    forall|i: int|
        0 <= i < descs.len() && !(#[trigger] descs[i]).write_only ==> range_mapped(
            bytes,
            descs[i].addr,
            descs[i].len as nat,
        )
}

/// A command is read whenever it can be: the chain's readable descriptors
/// name no more than what is left of `TPM_BUFSIZE`, and guest memory maps
/// their regions.
pub proof fn lemma_read_succeeds_when_it_fits(
    bytes: Map<u64, u8>,
    descs: Seq<Descriptor>,
    acc: Seq<u8>,
)
    requires
        acc.len() + readable_len(descs) <= TPM_BUFSIZE,
        readable_regions_mapped(bytes, descs),
    ensures
        read_chain(bytes, descs, acc) is Command,
    decreases descs.len(),
{
    if descs.len() > 0 {
        let rest = descs.skip(1);
        assert forall|i: int| 0 <= i < rest.len() && !(#[trigger] rest[i]).write_only implies range_mapped(
            bytes,
            rest[i].addr,
            rest[i].len as nat,
        ) by {
            assert(descs[i + 1] == rest[i]);
        }
        if descs[0].write_only {
            lemma_read_succeeds_when_it_fits(bytes, rest, acc);
        } else {
            assert(!descs[0].write_only);
            lemma_read_succeeds_when_it_fits(
                bytes,
                rest,
                acc + bytes_at(bytes, descs[0].addr, descs[0].len as nat),
            );
        }
    }
}

/// A chain with room has a write-only descriptor.
pub proof fn lemma_capacity_needs_write_only(descs: Seq<Descriptor>)
    requires
        write_capacity(descs) > 0,
    ensures
        has_write_only(descs),
    decreases descs.len(),
{
    if descs.len() > 0 {
        if descs[0].write_only {
            assert(descs[0].write_only);
        } else {
            let rest = descs.skip(1);
            lemma_capacity_needs_write_only(rest);
            let i = choose|i: int| 0 <= i < rest.len() && (#[trigger] rest[i]).write_only;
            assert(descs[i + 1] == rest[i]);
        }
    }
}

/// A response is stored whenever it can be: the chain has a write-only
/// descriptor, its write-only descriptors hold the response together, and
/// guest memory maps their regions.
pub proof fn lemma_write_succeeds_when_it_fits(
    bytes: Map<u64, u8>,
    data: Seq<u8>,
    descs: Seq<Descriptor>,
)
    requires
        has_write_only(descs),
        data.len() <= write_capacity(descs),
        write_regions_mapped(bytes, descs),
    ensures
        write_chain(bytes, data, descs).outcome is Done,
    decreases descs.len(),
{
    let rest = descs.skip(1);
    assert forall|i: int| 0 <= i < rest.len() implies descs[i + 1] == #[trigger] rest[i] by {}
    if !descs[0].write_only {
        let i = choose|i: int| 0 <= i < descs.len() && (#[trigger] descs[i]).write_only;
        assert(rest[i - 1] == descs[i]);
        lemma_write_succeeds_when_it_fits(bytes, data, rest);
    } else {
        let n = chunk_len(data.len(), descs[0]);
        assert(descs[0].write_only);
        assert(range_mapped(bytes, descs[0].addr, n));
        if n != data.len() {
            let after = stored(bytes, descs[0].addr, data.take(n as int));
            assert(after.dom() =~= bytes.dom());
            lemma_capacity_needs_write_only(rest);
            lemma_write_succeeds_when_it_fits(after, data.skip(n as int), rest);
        }
    }
}

/// A response that does not fit the chain's write-only descriptors fails
/// the write: the chain is not marked used, and no byte changes outside the
/// regions that those descriptors name.
pub proof fn lemma_overlong_response_not_completed(
    before: GuestView,
    max_size: u16,
    chain: ChainView,
    response: Seq<u8>,
    after: GuestView,
)
    requires
        write_capacity(chain.descriptors) < response.len(),
        response_handled(before, max_size, chain, response, after),
    ensures
        !(write_chain(before.memory, response, chain.descriptors).outcome is Done),
        after.used == before.used,
        after.memory.dom() == before.memory.dom(),
        forall|a: u64|
            before.memory.dom().contains(a) && !in_write_region(chain.descriptors, a)
                ==> after.memory[a] == before.memory[a],
{
    lemma_write_needs_capacity(before.memory, response, chain.descriptors);
    lemma_write_stays_in_write_regions(before.memory, response, chain.descriptors);
}

/// Whatever the response, handling it changes no byte outside the regions
/// of the chain's write-only descriptors, and takes no used entry away.
pub proof fn lemma_response_stays_in_write_regions(
    before: GuestView,
    max_size: u16,
    chain: ChainView,
    response: Seq<u8>,
    after: GuestView,
)
    requires
        response_handled(before, max_size, chain, response, after),
    ensures
        after.memory.dom() == before.memory.dom(),
        forall|a: u64|
            before.memory.dom().contains(a) && !in_write_region(chain.descriptors, a)
                ==> after.memory[a] == before.memory[a],
        after.used == before.used || after.used == before.used.push(
            UsedElement { id: chain.index, len: response.len() as u32 },
        ),
{
    lemma_write_stays_in_write_regions(before.memory, response, chain.descriptors);
}

/// A drain pass over no chain at all changes nothing.
pub proof fn lemma_empty_drain(before: Engine, max_size: u16, after: Engine)
    requires
        drains(before, max_size, Seq::empty(), after),
    ensures
        after == before,
{
}

/// A drain pass over a single chain is one step of the engine.
pub proof fn lemma_drain_one(before: Engine, max_size: u16, chain: ChainView, after: Engine)
    ensures
        drains(before, max_size, seq![chain], after) <==> chain_step(
            before,
            max_size,
            chain,
            after,
        ),
{
    let chains = seq![chain];
    assert(chains.drop_last() =~= Seq::<ChainView>::empty());
    assert(chains.last() == chain);
    reveal_with_fuel(drains, 2);
    if chain_step(before, max_size, chain, after) {
        assert(drains(before, max_size, chains.drop_last(), before));
    }
}

/// One well-formed exchange from end to end. Where the queue holds a single
/// well-formed chain with a command of at most `TPM_BUFSIZE` bytes, a drain
/// pass calls the backend exactly once, with exactly the command. Where the
/// response then holds at most `TPM_BUFSIZE` bytes and fits the response
/// region, the pass stores exactly the response there, touches no other
/// byte, and marks the chain used with the length of the response.
pub proof fn lemma_exchange(before: Engine, max_size: u16, chain: ChainView, after: Engine)
    requires
        command_then_response(chain),
        chain.index < max_size,
        chain.descriptors[0].len <= TPM_BUFSIZE,
        range_mapped(before.memory, chain.descriptors[0].addr, chain.descriptors[0].len as nat),
        drains(before, max_size, seq![chain], after),
    ensures
        after.exchanges.len() == before.exchanges.len() + 1,
        after.exchanges.drop_last() == before.exchanges,
        after.exchanges.last().command == bytes_at(
            before.memory,
            chain.descriptors[0].addr,
            chain.descriptors[0].len as nat,
        ),
        ({
            let response = after.exchanges.last().response;
            response.len() <= TPM_BUFSIZE && response.len() <= chain.descriptors[1].len
                && range_mapped(before.memory, chain.descriptors[1].addr, response.len()) ==> {
                &&& after.memory == stored(before.memory, chain.descriptors[1].addr, response)
                &&& bytes_at(after.memory, chain.descriptors[1].addr, response.len())
                    == response
                &&& after.used == before.used.push(
                    UsedElement { id: chain.index, len: response.len() as u32 },
                )
            }
        }),
{
    lemma_drain_one(before, max_size, chain, after);
    lemma_command_reaches_backend(before, max_size, chain, after);
    let response = after.exchanges.last().response;
    if response.len() <= TPM_BUFSIZE && response.len() <= chain.descriptors[1].len && range_mapped(
        before.memory,
        chain.descriptors[1].addr,
        response.len(),
    ) {
        lemma_read_command(before.memory, chain);
        lemma_response_reaches_guest(
            before.guest(),
            max_size,
            chain,
            response,
            after.guest(),
        );
    }
}

/// A drain pass only adds: the used entries and the backend calls from
/// before the pass are still there, in order, and each chain accounts for
/// at most one new used entry and at most one new backend call.
pub proof fn lemma_drain_only_adds(
    before: Engine,
    max_size: u16,
    chains: Seq<ChainView>,
    after: Engine,
)
    requires
        drains(before, max_size, chains, after),
    ensures
        after.memory.dom() == before.memory.dom(),
        before.used.is_prefix_of(after.used),
        before.exchanges.is_prefix_of(after.exchanges),
        after.used.len() - before.used.len() <= chains.len(),
        after.exchanges.len() - before.exchanges.len() <= chains.len(),
    decreases chains.len(),
{
    if chains.len() > 0 {
        let mid = choose|mid: Engine|
            drains(before, max_size, chains.drop_last(), mid) && #[trigger] chain_step(
                mid,
                max_size,
                chains.last(),
                after,
            );
        lemma_drain_only_adds(before, max_size, chains.drop_last(), mid);
        if chain_command(mid.memory, chains.last()) is Some {
            assert(mid.exchanges.is_prefix_of(after.exchanges)) by {
                assert(after.exchanges.drop_last() == mid.exchanges);
            }
        }
    }
}

} // verus!
