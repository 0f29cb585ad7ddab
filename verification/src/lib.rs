//! A para-virtualized TPM device: the virtqueue engine that relays opaque
//! command and response bytes between a guest driver and a host-side backend.
//!
//! The guest puts a chain of two descriptors into the device's queue: a
//! readable one with a command, and a write-only one for the response. The
//! engine in [`device`] takes the chain, reads the command out of guest
//! memory ([`chain_io`]), hands it to the backend, writes the response back
//! and marks the chain used. Every length, direction and address in a chain
//! is the guest's word and is treated as such: a chain that cannot be served
//! is passed over, and never stops the device.
//!
//! The library decides and computes; it performs no input or output but on
//! guest memory ([`mem`]). Whoever embeds it raises the notifications and
//! the interrupt, runs the reactor ([`event_handler`]) and talks to the TPM
//! ([`backend`], [`socket`]).
//!
//! What the engine promises is stated in the contracts of its functions,
//! and, where a promise spans more than one of them, in [`guarantees`].

use vstd::prelude::*;

pub use crate::device::Tpm;
pub use crate::device::TpmBackend;
pub use crate::error::TpmError;

pub mod backend;
pub mod chain_io;
pub mod config;
pub mod device;
pub mod error;
pub mod event_handler;
pub mod guarantees;
pub mod mem;
pub mod queue;
pub mod queue_utils;
pub mod socket;
pub mod tpm_tis;

verus! {

/// Largest command or response, in bytes, that the device relays.
pub const TPM_BUFSIZE: usize = 4096;

/// Identifier under which the device is known to the rest of the machine.
pub const TPM_DEV_ID: &'static str = "vtpm";

} // verus!
