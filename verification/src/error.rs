//! Errors that the device reports.

use vstd::prelude::*;
use vm_memory::GuestMemoryError;

verus! {

/// `std::io::Error`: why the operating system refused a resource. Proofs
/// see nothing of it.
#[verifier::external_type_specification]
#[verifier::external_body]
pub struct ExIoError(std::io::Error);

/// What can go wrong while the device is set up or relays one exchange.
#[derive(Debug)]
pub enum TpmError {
    /// The guest's response buffer holds `size` bytes where `required` are needed.
    BufferTooSmall { size: usize, required: usize },
    /// A command of `size` bytes exceeds what the device relays.
    CommandTooLong { size: usize },
    /// A queue or activation notification could not be allocated.
    EventFd(std::io::Error),
    /// The interrupt resource could not be allocated.
    IrqTrigger(std::io::Error),
    /// A response is too long: `size` bytes exceed what the device relays,
    /// or `size` bytes found no room in the guest's buffers.
    ResponseTooLong { size: usize },
    /// Guest memory refused an access.
    GuestMemory(GuestMemoryError),
}

/// Why the device could not be activated.
#[derive(Clone, Copy, Debug, PartialEq, Eq, Structural)]
pub enum ActivateError {
    /// The device was not in a state to be activated.
    BadActivate,
}

/// Why the queue refused an operation.
#[derive(Clone, Copy, Debug, PartialEq, Eq, Structural)]
pub enum QueueError {
    /// A descriptor index does not fit the queue.
    DescIndexOutOfBounds(u16),
    /// The queue holds as many available chains as it is deep.
    Full,
}

} // verus!
