//! The register interface of a TPM (TIS). Only its frame is here: the
//! device holds its emulator and answers no register access yet.

use vstd::prelude::*;

verus! {

/// Each locality owns one page of the register space.
pub const TPM_TIS_LOCALITY_SHIFT: u32 = 12;

/// The locality that the register address `addr` belongs to: the page
/// number of the address, of which the lowest three bits count.
pub fn tpm_tis_locality_from_addr(addr: u64) -> (locality: u8)
    ensures
        locality == (addr / 4096) % 8,
        locality == (addr >> TPM_TIS_LOCALITY_SHIFT) & 0x7,
{
    assert((addr >> 12u32) & 0x7 == (addr / 4096) % 8) by (bit_vector);
    assert((addr >> 12u32) & 0x7 <= 7) by (bit_vector);
    ((addr >> TPM_TIS_LOCALITY_SHIFT) & 0x7) as u8
}

/// Why the register interface could not be set up.
#[derive(Debug)]
pub enum TpmTisError {
    /// The emulator lacks a capability that the interface needs.
    TpmEmulatorError(String),
    /// The TPM could not be initialised.
    TpmInitError(String),
}

/// Where a command stands on the register interface.
#[derive(Clone, Copy, Debug, PartialEq, Eq, Structural)]
pub enum TpmTisState {
    Idle,
    Ready,
    Completion,
    Execution,
    Reception,
}

/// A TPM behind the register interface, served by the emulator `E`.
pub struct TpmTis<E> {
    pub emulator: E,
}

impl<E> TpmTis<E> {
    /// The interface on top of `emulator`.
    pub fn new(emulator: E) -> (res: Result<TpmTis<E>, TpmTisError>)
        ensures
            res matches Ok(tis) && tis.emulator == emulator,
    {
        let tpmtis = TpmTis { emulator };
        Ok(tpmtis)
    }

    /// A register read: no register answers, `data` stays as it is.
    pub fn read(&mut self, offset: u64, data: &mut [u8])
        ensures
            final(data)@ == old(data)@,
            final(self).emulator == old(self).emulator,
    {
    }

    /// A register write: no register takes it, the device stays as it is.
    pub fn write(&mut self, offset: u64, data: &[u8])
        ensures
            final(self).emulator == old(self).emulator,
    {
    }
}

} // verus!
