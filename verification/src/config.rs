//! How a TPM device is asked for, and what can keep it from being built.

use vstd::prelude::*;
use vstd::std_specs::convert::FromSpecImpl;
use crate::backend::CharDevTpmError;
use crate::error::TpmError;

verus! {

/// The configuration of a TPM device.
#[derive(Debug, PartialEq, Eq)]
pub struct TpmDeviceConfig {
    /// Path to the socket to be used.
    pub socket: String,
}

impl Clone for TpmDeviceConfig {
    fn clone(&self) -> (config: TpmDeviceConfig)
        ensures
            config == *self,
    {
        TpmDeviceConfig { socket: self.socket.clone() }
    }
}

/// Why a configured TPM device could not be built.
#[derive(Debug)]
pub enum TpmConfigError {
    /// The virtio device could not be created.
    CreateTpmVirtioDevice(TpmError),
    /// The backend could not be created.
    CreateTpmDevice(CharDevTpmError),
    /// The configuration names no path.
    ParseTpmPathMissing,
}

impl From<TpmError> for TpmConfigError {
    fn from(err: TpmError) -> (res: TpmConfigError) {
        TpmConfigError::CreateTpmVirtioDevice(err)
    }
}

impl FromSpecImpl<TpmError> for TpmConfigError {
    open spec fn obeys_from_spec() -> bool {
        true
    }

    open spec fn from_spec(err: TpmError) -> TpmConfigError {
        TpmConfigError::CreateTpmVirtioDevice(err)
    }
}

impl From<CharDevTpmError> for TpmConfigError {
    fn from(err: CharDevTpmError) -> (res: TpmConfigError) {
        TpmConfigError::CreateTpmDevice(err)
    }
}

impl FromSpecImpl<CharDevTpmError> for TpmConfigError {
    open spec fn obeys_from_spec() -> bool {
        true
    }

    open spec fn from_spec(err: CharDevTpmError) -> TpmConfigError {
        TpmConfigError::CreateTpmDevice(err)
    }
}

} // verus!
