//! What the host-side backends share: how an exchange with the TPM becomes
//! the response that the device relays.

use vstd::prelude::*;
use crate::TPM_BUFSIZE;

verus! {

/// Why a character-device TPM could not serve.
#[derive(Debug)]
pub enum CharDevTpmError {
    /// An exchange with the device failed.
    ExecError,
    /// The device could not be opened for reading and writing.
    InitError(std::io::Error),
}

/// The response that a backend hands to the device for the outcome of one
/// exchange with the TPM: what the TPM answered, or nothing where the
/// exchange failed. A failed exchange never takes the device down.
pub fn response_or_empty<E>(outcome: Result<Vec<u8>, E>) -> (response: Vec<u8>)
    ensures
        response@ == match outcome {
            Ok(answer) => answer@,
            Err(_) => Seq::empty(),
        },
{
    match outcome {
        Ok(answer) => answer,
        Err(_) => Vec::new(),
    }
}

/// A request as the in-process emulator takes it: a buffer of
/// `TPM_BUFSIZE` bytes that starts with the command, and the length of the
/// command. The emulator leaves its response at the start of the buffer.
pub struct BackendCmd {
    pub buffer: Vec<u8>,
    pub input_len: usize,
}

/// The request that carries `command` to the emulator: the command, padded
/// with zeros to `TPM_BUFSIZE` bytes.
pub fn emulator_request(command: &[u8]) -> (request: BackendCmd)
    requires
        command@.len() <= TPM_BUFSIZE,
    ensures
        request.input_len == command@.len(),
        request.buffer@ == command@ + Seq::new(
            (TPM_BUFSIZE - command@.len()) as nat,
            |i: int| 0u8,
        ),
{
    let mut buffer: Vec<u8> = Vec::new();
    buffer.extend_from_slice(command);
    assert(buffer@ =~= command@);
    let mut i: usize = command.len();
    while i < TPM_BUFSIZE
        invariant
            command@.len() <= i <= TPM_BUFSIZE,
            buffer@ == command@ + Seq::new((i - command@.len()) as nat, |k: int| 0u8),
        decreases TPM_BUFSIZE - i,
    {
        buffer.push(0u8);
        i += 1;
        assert(buffer@ =~= command@ + Seq::new((i - command@.len()) as nat, |k: int| 0u8));
    }
    BackendCmd { buffer, input_len: command.len() }
}

/// The response that the emulator left in `request`. `delivered` is what
/// the emulator reported: the length of its response, or nothing where it
/// failed, which makes the response empty.
pub fn emulator_response(request: &BackendCmd, delivered: Option<usize>) -> (response: Vec<u8>)
    requires
        delivered matches Some(size) ==> size <= request.buffer@.len(),
    ensures
        response@ == match delivered {
            Some(size) => request.buffer@.take(size as int),
            None => Seq::empty(),
        },
{
    match delivered {
        Some(size) => {
            let mut response: Vec<u8> = Vec::new();
            response.extend_from_slice(vstd::slice::slice_subrange(
                request.buffer.as_slice(),
                0,
                size,
            ));
            assert(response@ =~= request.buffer@.take(size as int));
            response
        },
        None => Vec::new(),
    }
}

} // verus!
