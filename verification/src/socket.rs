//! The socket backend's connection: which state it is in, and what becomes
//! of each connect, send and receive on its control socket.
//!
//! The socket itself is the caller's. The caller asks before it sends or
//! receives, performs the call, and reports how it went.

use vstd::prelude::*;

verus! {

/// Message of a send on a connection that is not up.
pub const NOT_CONNECTED: &'static str = "TPM Socket was not in Connected State";

/// Message of a receive on a connection that never came up.
pub const NOT_INITIALIZED: &'static str = "Stream for tpm socket was not initialized";

/// What went wrong on the control socket, with the reason in words.
#[derive(Debug)]
pub enum TpmSocketError {
    ConnectToSocket(String),
    ReadFromSocket(String),
    WriteToSocket(String),
}

/// Where the connection stands.
#[derive(Clone, Copy, Debug, PartialEq, Eq, Structural)]
pub enum SocketDevState {
    Disconnected,
    Connecting,
    Connected,
}

/// What a connection is: its state, the descriptor of its stream once one
/// was opened, the descriptor that the next send forwards to the peer, and
/// the descriptors of the data and the control channel.
pub struct SocketDevView {
    pub state: SocketDevState,
    pub stream: Option<i32>,
    pub write_msgfd: i32,
    pub data_fd: i32,
    pub control_fd: i32,
}

/// The connection to a TPM emulator's control socket.
pub struct SocketDev {
    state: SocketDevState,
    stream: Option<i32>,
    // descriptor sent to the emulator for the data channel
    write_msgfd: i32,
    // data channel
    data_fd: i32,
    // control channel
    control_fd: i32,
}

impl View for SocketDev {
    type V = SocketDevView;

    closed spec fn view(&self) -> SocketDevView {
        SocketDevView {
            state: self.state,
            stream: self.stream,
            write_msgfd: self.write_msgfd,
            data_fd: self.data_fd,
            control_fd: self.control_fd,
        }
    }
}

impl SocketDevView {
    /// Whether a send may go out: a stream is there and the connection is up.
    pub open spec fn can_send(self) -> bool {
        self.stream is Some && self.state == SocketDevState::Connected
    }

    /// The connection after a send that was allowed and stored `sent` bytes:
    /// once a send got bytes through, the descriptor to forward is spent.
    pub open spec fn after_send(self, sent: usize) -> SocketDevView {
        if sent > 0 && self.write_msgfd != 0 {
            SocketDevView { write_msgfd: 0, ..self }
        } else {
            self
        }
    }
}

/// A connection whose stream was never opened allows no send.
pub proof fn lemma_no_send_without_stream(dev: SocketDevView)
    requires
        dev.stream is None,
    ensures
        !dev.can_send(),
{
}

/// The descriptor is forwarded once: the first send that gets bytes through
/// spends it, the connection stays up, and no later send, however it goes,
/// forwards a descriptor or changes the connection again.
pub proof fn lemma_descriptor_forwarded_once(dev: SocketDevView, first: usize, later: usize)
    requires
        dev.can_send(),
        first > 0,
    ensures
        dev.after_send(first).can_send(),
        dev.after_send(first).write_msgfd == 0,
        dev.after_send(first).after_send(later) == dev.after_send(first),
{
}

impl Default for SocketDev {
    fn default() -> (dev: SocketDev)
        ensures
            dev@ == (SocketDevView {
                state: SocketDevState::Disconnected,
                stream: None,
                write_msgfd: -1i32,
                data_fd: -1i32,
                control_fd: -1i32,
            }),
    {
        SocketDev::new()
    }
}

impl SocketDev {
    /// A connection that is down, with no descriptor set.
    pub fn new() -> (dev: SocketDev)
        ensures
            dev@ == (SocketDevView {
                state: SocketDevState::Disconnected,
                stream: None,
                write_msgfd: -1i32,
                data_fd: -1i32,
                control_fd: -1i32,
            }),
    {
        SocketDev {
            state: SocketDevState::Disconnected,
            stream: None,
            write_msgfd: -1,
            control_fd: -1,
            data_fd: -1,
        }
    }

    /// Brings the connection up; see `connect`.
    pub fn init(&mut self, opened: Result<i32, String>) -> (res: Result<(), TpmSocketError>)
        ensures
            match opened {
                Ok(fd) => res is Ok && final(self)@ == (SocketDevView {
                    state: SocketDevState::Connected,
                    stream: Some(fd),
                    control_fd: fd,
                    ..old(self)@
                }),
                Err(reason) => res matches Err(TpmSocketError::ConnectToSocket(why)) && why
                    == reason && final(self)@ == (SocketDevView {
                    state: SocketDevState::Connecting,
                    ..old(self)@
                }),
            },
    {
        self.connect(opened)
    }

    /// Takes in how opening a stream to the control socket went: the
    /// stream's descriptor, or the reason of the failure.
    ///
    /// With a stream the connection is up and keeps the stream. Without
    /// one the attempt is reported as a connection error, and the
    /// connection is left connecting: it is not taken back down.
    pub fn connect(&mut self, opened: Result<i32, String>) -> (res: Result<(), TpmSocketError>)
        ensures
            match opened {
                Ok(fd) => res is Ok && final(self)@ == (SocketDevView {
                    state: SocketDevState::Connected,
                    stream: Some(fd),
                    control_fd: fd,
                    ..old(self)@
                }),
                Err(reason) => res matches Err(TpmSocketError::ConnectToSocket(why)) && why
                    == reason && final(self)@ == (SocketDevView {
                    state: SocketDevState::Connecting,
                    ..old(self)@
                }),
            },
    {
        self.state = SocketDevState::Connecting;
        match opened {
            Ok(fd) => {
                self.control_fd = fd;
                self.stream = Some(fd);
                self.state = SocketDevState::Connected;
                Ok(())
            },
            Err(reason) => Err(TpmSocketError::ConnectToSocket(reason)),
        }
    }

    /// Sets the descriptor of the data channel.
    pub fn set_datafd(&mut self, fd: i32)
        ensures
            final(self)@ == (SocketDevView { data_fd: fd, ..old(self)@ }),
    {
        self.data_fd = fd;
    }

    /// Sets the descriptor that the next send forwards to the peer.
    pub fn set_msgfd(&mut self, fd: i32)
        ensures
            final(self)@ == (SocketDevView { write_msgfd: fd, ..old(self)@ }),
    {
        self.write_msgfd = fd;
    }

    /// Asks before a send. Where the connection is up, the answer is the
    /// descriptor that the send is to forward. Where it is not, the answer
    /// is a write error, and nothing is to be sent.
    pub fn begin_write(&self) -> (res: Result<i32, TpmSocketError>)
        ensures
            self@.can_send() ==> res == Ok::<i32, TpmSocketError>(self@.write_msgfd),
            !self@.can_send() ==> (res matches Err(TpmSocketError::WriteToSocket(why)) && why@
                == NOT_CONNECTED@),
    {
        if self.stream.is_none() {
            return Err(TpmSocketError::WriteToSocket(NOT_CONNECTED.to_owned()));
        }
        match self.state {
            SocketDevState::Connected => Ok(self.write_msgfd),
            _ => Err(TpmSocketError::WriteToSocket(NOT_CONNECTED.to_owned())),
        }
    }

    /// The descriptor that the next send forwards to the peer.
    pub fn write_msgfd(&self) -> (fd: i32)
        ensures
            fd == self@.write_msgfd,
    {
        self.write_msgfd
    }

    /// Reports a send on the stream: the number of bytes that went out, or
    /// a write error with the reason of the failure.
    pub fn send_full(&self, sent: Result<usize, String>) -> (res: Result<usize, TpmSocketError>)
        ensures
            match sent {
                Ok(size) => res == Ok::<usize, TpmSocketError>(size),
                Err(reason) => res matches Err(TpmSocketError::WriteToSocket(why)) && why
                    == reason,
            },
    {
        match sent {
            Ok(size) => Ok(size),
            Err(reason) => Err(TpmSocketError::WriteToSocket(reason)),
        }
    }

    /// Takes in how a send went that `begin_write` allowed.
    ///
    /// On a connection that is not up this is a write error, whatever
    /// `sent` says. Otherwise a failed send is a write error with its
    /// reason, and a send that got bytes through spends the descriptor to
    /// forward: every later send forwards none.
    pub fn write(&mut self, sent: Result<usize, String>) -> (res: Result<usize, TpmSocketError>)
        ensures
            !old(self)@.can_send() ==> (res matches Err(TpmSocketError::WriteToSocket(why)) && why@
                == NOT_CONNECTED@ && final(self)@ == old(self)@),
            old(self)@.can_send() ==> match sent {
                Ok(size) => res == Ok::<usize, TpmSocketError>(size) && final(self)@ == old(
                    self,
                )@.after_send(size),
                Err(reason) => res matches Err(TpmSocketError::WriteToSocket(why)) && why
                    == reason && final(self)@ == old(self)@,
            },
    {
        if self.stream.is_none() {
            return Err(TpmSocketError::WriteToSocket(NOT_CONNECTED.to_owned()));
        }
        match self.state {
            SocketDevState::Connected => {
                let ret = match self.send_full(sent) {
                    Ok(ret) => ret,
                    Err(err) => {
                        return Err(err);
                    },
                };
                // the peer holds the descriptor after a successful send
                if ret > 0 && self.write_msgfd != 0 {
                    self.write_msgfd = 0;
                }
                Ok(ret)
            },
            _ => Err(TpmSocketError::WriteToSocket(NOT_CONNECTED.to_owned())),
        }
    }

    /// Asks before a receive: a read error where no stream was ever opened.
    pub fn begin_read(&self) -> (res: Result<(), TpmSocketError>)
        ensures
            self@.stream is Some ==> res is Ok,
            self@.stream is None ==> (res matches Err(TpmSocketError::ReadFromSocket(why)) && why@
                == NOT_INITIALIZED@),
    {
        if self.stream.is_none() {
            return Err(TpmSocketError::ReadFromSocket(NOT_INITIALIZED.to_owned()));
        }
        Ok(())
    }

    /// Takes in how a receive went that `begin_read` allowed: the number of
    /// bytes that came in, or a read error with the reason of the failure.
    /// Without a stream it is a read error, whatever `received` says.
    pub fn read(&mut self, received: Result<usize, String>) -> (res: Result<usize, TpmSocketError>)
        ensures
            final(self)@ == old(self)@,
            old(self)@.stream is None ==> (res matches Err(TpmSocketError::ReadFromSocket(why))
                && why@ == NOT_INITIALIZED@),
            old(self)@.stream is Some ==> match received {
                Ok(size) => res == Ok::<usize, TpmSocketError>(size),
                Err(reason) => res matches Err(TpmSocketError::ReadFromSocket(why)) && why
                    == reason,
            },
    {
        if self.stream.is_none() {
            return Err(TpmSocketError::ReadFromSocket(NOT_INITIALIZED.to_owned()));
        }
        match received {
            Ok(size) => Ok(size),
            Err(reason) => Err(TpmSocketError::ReadFromSocket(reason)),
        }
    }
}

} // verus!
