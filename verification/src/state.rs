//! The states of a connection.

use vstd::prelude::*;

use crate::read::{state_once_processed, state_once_read, state_once_written, ReadOutcome};

verus! {

/// How far a connection has come.
#[derive(Clone, Copy, Debug, PartialEq, Eq, Structural)]
pub enum KeServerConnState {
    /// The connection is just connected. The TLS handshake is not done yet.
    Connected,
    /// Doing the TLS handshake.
    TlsHandshaking,
    /// The TLS handshake is done. It's opened for requests now.
    Opened,
    /// The response is sent after getting a good request.
    ResponseSent,
    /// The connection is closed.
    Closed,
}

impl KeServerConnState {
    /// The state once the client has sent something: a handshake is under way.
    pub open spec fn reading(self) -> KeServerConnState {
        if self == KeServerConnState::Connected {
            KeServerConnState::TlsHandshaking
        } else {
            self
        }
    }

    /// The state once plaintext has arrived: the handshake is done.
    pub open spec fn requested(self) -> KeServerConnState {
        if self == KeServerConnState::TlsHandshaking {
            KeServerConnState::Opened
        } else {
            self
        }
    }

    /// The state after what came of reading from the transport. The first read means that the
    /// client has started the TLS handshake. A failure and the end of the stream close the
    /// connection.
    pub fn transport_read(self, outcome: &ReadOutcome) -> (state: KeServerConnState)
        ensures
            state == outcome.state(self),
    {
        let closed: bool = match outcome {
            ReadOutcome::Received(count) => *count == 0,
            // It's not actually an error, so the connection stays as it is.
            ReadOutcome::WouldBlock => false,
            ReadOutcome::Failed(_) => true,
        };
        if closed {
            KeServerConnState::Closed
        } else if self == KeServerConnState::Connected {
            KeServerConnState::TlsHandshaking
        } else {
            self
        }
    }

    /// The state after what came of processing the packets. A refusal closes the connection.
    pub fn packets_processed(self, processed: &Result<(), rustls::TLSError>) -> (state:
        KeServerConnState)
        ensures
            state == state_once_processed(*processed, self),
    {
        match processed {
            Ok(_) => self,
            Err(_) => KeServerConnState::Closed,
        }
    }

    /// The state after what came of reading out the plaintext. A failure closes the connection.
    /// Any plaintext means that the handshake is done.
    pub fn plaintext_read(self, read: &Result<usize, std::io::Error>) -> (state: KeServerConnState)
        ensures
            state == state_once_read(*read, self),
    {
        match read {
            Err(_) => KeServerConnState::Closed,
            Ok(n) => {
                if *n > 0 && self == KeServerConnState::TlsHandshaking {
                    KeServerConnState::Opened
                } else {
                    self
                }
            },
        }
    }

    /// The state after what came of writing the response to an open connection.
    pub fn response_written(self, written: &Result<(), std::io::Error>) -> (state:
        KeServerConnState)
        requires
            self == KeServerConnState::Opened,
        ensures
            state == state_once_written(*written, self),
    {
        match written {
            Ok(_) => KeServerConnState::ResponseSent,
            Err(_) => self,
        }
    }
}

/// What there is to say of a connection.
pub struct ConnView {
    pub state: KeServerConnState,
    pub session: rustls::ServerSession,
    /// What the client has sent of a message that has not ended.
    pub request: Seq<u8>,
    pub token: usize,
    pub next_port: u16,
}

} // verus!
