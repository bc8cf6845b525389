//! In what order a ready connection is handled, and what it waits for.

use vstd::prelude::*;

use crate::poll::{poll_options, ready_kinds, LEVEL, READABLE, WRITABLE};
use crate::state::ConnView;
use crate::tls::{pending_tls, received_plaintext};

verus! {

/// The steps of handling a connection that is ready.
#[derive(Clone, Copy, Debug, PartialEq, Eq, Structural)]
pub enum ReadyStep {
    /// Nothing is done yet.
    Start,
    /// Read from the transport.
    Read,
    /// Write to the transport.
    Write,
    /// Register the connection again.
    Reregister,
    /// There is nothing left to do.
    Done,
}

/// The step after `done`: a readable connection is read first, a writable one is written then,
/// and one that is not closed by that time is registered again.
pub open spec fn next_step(kinds: Set<usize>, done: ReadyStep, closed: bool) -> ReadyStep {
    if done == ReadyStep::Start && kinds.contains(READABLE) {
        ReadyStep::Read
    } else if (done == ReadyStep::Start || done == ReadyStep::Read) && kinds.contains(WRITABLE) {
        ReadyStep::Write
    } else if done != ReadyStep::Reregister && done != ReadyStep::Done && !closed {
        ReadyStep::Reregister
    } else {
        ReadyStep::Done
    }
}

/// What to wait for on behalf of a session: to read while it holds no plaintext, to write while
/// it holds bytes for the transport, and to read if it wants neither.
pub open spec fn interest(session: rustls::ServerSession) -> Set<usize> {
    let rd = received_plaintext(session).len() == 0;
    let wr = pending_tls(session).len() > 0;
    if rd && wr {
        set![READABLE, WRITABLE]
    } else if wr {
        set![WRITABLE]
    } else {
        set![READABLE]
    }
}

/// What a connection is registered with.
#[derive(Clone, Copy, Debug)]
pub struct Registration {
    pub token: usize,
    pub interest: mio::Ready,
    pub opts: mio::PollOpt,
}

impl Registration {
    /// The registration is the one for the connection, level triggered.
    pub open spec fn is_for(self, conn: ConnView) -> bool {
        &&& self.token == conn.token
        &&& ready_kinds(self.interest) == interest(conn.session)
        &&& poll_options(self.opts) == set![LEVEL]
    }
}

} // verus!
