//! What a read from the client does to a connection.

use vstd::prelude::*;

use crate::request::{holds_good_request, unfinished};
use crate::response::{cookies_for, makes_cookies, response_bytes, MasterKey, NTSKeys};
use crate::state::{ConnView, KeServerConnState};
use crate::tls::{
    at_eof, is_would_block, packets_taken, plaintext_drained, plaintext_written,
    received_plaintext, would_block,
};

verus! {

/// What came of reading from the transport into the TLS session.
#[derive(Debug)]
pub enum ReadOutcome {
    /// So many bytes were read. None stands for the end of the stream.
    Received(usize),
    /// There is nothing to read now.
    WouldBlock,
    /// The transport failed.
    Failed(std::io::Error),
}

/// The outcome of a read from the transport: an error that tells that there is nothing to read now
/// is not actually an error.
pub open spec fn outcome_of(result: Result<usize, std::io::Error>) -> ReadOutcome {
    match result {
        Ok(count) => ReadOutcome::Received(count),
        Err(error) => if would_block(error) {
            ReadOutcome::WouldBlock
        } else {
            ReadOutcome::Failed(error)
        },
    }
}

impl ReadOutcome {
    /// The state once the outcome is known.
    pub open spec fn state(self, before: KeServerConnState) -> KeServerConnState {
        match self {
            ReadOutcome::Received(count) if count > 0 => before.reading(),
            ReadOutcome::WouldBlock => before.reading(),
            _ => KeServerConnState::Closed,
        }
    }

    /// The event that tells of the outcome, if the connection is shut down.
    pub open spec fn event(self) -> Option<ReadEvent> {
        match self {
            ReadOutcome::Received(count) if count > 0 => None,
            ReadOutcome::Received(_) => Some(ReadEvent::EndOfFile),
            ReadOutcome::WouldBlock => None,
            ReadOutcome::Failed(error) => Some(ReadEvent::ReadFailed(error)),
        }
    }

    /// Takes in what reading from the transport gave.
    pub fn new(result: Result<usize, std::io::Error>) -> (outcome: ReadOutcome)
        ensures
            outcome == outcome_of(result),
            result matches Ok(count) ==> outcome == ReadOutcome::Received(count),
            result matches Err(error) ==> outcome == if would_block(error) {
                ReadOutcome::WouldBlock
            } else {
                ReadOutcome::Failed(error)
            },
    {
        match result {
            Ok(count) => ReadOutcome::Received(count),
            Err(error) => {
                if is_would_block(&error) {
                    ReadOutcome::WouldBlock
                } else {
                    ReadOutcome::Failed(error)
                }
            },
        }
    }

    /// Tells of the outcome, if the connection is shut down.
    pub fn into_event(self) -> (event: Option<ReadEvent>)
        ensures
            event == self.event(),
            event is Some <==> self is Failed || self == ReadOutcome::Received(0),
    {
        match self {
            ReadOutcome::Received(count) => {
                if count > 0 {
                    None
                } else {
                    Some(ReadEvent::EndOfFile)
                }
            },
            ReadOutcome::WouldBlock => None,
            ReadOutcome::Failed(error) => Some(ReadEvent::ReadFailed(error)),
        }
    }
}

/// What a read led to. Each of the first four means that the connection is shut down.
#[derive(Debug)]
pub enum ReadEvent {
    /// The transport could not be read.
    ReadFailed(std::io::Error),
    /// The client closed the stream.
    EndOfFile,
    /// The TLS session refused what the client sent.
    PacketsRefused(rustls::TLSError),
    /// The plaintext could not be read out of the TLS session.
    PlaintextFailed(std::io::Error),
    /// So many bytes of plaintext have arrived.
    PlaintextRead(usize),
    /// The TLS session did not take the response.
    ResponseFailed(std::io::Error),
}

/// `report` can be told of any event.
pub open spec fn listens<R: Fn(&ReadEvent)>(report: R) -> bool {
    forall|event: &ReadEvent| #[trigger] call_requires(report, (event,))
}

/// `report` was told of every one of the events.
pub open spec fn told<R: Fn(&ReadEvent)>(report: R, events: Seq<ReadEvent>) -> bool {
    forall|i: int|
        0 <= i < events.len() ==> call_ensures(report, (&#[trigger] events[i],), ())
}

/// The state once the packets are processed: a refusal closes the connection.
pub open spec fn state_once_processed(
    processed: Result<(), rustls::TLSError>,
    before: KeServerConnState,
) -> KeServerConnState {
    if processed is Err {
        KeServerConnState::Closed
    } else {
        before
    }
}

/// The state once the plaintext is read out: a failure closes the connection, and any plaintext
/// means that the handshake is done.
pub open spec fn state_once_read(
    read: Result<usize, std::io::Error>,
    before: KeServerConnState,
) -> KeServerConnState {
    match read {
        Err(_) => KeServerConnState::Closed,
        Ok(n) => if n == 0 {
            before
        } else {
            before.requested()
        },
    }
}

/// The state once the response is written: the response is sent, unless the session did not take
/// it.
pub open spec fn state_once_written(
    written: Result<(), std::io::Error>,
    before: KeServerConnState,
) -> KeServerConnState {
    if written is Ok {
        KeServerConnState::ResponseSent
    } else {
        before
    }
}

/// What the calls that an answer needs gave back, in the order of the calls.
pub struct Answer {
    /// The keys of the association.
    pub keys: NTSKeys,
    /// The latest key to make cookies under.
    pub master: MasterKey,
    /// The cookies of the response.
    pub cookies: Seq<Vec<u8>>,
    /// What writing the response came to.
    pub written: Result<(), std::io::Error>,
}

/// The plaintext is answered: the connection is open for requests, so that no response was sent
/// before, and with the plaintext there is a good request.
pub open spec fn is_answered(before: ConnView, plaintext: Seq<u8>) -> bool {
    &&& before.state.requested() == KeServerConnState::Opened
    &&& holds_good_request(before.request + plaintext)
}

/// The events when plaintext has arrived.
pub open spec fn plaintext_events(
    before: ConnView,
    plaintext: Seq<u8>,
    answer: Answer,
) -> Seq<ReadEvent> {
    let read = ReadEvent::PlaintextRead(plaintext.len() as usize);
    match answer.written {
        Err(error) if is_answered(before, plaintext) => seq![
            read,
            ReadEvent::ResponseFailed(error),
        ],
        _ => seq![read],
    }
}

/// `gen_key`, `latest_key` and `make_cookie` can be called whenever a read needs them.
pub open spec fn sources_ready<G, K, M>(gen_key: G, latest_key: K, make_cookie: M) -> bool where
    G: Fn(&rustls::ServerSession) -> NTSKeys,
    K: Fn() -> MasterKey,
    M: Fn(NTSKeys, &MasterKey) -> Vec<u8>,
 {
    &&& forall|session: &rustls::ServerSession| #[trigger] call_requires(gen_key, (session,))
    &&& call_requires(latest_key, ())
    &&& makes_cookies(make_cookie)
}

/// What plaintext does to a connection. Whatever it is, keys are derived from the session. If it is
/// answered, the session is given the response, with cookies for those keys under the latest master
/// key. If it is not, an open connection keeps what is unfinished.
pub open spec fn plaintext_handled<G, K, M>(
    before: ConnView,
    plaintext: Seq<u8>,
    answer: Answer,
    after: ConnView,
    gen_key: G,
    latest_key: K,
    make_cookie: M,
) -> bool where
    G: Fn(&rustls::ServerSession) -> NTSKeys,
    K: Fn() -> MasterKey,
    M: Fn(NTSKeys, &MasterKey) -> Vec<u8>,
 {
    let state = before.state.requested();
    &&& call_ensures(gen_key, (&before.session,), answer.keys)
    &&& if is_answered(before, plaintext) {
        &&& call_ensures(latest_key, (), answer.master)
        &&& cookies_for(make_cookie, answer.keys, answer.master, answer.cookies)
        &&& plaintext_written(
            before.session,
            response_bytes(answer.cookies, before.next_port),
            answer.written,
            after.session,
        )
        &&& after == (ConnView {
            state: state_once_written(answer.written, state),
            session: after.session,
            request: seq![],
            ..before
        })
    } else {
        after == (ConnView {
            state,
            request: if state == KeServerConnState::Opened {
                unfinished(before.request + plaintext)
            } else {
                before.request
            },
            ..before
        })
    }
}

/// What the calls that a read makes into other code gave back, in the order of the calls.
pub struct ReadTrace {
    /// What processing the packets came to.
    pub processed: Result<(), rustls::TLSError>,
    /// The session after that.
    pub processed_session: rustls::ServerSession,
    /// What reading out the plaintext came to.
    pub read: Result<usize, std::io::Error>,
    /// The session after that.
    pub drained_session: rustls::ServerSession,
    /// What answering the plaintext came to.
    pub answer: Answer,
}

impl ReadTrace {
    /// The event that tells of a refusal, if there was one.
    pub open spec fn refusal(self) -> Seq<ReadEvent> {
        match self.processed {
            Ok(_) => seq![],
            Err(error) => seq![ReadEvent::PacketsRefused(error)],
        }
    }

    /// The plaintext that there was to read.
    pub open spec fn plaintext(self) -> Seq<u8> {
        received_plaintext(self.processed_session)
    }

    /// The connection once the plaintext is read out, before anything is made of it.
    pub open spec fn drained(self, before: ConnView) -> ConnView {
        ConnView {
            state: state_once_processed(self.processed, before.state.reading()),
            session: self.drained_session,
            ..before
        }
    }
}

/// What a read does to a connection once the transport has given bytes: the packets are processed,
/// the plaintext is read out, and what there is of it is handled.
pub open spec fn packets_handled<G, K, M>(
    before: ConnView,
    trace: ReadTrace,
    after: ConnView,
    events: Seq<ReadEvent>,
    gen_key: G,
    latest_key: K,
    make_cookie: M,
) -> bool where
    G: Fn(&rustls::ServerSession) -> NTSKeys,
    K: Fn() -> MasterKey,
    M: Fn(NTSKeys, &MasterKey) -> Vec<u8>,
 {
    let drained = trace.drained(before);
    &&& packets_taken(before.session, trace.processed, trace.processed_session)
    &&& plaintext_drained(trace.processed_session, trace.drained_session)
    &&& trace.read is Err <==> at_eof(trace.processed_session)
    &&& match trace.read {
        Err(error) => {
            &&& after == (ConnView { state: KeServerConnState::Closed, ..drained })
            &&& events == trace.refusal().push(ReadEvent::PlaintextFailed(error))
        },
        Ok(n) => {
            &&& n == trace.plaintext().len()
            &&& if n == 0 {
                &&& after == drained
                &&& events == trace.refusal()
            } else {
                &&& plaintext_handled(
                    drained,
                    trace.plaintext(),
                    trace.answer,
                    after,
                    gen_key,
                    latest_key,
                    make_cookie,
                )
                &&& events == trace.refusal() + plaintext_events(
                    drained,
                    trace.plaintext(),
                    trace.answer,
                )
            }
        },
    }
}

/// What a read does to a connection, and the events that it gives.
pub open spec fn read_done<G, K, M>(
    before: ConnView,
    outcome: ReadOutcome,
    trace: ReadTrace,
    after: ConnView,
    events: Seq<ReadEvent>,
    gen_key: G,
    latest_key: K,
    make_cookie: M,
) -> bool where
    G: Fn(&rustls::ServerSession) -> NTSKeys,
    K: Fn() -> MasterKey,
    M: Fn(NTSKeys, &MasterKey) -> Vec<u8>,
 {
    match outcome {
        ReadOutcome::Received(count) if count > 0 => packets_handled(
            before,
            trace,
            after,
            events,
            gen_key,
            latest_key,
            make_cookie,
        ),
        _ => {
            &&& after == (ConnView { state: outcome.state(before.state), ..before })
            &&& events == match outcome.event() {
                Some(event) => seq![event],
                None => seq![],
            }
        },
    }
}

} // verus!
