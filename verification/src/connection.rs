//! NTS-KE server connection.

use std::sync::Arc;

use vstd::prelude::*;

use crate::poll::{ready_kinds, ready_union, READABLE, WRITABLE};
use crate::read::{
    listens, plaintext_events, plaintext_handled, read_done, sources_ready, told, Answer,
    ReadEvent, ReadOutcome, ReadTrace,
};
use crate::request::take_request;
use crate::response::{cookies_for, response, response_bytes, MasterKey, NTSKeys};
use crate::schedule::{interest, next_step, ReadyStep, Registration};
use crate::state::{ConnView, KeServerConnState};
use crate::tls::{
    accepted_plaintext, at_eof, buffer_limit, config_mtu, delivered_plaintext, is_broken, mtu,
    packets_waiting, pending_tls, process_new_packets, read_to_end, received_plaintext,
    session_config, standard_parts, supports_version, usable_config, usable_mtu, wants_read,
    wants_write, write_all, TlsVersion, MAX_FRAGMENT,
};

verus! {

/// What all connections of a server share.
pub struct KeServerState {
    tls_server_config: Arc<rustls::ServerConfig>,
    next_port: u16,
}

impl KeServerState {
    #[verifier::type_invariant]
    spec fn inv(self) -> bool {
        usable_config(*self.tls_server_config)
    }

    /// The configuration of every TLS session.
    pub closed spec fn config(self) -> rustls::ServerConfig {
        *self.tls_server_config
    }

    /// The port of the time server that responses name.
    pub closed spec fn port(self) -> u16 {
        self.next_port
    }

    /// Keeps the configuration and the port, unless the configuration asks for a fragment length
    /// that TLS sessions cannot be made with, or for anything but TLS 1.3.
    ///
    /// `config::server_config` makes a configuration that can be kept.
    pub fn new(tls_server_config: Arc<rustls::ServerConfig>, next_port: u16) -> (state: Option<
        KeServerState,
    >)
        requires
            standard_parts(*tls_server_config),
        ensures
            state is Some <==> usable_config(*tls_server_config),
            state matches Some(s) ==> s.config() == *tls_server_config && s.port() == next_port,
    {
        let mtu_fits: bool = match mtu(&tls_server_config) {
            Some(mtu) => 0 < mtu && mtu <= MAX_FRAGMENT,
            None => true,
        };
        assert(mtu_fits == usable_mtu(config_mtu(*tls_server_config)));
        if mtu_fits && supports_version(&tls_server_config, TlsVersion::Tls13) && !supports_version(
            &tls_server_config,
            TlsVersion::Tls12,
        ) {
            Some(KeServerState { tls_server_config, next_port })
        } else {
            None
        }
    }
}

/// NTS-KE server connection.
pub struct KeServerConn {
    /// Reference back to the corresponding server state.
    server_state: Arc<KeServerState>,
    /// The poll token for this connection.
    token: usize,
    /// TLS session for this connection.
    tls_session: rustls::ServerSession,
    /// What the client has sent of a message that has not ended.
    request: Vec<u8>,
    /// The status of the connection.
    state: KeServerConnState,
}

impl View for KeServerConn {
    type V = ConnView;

    closed spec fn view(&self) -> ConnView {
        ConnView {
            state: self.state,
            session: self.tls_session,
            request: self.request@,
            token: self.token,
            next_port: self.server_state.port(),
        }
    }
}

impl KeServerConn {
    /// A connection that was just accepted, with a fresh TLS session.
    pub fn new(token: usize, server_state: &Arc<KeServerState>) -> (conn: KeServerConn)
        ensures
            conn@.state == KeServerConnState::Connected,
            conn@.request == Seq::<u8>::empty(),
            conn@.token == token,
            conn@.next_port == server_state.port(),
            received_plaintext(conn@.session) == Seq::<u8>::empty(),
            delivered_plaintext(conn@.session) == Seq::<u8>::empty(),
            !packets_waiting(conn@.session),
            accepted_plaintext(conn@.session) == Seq::<u8>::empty(),
            pending_tls(conn@.session) == Seq::<u8>::empty(),
            buffer_limit(conn@.session) == 0,
            session_config(conn@.session) == server_state.config(),
            usable_config(session_config(conn@.session)),
            !at_eof(conn@.session),
            !is_broken(conn@.session),
    {
        proof {
            use_type_invariant(&**server_state);
        }
        let tls_session: rustls::ServerSession = rustls::ServerSession::new(
            &server_state.tls_server_config,
        );
        KeServerConn {
            server_state: server_state.clone(),
            token,
            tls_session,
            request: Vec::new(),
            state: KeServerConnState::Connected,
        }
    }

    /// The TLS session, for the transport to read into and write from.
    pub fn session_mut(&mut self) -> (session: &mut rustls::ServerSession)
        ensures
            *session == old(self)@.session,
            final(self)@ == (ConnView { session: *final(session), ..old(self)@ }),
    {
        &mut self.tls_session
    }

    /// Moves on to `state`. If that comes with an event, `report` is told of it first, and it is
    /// added to `events`.
    fn take_in<R: Fn(&ReadEvent)>(
        &mut self,
        state: KeServerConnState,
        event: Option<ReadEvent>,
        events: &mut Vec<ReadEvent>,
        report: &R,
    )
        requires
            listens(*report),
            told(*report, old(events)@),
        ensures
            final(self)@ == (ConnView { state, ..old(self)@ }),
            final(events)@ == match event {
                Some(event) => old(events)@.push(event),
                None => old(events)@,
            },
            told(*report, final(events)@),
    {
        if let Some(event) = event {
            report(&event);
            events.push(event);
        }
        self.state = state;
    }

    /// Takes in plaintext from the client, with the TLS session as it is after the plaintext was
    /// read out of it. Plaintext means that the handshake is done. On an open connection it goes
    /// on with the message that has not ended, and a good request is answered.
    ///
    /// `gen_key` derives the keys of the association from the session, `latest_key` gives the
    /// key to make cookies under, and `make_cookie` makes one cookie. `report` is told of every
    /// event as it comes.
    pub fn plaintext_received<G, K, M, R>(
        &mut self,
        plaintext: &Vec<u8>,
        gen_key: &G,
        latest_key: &K,
        make_cookie: &M,
        report: &R,
    ) -> (events: Vec<ReadEvent>) where
        G: Fn(&rustls::ServerSession) -> NTSKeys,
        K: Fn() -> MasterKey,
        M: Fn(NTSKeys, &MasterKey) -> Vec<u8>,
        R: Fn(&ReadEvent),

        requires
            plaintext@.len() > 0,
            usable_config(session_config(old(self)@.session)),
            sources_ready(*gen_key, *latest_key, *make_cookie),
            listens(*report),
        ensures
            exists|answer: Answer|
                {
                    &&& #[trigger] plaintext_handled(
                        old(self)@,
                        plaintext@,
                        answer,
                        final(self)@,
                        *gen_key,
                        *latest_key,
                        *make_cookie,
                    )
                    &&& events@ == plaintext_events(old(self)@, plaintext@, answer)
                },
            told(*report, events@),
            forall|i: int|
                0 <= i < events@.len() ==> call_ensures(*report, (&#[trigger] events@[i],), ()),
    {
        let ghost before = self@;
        let ghost mut answer: Answer = arbitrary();
        let mut events: Vec<ReadEvent> = Vec::new();

        let count: usize = plaintext.len();
        let state: KeServerConnState = self.state.plaintext_read(&Ok(count));
        self.take_in(state, Some(ReadEvent::PlaintextRead(count)), &mut events, report);

        let keys: NTSKeys = gen_key(&self.tls_session);
        proof {
            answer.keys = keys;
        }

        // We have to make sure that the response is not sent yet.
        if self.state == KeServerConnState::Opened {
            self.request.extend_from_slice(plaintext.as_slice());
            assert(self.request@ =~= before.request + plaintext@);
            if take_request(&mut self.request) {
                let master: MasterKey = latest_key();
                let bytes: Vec<u8> = response(
                    keys,
                    &master,
                    &self.server_state.next_port,
                    make_cookie,
                );
                let written: Result<(), std::io::Error> = write_all(&mut self.tls_session, &bytes);
                proof {
                    answer.master = master;
                    answer.cookies = choose|cookies: Seq<Vec<u8>>|
                        {
                            &&& #[trigger] cookies_for(*make_cookie, keys, master, cookies)
                            &&& bytes@ == response_bytes(cookies, before.next_port)
                        };
                    answer.written = written;
                }
                // Mark that the response is sent.
                let state: KeServerConnState = self.state.response_written(&written);
                let event: Option<ReadEvent> = match written {
                    Ok(_) => None,
                    Err(error) => Some(ReadEvent::ResponseFailed(error)),
                };
                self.take_in(state, event, &mut events, report);
            }
        }
        assert(plaintext_handled(
            before,
            plaintext@,
            answer,
            self@,
            *gen_key,
            *latest_key,
            *make_cookie,
        ));
        assert(events@ =~= plaintext_events(before, plaintext@, answer));
        events
    }

    /// Carries on after the transport was read into the TLS session.
    ///
    /// `gen_key` derives the keys of the association from the session, `latest_key` gives the
    /// key to make cookies under, and `make_cookie` makes one cookie. `report` is told of every
    /// event as it comes, before the connection is closed on account of it.
    ///
    /// What the TLS session makes of the bytes from the client is its own affair: the contract
    /// says what follows from what it has decrypted, and from whether it is broken.
    pub fn read_ready<G, K, M, R>(
        &mut self,
        outcome: ReadOutcome,
        gen_key: &G,
        latest_key: &K,
        make_cookie: &M,
        report: &R,
    ) -> (events: Vec<ReadEvent>) where
        G: Fn(&rustls::ServerSession) -> NTSKeys,
        K: Fn() -> MasterKey,
        M: Fn(NTSKeys, &MasterKey) -> Vec<u8>,
        R: Fn(&ReadEvent),

        requires
            usable_config(session_config(old(self)@.session)),
            sources_ready(*gen_key, *latest_key, *make_cookie),
            listens(*report),
        ensures
            exists|trace: ReadTrace| #[trigger]
                read_done(
                    old(self)@,
                    outcome,
                    trace,
                    final(self)@,
                    events@,
                    *gen_key,
                    *latest_key,
                    *make_cookie,
                ),
            told(*report, events@),
            forall|i: int|
                0 <= i < events@.len() ==> call_ensures(*report, (&#[trigger] events@[i],), ()),
            outcome matches ReadOutcome::Failed(error) ==> {
                &&& final(self)@.state == KeServerConnState::Closed
                &&& events@ == seq![ReadEvent::ReadFailed(error)]
            },
            outcome == ReadOutcome::Received(0) ==> {
                &&& final(self)@.state == KeServerConnState::Closed
                &&& events@ == seq![ReadEvent::EndOfFile]
            },
            outcome is WouldBlock ==> events@.len() == 0 && final(self)@.session == old(
                self,
            )@.session,
    {
        let ghost before = self@;
        let ghost mut trace: ReadTrace = arbitrary();
        let mut events: Vec<ReadEvent> = Vec::new();

        let received: bool = match &outcome {
            ReadOutcome::Received(count) => *count > 0,
            _ => false,
        };
        let state: KeServerConnState = self.state.transport_read(&outcome);
        let ghost taken = outcome;
        self.take_in(state, outcome.into_event(), &mut events, report);

        if received {
            // Process newly received TLS messages. A refusal does not end the read: what was
            // decrypted before it is still read out.
            let processed: Result<(), rustls::TLSError> = process_new_packets(
                &mut self.tls_session,
            );
            proof {
                trace.processed = processed;
                trace.processed_session = self.tls_session;
            }
            let state: KeServerConnState = self.state.packets_processed(&processed);
            let event: Option<ReadEvent> = match processed {
                Ok(_) => None,
                Err(error) => Some(ReadEvent::PacketsRefused(error)),
            };
            self.take_in(state, event, &mut events, report);

            let mut buf: Vec<u8> = Vec::new();
            let read: Result<usize, std::io::Error> = read_to_end(&mut self.tls_session, &mut buf);
            proof {
                trace.read = read;
                trace.drained_session = self.tls_session;
                assert(buf@ =~= trace.plaintext());
                assert(events@ =~= trace.refusal());
                assert(self@ == trace.drained(before));
            }
            match read {
                Err(error) => {
                    let event: ReadEvent = ReadEvent::PlaintextFailed(error);
                    self.take_in(KeServerConnState::Closed, Some(event), &mut events, report);
                },
                Ok(_) => {
                    if buf.len() > 0 {
                        let ghost drained = self@;
                        let mut more: Vec<ReadEvent> = self.plaintext_received(
                            &buf,
                            gen_key,
                            latest_key,
                            make_cookie,
                            report,
                        );
                        proof {
                            trace.answer = choose|answer: Answer|
                                {
                                    &&& #[trigger] plaintext_handled(
                                        drained,
                                        buf@,
                                        answer,
                                        self@,
                                        *gen_key,
                                        *latest_key,
                                        *make_cookie,
                                    )
                                    &&& more@ == plaintext_events(drained, buf@, answer)
                                };
                        }
                        events.append(&mut more);
                    }
                },
            }
        }
        assert(read_done(
            before,
            taken,
            trace,
            self@,
            events@,
            *gen_key,
            *latest_key,
            *make_cookie,
        ));
        events
    }

    /// Takes in what came of writing the TLS session's bytes to the transport. A failure closes
    /// the connection, once `report` has been told of it, and is given back.
    pub fn do_tls_write_and_handle_error<R: Fn(&std::io::Error)>(
        &mut self,
        rc: Result<usize, std::io::Error>,
        report: &R,
    ) -> (failure: Option<std::io::Error>)
        requires
            forall|error: &std::io::Error| #[trigger] call_requires(*report, (error,)),
        ensures
            final(self)@ == (ConnView {
                state: if rc is Err {
                    KeServerConnState::Closed
                } else {
                    old(self)@.state
                },
                ..old(self)@
            }),
            failure == match rc {
                Ok(_) => None,
                Err(error) => Some(error),
            },
            failure matches Some(error) ==> call_ensures(*report, (&error,), ()),
    {
        match rc {
            Ok(_) => None,
            Err(error) => {
                report(&error);
                self.shutdown();
                Some(error)
            },
        }
    }

    /// The next step of handling a connection that is ready for `readiness`, after the step
    /// `done`. Handling begins with `ReadyStep::Start` and ends with `ReadyStep::Done`.
    pub fn ready(&self, readiness: mio::Ready, done: ReadyStep) -> (next: ReadyStep)
        ensures
            next == next_step(
                ready_kinds(readiness),
                done,
                self@.state == KeServerConnState::Closed,
            ),
    {
        let started: bool = done == ReadyStep::Start;
        let read_over: bool = started || done == ReadyStep::Read;
        let write_over: bool = read_over || done == ReadyStep::Write;

        if started && readiness.is_readable() {
            ReadyStep::Read
        } else if read_over && readiness.is_writable() {
            ReadyStep::Write
        } else if write_over && !self.is_closed() {
            ReadyStep::Reregister
        } else {
            ReadyStep::Done
        }
    }

    /// What to wait for: what the TLS session wants, or else to read.
    pub fn event_set(&self) -> (ready: mio::Ready)
        ensures
            ready_kinds(ready) == interest(self@.session),
            ready_kinds(ready).contains(WRITABLE) <==> pending_tls(self@.session).len() > 0,
            ready_kinds(ready).contains(READABLE) <==> received_plaintext(self@.session).len() == 0
                || pending_tls(self@.session).len() == 0,
    {
        let rd: bool = wants_read(&self.tls_session);
        let wr: bool = wants_write(&self.tls_session);

        if rd && wr {
            let ready: mio::Ready = ready_union(mio::Ready::readable(), mio::Ready::writable());
            assert(ready_kinds(ready) =~= set![READABLE, WRITABLE]);
            ready
        } else if wr {
            mio::Ready::writable()
        } else {
            mio::Ready::readable()
        }
    }

    /// What to register the connection with.
    pub fn register(&self) -> (registration: Registration)
        ensures
            registration.is_for(self@),
            registration.token == self@.token,
            ready_kinds(registration.interest).contains(WRITABLE) <==> pending_tls(
                self@.session,
            ).len() > 0,
            ready_kinds(registration.interest).contains(READABLE) <==> received_plaintext(
                self@.session,
            ).len() == 0 || pending_tls(self@.session).len() == 0,
    {
        Registration {
            token: self.token,
            interest: self.event_set(),
            opts: mio::PollOpt::level(),
        }
    }

    /// What to register the connection with again.
    pub fn reregister(&self) -> (registration: Registration)
        ensures
            registration.is_for(self@),
            registration.token == self@.token,
            ready_kinds(registration.interest).contains(WRITABLE) <==> pending_tls(
                self@.session,
            ).len() > 0,
            ready_kinds(registration.interest).contains(READABLE) <==> received_plaintext(
                self@.session,
            ).len() == 0 || pending_tls(self@.session).len() == 0,
    {
        Registration {
            token: self.token,
            interest: self.event_set(),
            opts: mio::PollOpt::level(),
        }
    }

    pub fn is_closed(&self) -> (closed: bool)
        ensures
            closed == (self@.state == KeServerConnState::Closed),
    {
        self.state == KeServerConnState::Closed
    }

    /// Marks the connection as closed. The transport is shut down by its owner.
    pub fn shutdown(&mut self)
        ensures
            final(self)@ == (ConnView { state: KeServerConnState::Closed, ..old(self)@ }),
    {
        self.state = KeServerConnState::Closed;
    }
}

} // verus!
