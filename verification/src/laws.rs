//! What holds of a connection over its whole life.

use vstd::prelude::*;

use crate::poll::{poll_options, ready_kinds, LEVEL, READABLE, WRITABLE};
use crate::read::{
    listens, outcome_of, plaintext_events, plaintext_handled, read_done, sources_ready,
    state_once_processed, state_once_read, state_once_written, told, Answer, ReadEvent,
    ReadOutcome, ReadTrace,
};
use crate::request::{holds_good_request, law_pieces_do_not_matter, unfinished};
use crate::response::{cookies_for, response_bytes, MasterKey, NTSKeys};
use crate::schedule::{interest, next_step, ReadyStep, Registration};
use crate::state::{ConnView, KeServerConnState};
use crate::tls::{
    accepted_plaintext, arrived, at_eof, buffer_limit, delivered_plaintext, is_broken,
    packets_waiting, pending_tls, received_plaintext, session_config, usable_config, would_block,
};

verus! {

/// How far along a state is.
pub open spec fn rank(state: KeServerConnState) -> int {
    match state {
        KeServerConnState::Connected => 0,
        KeServerConnState::TlsHandshaking => 1,
        KeServerConnState::Opened => 2,
        KeServerConnState::ResponseSent => 3,
        KeServerConnState::Closed => 4,
    }
}

/// The event means that the connection was shut down.
pub open spec fn is_shutdown(event: ReadEvent) -> bool {
    ||| event is ReadFailed
    ||| event is EndOfFile
    ||| event is PacketsRefused
    ||| event is PlaintextFailed
}

/// The transport has moved bytes into or out of the session, and nothing else has happened.
pub open spec fn transport_moved(before: ConnView, after: ConnView) -> bool {
    &&& after == (ConnView { session: after.session, ..before })
    &&& received_plaintext(after.session) == received_plaintext(before.session)
    &&& delivered_plaintext(after.session) == delivered_plaintext(before.session)
    &&& accepted_plaintext(after.session) == accepted_plaintext(before.session)
    &&& buffer_limit(after.session) == buffer_limit(before.session)
    &&& session_config(after.session) == session_config(before.session)
}

/// The connection was shut down.
pub open spec fn was_shut_down(before: ConnView, after: ConnView) -> bool {
    after == (ConnView { state: KeServerConnState::Closed, ..before })
}

/// One thing that can happen to a connection as a whole: a read is carried on, the transport moves
/// bytes, or the connection is shut down, on account of a failed write too.
///
/// The laws about connections at rest speak of reads from their beginning to their end. Plaintext
/// that is handed over by itself is no step, for it need not have come from the session:
/// `law_plaintext_never_goes_back` speaks of it.
pub open spec fn step<G, K, M>(
    before: ConnView,
    after: ConnView,
    gen_key: G,
    latest_key: K,
    make_cookie: M,
) -> bool where
    G: Fn(&rustls::ServerSession) -> NTSKeys,
    K: Fn() -> MasterKey,
    M: Fn(NTSKeys, &MasterKey) -> Vec<u8>,
 {
    ||| exists|outcome: ReadOutcome, trace: ReadTrace, events: Seq<ReadEvent>| #[trigger]
        read_done(before, outcome, trace, after, events, gen_key, latest_key, make_cookie)
    ||| transport_moved(before, after)
    ||| was_shut_down(before, after)
}

/// The bytes are one response: a full set of cookies for one set of keys, all made under one
/// master key, and the port.
pub open spec fn is_response<M: Fn(NTSKeys, &MasterKey) -> Vec<u8>>(
    bytes: Seq<u8>,
    port: u16,
    make_cookie: M,
) -> bool {
    exists|keys: NTSKeys, master: MasterKey, cookies: Seq<Vec<u8>>|
        {
            &&& #[trigger] cookies_for(make_cookie, keys, master, cookies)
            &&& bytes == response_bytes(cookies, port)
        }
}

/// The session was given one response, and the client has sent a good request.
pub open spec fn was_answered<M: Fn(NTSKeys, &MasterKey) -> Vec<u8>>(
    conn: ConnView,
    make_cookie: M,
) -> bool {
    &&& is_response(accepted_plaintext(conn.session), conn.next_port, make_cookie)
    &&& holds_good_request(delivered_plaintext(conn.session))
}

/// What holds of a connection whenever it is at rest. Its session holds no plaintext, has no limit
/// on its buffers and a usable configuration, so that a read can be carried on. Before it is open,
/// the client has sent no plaintext. While it is open, there is no good request in all that the
/// client has sent, the connection has kept what is unfinished of it, and the session was given
/// nothing. If it says that the response is sent, it was answered, and if it is closed, it was
/// answered or the session was given nothing.
pub open spec fn at_rest<M: Fn(NTSKeys, &MasterKey) -> Vec<u8>>(
    conn: ConnView,
    make_cookie: M,
) -> bool {
    let sent = accepted_plaintext(conn.session);
    let delivered = delivered_plaintext(conn.session);
    &&& received_plaintext(conn.session).len() == 0
    &&& buffer_limit(conn.session) == 0
    &&& usable_config(session_config(conn.session))
    &&& match conn.state {
        KeServerConnState::Connected | KeServerConnState::TlsHandshaking => {
            &&& delivered.len() == 0
            &&& conn.request.len() == 0
            &&& sent.len() == 0
        },
        KeServerConnState::Opened => {
            &&& !holds_good_request(delivered)
            &&& conn.request == unfinished(delivered)
            &&& sent.len() == 0
        },
        KeServerConnState::ResponseSent => was_answered(conn, make_cookie),
        KeServerConnState::Closed => sent.len() == 0 || was_answered(conn, make_cookie),
    }
}

/// The life of a connection up to some point: it begins as a new one, and each entry comes from the
/// one before by one step.
pub open spec fn life<G, K, M>(
    run: Seq<ConnView>,
    gen_key: G,
    latest_key: K,
    make_cookie: M,
) -> bool where
    G: Fn(&rustls::ServerSession) -> NTSKeys,
    K: Fn() -> MasterKey,
    M: Fn(NTSKeys, &MasterKey) -> Vec<u8>,
 {
    &&& run.len() > 0
    &&& run[0].state == KeServerConnState::Connected
    &&& received_plaintext(run[0].session).len() == 0
    &&& delivered_plaintext(run[0].session).len() == 0
    &&& run[0].request.len() == 0
    &&& accepted_plaintext(run[0].session).len() == 0
    &&& buffer_limit(run[0].session) == 0
    &&& usable_config(session_config(run[0].session))
    &&& forall|i: int|
        0 < i < run.len() ==> step(
            run[i - 1],
            #[trigger] run[i],
            gen_key,
            latest_key,
            make_cookie,
        )
}

/// Nothing that happens takes a connection back to an earlier state, and its token and port never
/// change. A closed connection stays closed.
pub proof fn law_never_goes_back<G, K, M>(
    before: ConnView,
    after: ConnView,
    gen_key: G,
    latest_key: K,
    make_cookie: M,
) where
    G: Fn(&rustls::ServerSession) -> NTSKeys,
    K: Fn() -> MasterKey,
    M: Fn(NTSKeys, &MasterKey) -> Vec<u8>,

    requires
        step(before, after, gen_key, latest_key, make_cookie),
    ensures
        rank(before.state) <= rank(after.state),
        after.state == KeServerConnState::Connected ==> before.state
            == KeServerConnState::Connected,
        after.state == KeServerConnState::TlsHandshaking ==> before.state
            == KeServerConnState::Connected || before.state == KeServerConnState::TlsHandshaking,
        after.state == KeServerConnState::Opened ==> before.state
            != KeServerConnState::ResponseSent && before.state != KeServerConnState::Closed,
        before.state == KeServerConnState::Closed ==> after.state == KeServerConnState::Closed,
        after.token == before.token,
        after.next_port == before.next_port,
{
}

/// None of the results that a read takes in one by one leads back to an earlier state either: what
/// came of reading from the transport, of processing the packets, of reading out the plaintext,
/// and, on an open connection, of writing the response.
pub proof fn law_parts_never_go_back(
    before: KeServerConnState,
    outcome: ReadOutcome,
    processed: Result<(), rustls::TLSError>,
    read: Result<usize, std::io::Error>,
    written: Result<(), std::io::Error>,
)
    ensures
        rank(before) <= rank(outcome.state(before)),
        rank(before) <= rank(state_once_processed(processed, before)),
        rank(before) <= rank(state_once_read(read, before)),
        before == KeServerConnState::Opened ==> rank(before) <= rank(
            state_once_written(written, before),
        ),
{
}

/// Plaintext that is handed over by itself takes no connection back to an earlier state, and marks
/// one as answered only where the session has taken the whole response.
pub proof fn law_plaintext_never_goes_back<G, K, M>(
    before: ConnView,
    plaintext: Seq<u8>,
    answer: Answer,
    after: ConnView,
    gen_key: G,
    latest_key: K,
    make_cookie: M,
) where
    G: Fn(&rustls::ServerSession) -> NTSKeys,
    K: Fn() -> MasterKey,
    M: Fn(NTSKeys, &MasterKey) -> Vec<u8>,

    requires
        plaintext_handled(before, plaintext, answer, after, gen_key, latest_key, make_cookie),
    ensures
        rank(before.state) <= rank(after.state),
        after.state == KeServerConnState::Connected ==> before.state
            == KeServerConnState::Connected,
        after.state == KeServerConnState::TlsHandshaking ==> before.state
            == KeServerConnState::Connected || before.state == KeServerConnState::TlsHandshaking,
        after.state == KeServerConnState::Opened ==> before.state
            != KeServerConnState::ResponseSent && before.state != KeServerConnState::Closed,
        before.state == KeServerConnState::Closed ==> after.state == KeServerConnState::Closed,
        after.token == before.token,
        after.next_port == before.next_port,
        after.state == KeServerConnState::ResponseSent && before.state
            != KeServerConnState::ResponseSent ==> {
            &&& cookies_for(make_cookie, answer.keys, answer.master, answer.cookies)
            &&& accepted_plaintext(after.session) == accepted_plaintext(before.session)
                + response_bytes(answer.cookies, before.next_port)
        },
{
}

/// A session is given plaintext only as the answer to a good request on a connection that was not
/// answered or closed before, and the connection is then marked as answered, or, where the
/// session did not take the whole response, left open.
pub proof fn law_only_answers_are_sent<G, K, M>(
    before: ConnView,
    after: ConnView,
    gen_key: G,
    latest_key: K,
    make_cookie: M,
) where
    G: Fn(&rustls::ServerSession) -> NTSKeys,
    K: Fn() -> MasterKey,
    M: Fn(NTSKeys, &MasterKey) -> Vec<u8>,

    requires
        step(before, after, gen_key, latest_key, make_cookie),
        accepted_plaintext(after.session) != accepted_plaintext(before.session),
    ensures
        before.state != KeServerConnState::ResponseSent,
        before.state != KeServerConnState::Closed,
        after.state == KeServerConnState::ResponseSent || after.state == KeServerConnState::Opened,
        holds_good_request(before.request + arrived(before.session, after.session)),
{
}

/// A connection that is at rest is at rest after every step.
pub proof fn law_stays_at_rest<G, K, M>(
    before: ConnView,
    after: ConnView,
    gen_key: G,
    latest_key: K,
    make_cookie: M,
) where
    G: Fn(&rustls::ServerSession) -> NTSKeys,
    K: Fn() -> MasterKey,
    M: Fn(NTSKeys, &MasterKey) -> Vec<u8>,

    requires
        at_rest(before, make_cookie),
        step(before, after, gen_key, latest_key, make_cookie),
    ensures
        at_rest(after, make_cookie),
{
    if !transport_moved(before, after) && !was_shut_down(before, after) {
        let (outcome, trace, events) = choose|
            outcome: ReadOutcome,
            trace: ReadTrace,
            events: Seq<ReadEvent>,
        | #[trigger]
            read_done(before, outcome, trace, after, events, gen_key, latest_key, make_cookie);
        if outcome matches ReadOutcome::Received(count) && count > 0 {
            let delivered = delivered_plaintext(before.session);
            let new = arrived(before.session, after.session);
            assert(delivered_plaintext(after.session) =~= delivered + new);
            law_pieces_do_not_matter(delivered, new);
            if before.state == KeServerConnState::Connected || before.state
                == KeServerConnState::TlsHandshaking {
                assert(before.request =~= unfinished(delivered));
            }
            let answer = trace.answer;
            if accepted_plaintext(after.session) != accepted_plaintext(before.session) {
                let bytes = response_bytes(answer.cookies, before.next_port);
                assert(cookies_for(make_cookie, answer.keys, answer.master, answer.cookies));
                assert(accepted_plaintext(after.session) =~= bytes);
                assert(is_response(bytes, before.next_port, make_cookie));
            }
        }
    }
}

/// However long a connection lives, it is at rest after every step: so it gives its session nothing
/// but one response, and until it is closed, it has done so exactly if there is a good request in
/// what the client has sent, however many reads that took.
pub proof fn law_answers_once<G, K, M>(
    run: Seq<ConnView>,
    gen_key: G,
    latest_key: K,
    make_cookie: M,
) where
    G: Fn(&rustls::ServerSession) -> NTSKeys,
    K: Fn() -> MasterKey,
    M: Fn(NTSKeys, &MasterKey) -> Vec<u8>,

    requires
        life(run, gen_key, latest_key, make_cookie),
    ensures
        at_rest(run.last(), make_cookie),
        accepted_plaintext(run.last().session).len() == 0 || was_answered(run.last(), make_cookie),
        run.last().state != KeServerConnState::Closed ==> if holds_good_request(
            delivered_plaintext(run.last().session),
        ) {
            &&& run.last().state == KeServerConnState::ResponseSent
            &&& exists|keys: NTSKeys, master: MasterKey, cookies: Seq<Vec<u8>>|
                {
                    &&& #[trigger] cookies_for(make_cookie, keys, master, cookies)
                    &&& accepted_plaintext(run.last().session) == response_bytes(
                        cookies,
                        run.last().next_port,
                    )
                }
        } else {
            &&& run.last().state != KeServerConnState::ResponseSent
            &&& accepted_plaintext(run.last().session).len() == 0
        },
    decreases run.len(),
{
    if run.len() > 1 {
        let earlier = run.drop_last();
        assert forall|i: int| 0 < i < earlier.len() implies step(
            earlier[i - 1],
            #[trigger] earlier[i],
            gen_key,
            latest_key,
            make_cookie,
        ) by {
            assert(earlier[i] == run[i]);
        }
        law_answers_once(earlier, gen_key, latest_key, make_cookie);
        assert(step(
            run[run.len() - 2],
            run[run.len() - 1],
            gen_key,
            latest_key,
            make_cookie,
        ));
        law_stays_at_rest(earlier.last(), run.last(), gen_key, latest_key, make_cookie);
    }
}

/// A connection at rest always waits to read, and waits to write exactly while its session holds
/// bytes for the transport.
pub proof fn law_always_listens<M: Fn(NTSKeys, &MasterKey) -> Vec<u8>>(
    conn: ConnView,
    make_cookie: M,
)
    requires
        at_rest(conn, make_cookie),
    ensures
        interest(conn.session).contains(READABLE),
        interest(conn.session).contains(WRITABLE) <==> pending_tls(conn.session).len() > 0,
{
}

/// A good request is answered: where a connection that was neither answered nor closed receives
/// packets, its session has neither broken nor reached the end of the client's data after them, and
/// with the plaintext that has arrived there is a good request, the session is given the whole
/// response, after all that it was given before, and the connection is marked as answered.
pub proof fn law_good_request_is_answered<G, K, M>(
    before: ConnView,
    outcome: ReadOutcome,
    trace: ReadTrace,
    after: ConnView,
    events: Seq<ReadEvent>,
    gen_key: G,
    latest_key: K,
    make_cookie: M,
) where
    G: Fn(&rustls::ServerSession) -> NTSKeys,
    K: Fn() -> MasterKey,
    M: Fn(NTSKeys, &MasterKey) -> Vec<u8>,

    requires
        read_done(before, outcome, trace, after, events, gen_key, latest_key, make_cookie),
        outcome matches ReadOutcome::Received(count) && count > 0,
        before.state != KeServerConnState::ResponseSent,
        before.state != KeServerConnState::Closed,
        buffer_limit(before.session) == 0,
        !is_broken(after.session),
        !at_eof(after.session),
        arrived(before.session, after.session).len() > 0,
        holds_good_request(before.request + arrived(before.session, after.session)),
    ensures
        after.state == KeServerConnState::ResponseSent,
        call_ensures(gen_key, (&trace.drained_session,), trace.answer.keys),
        call_ensures(latest_key, (), trace.answer.master),
        cookies_for(make_cookie, trace.answer.keys, trace.answer.master, trace.answer.cookies),
        accepted_plaintext(after.session) == accepted_plaintext(before.session) + response_bytes(
            trace.answer.cookies,
            before.next_port,
        ),
        events == seq![
            ReadEvent::PlaintextRead(arrived(before.session, after.session).len() as usize),
        ],
{
}

/// Plaintext with which there is no good request is not answered: the session is given nothing, and
/// a connection that was not marked as answered is not marked so now. With a session in order,
/// a connection that was neither answered nor closed is left open, and keeps what is unfinished.
pub proof fn law_other_plaintext_is_not_answered<G, K, M>(
    before: ConnView,
    outcome: ReadOutcome,
    trace: ReadTrace,
    after: ConnView,
    events: Seq<ReadEvent>,
    gen_key: G,
    latest_key: K,
    make_cookie: M,
) where
    G: Fn(&rustls::ServerSession) -> NTSKeys,
    K: Fn() -> MasterKey,
    M: Fn(NTSKeys, &MasterKey) -> Vec<u8>,

    requires
        read_done(before, outcome, trace, after, events, gen_key, latest_key, make_cookie),
        outcome matches ReadOutcome::Received(count) && count > 0,
        !holds_good_request(before.request + arrived(before.session, after.session)),
    ensures
        accepted_plaintext(after.session) == accepted_plaintext(before.session),
        after.state == KeServerConnState::ResponseSent ==> before.state
            == KeServerConnState::ResponseSent,
        !is_broken(after.session) && !at_eof(after.session) && arrived(
            before.session,
            after.session,
        ).len() > 0 && before.state != KeServerConnState::ResponseSent && before.state
            != KeServerConnState::Closed ==> {
            &&& after.state == KeServerConnState::Opened
            &&& after.request == unfinished(
                before.request + arrived(before.session, after.session),
            )
        },
{
}

/// A read that received bytes leaves nothing behind: no plaintext is left in the session, and no
/// packet waits to be processed, unless the session is broken.
pub proof fn law_read_leaves_nothing<G, K, M>(
    before: ConnView,
    outcome: ReadOutcome,
    trace: ReadTrace,
    after: ConnView,
    events: Seq<ReadEvent>,
    gen_key: G,
    latest_key: K,
    make_cookie: M,
) where
    G: Fn(&rustls::ServerSession) -> NTSKeys,
    K: Fn() -> MasterKey,
    M: Fn(NTSKeys, &MasterKey) -> Vec<u8>,

    requires
        read_done(before, outcome, trace, after, events, gen_key, latest_key, make_cookie),
        outcome matches ReadOutcome::Received(count) && count > 0,
    ensures
        received_plaintext(after.session).len() == 0,
        !packets_waiting(after.session) || is_broken(after.session),
{
}

/// Where the session is broken after the packets, or the client has finished, the connection is
/// closed and the session is given nothing. A session that was broken stays so.
pub proof fn law_bad_request_closes<G, K, M>(
    before: ConnView,
    outcome: ReadOutcome,
    trace: ReadTrace,
    after: ConnView,
    events: Seq<ReadEvent>,
    gen_key: G,
    latest_key: K,
    make_cookie: M,
) where
    G: Fn(&rustls::ServerSession) -> NTSKeys,
    K: Fn() -> MasterKey,
    M: Fn(NTSKeys, &MasterKey) -> Vec<u8>,

    requires
        read_done(before, outcome, trace, after, events, gen_key, latest_key, make_cookie),
        outcome matches ReadOutcome::Received(count) && count > 0,
    ensures
        is_broken(after.session) || at_eof(after.session) ==> {
            &&& after.state == KeServerConnState::Closed
            &&& accepted_plaintext(after.session) == accepted_plaintext(before.session)
        },
        is_broken(before.session) ==> is_broken(after.session),
{
}

/// After a read has begun, the connection is no longer in its first state.
pub proof fn law_read_starts_the_handshake<G, K, M>(
    before: ConnView,
    outcome: ReadOutcome,
    trace: ReadTrace,
    after: ConnView,
    events: Seq<ReadEvent>,
    gen_key: G,
    latest_key: K,
    make_cookie: M,
) where
    G: Fn(&rustls::ServerSession) -> NTSKeys,
    K: Fn() -> MasterKey,
    M: Fn(NTSKeys, &MasterKey) -> Vec<u8>,

    requires
        read_done(before, outcome, trace, after, events, gen_key, latest_key, make_cookie),
    ensures
        after.state != KeServerConnState::Connected,
{
}

/// A read has an event that means a shutdown only if it leaves the connection closed, and it never
/// closes a connection without such an event.
pub proof fn law_shutdown_is_an_event<G, K, M>(
    before: ConnView,
    outcome: ReadOutcome,
    trace: ReadTrace,
    after: ConnView,
    events: Seq<ReadEvent>,
    gen_key: G,
    latest_key: K,
    make_cookie: M,
) where
    G: Fn(&rustls::ServerSession) -> NTSKeys,
    K: Fn() -> MasterKey,
    M: Fn(NTSKeys, &MasterKey) -> Vec<u8>,

    requires
        read_done(before, outcome, trace, after, events, gen_key, latest_key, make_cookie),
    ensures
        (exists|i: int| 0 <= i < events.len() && #[trigger] is_shutdown(events[i]))
            ==> after.state == KeServerConnState::Closed,
        before.state != KeServerConnState::Closed && after.state == KeServerConnState::Closed
            ==> exists|i: int| 0 <= i < events.len() && #[trigger] is_shutdown(events[i]),
{
    if before.state != KeServerConnState::Closed && after.state == KeServerConnState::Closed {
        if trace.processed is Err || !(outcome is Received) {
            assert(is_shutdown(events[0]));
        }
        assert(is_shutdown(events[0]) || is_shutdown(events[events.len() - 1]));
    }
}

/// How far along a step is.
pub open spec fn step_rank(done: ReadyStep) -> int {
    match done {
        ReadyStep::Start => 0,
        ReadyStep::Read => 1,
        ReadyStep::Write => 2,
        ReadyStep::Reregister => 3,
        ReadyStep::Done => 4,
    }
}

/// The steps that follow `done`, where `closed` tells whether the connection is closed once a
/// step is done.
pub open spec fn steps_after(
    kinds: Set<usize>,
    done: ReadyStep,
    closed: spec_fn(ReadyStep) -> bool,
) -> Seq<ReadyStep>
    decreases 4 - step_rank(done),
{
    let next = next_step(kinds, done, closed(done));
    if next == ReadyStep::Done {
        seq![]
    } else {
        seq![next] + steps_after(kinds, next, closed)
    }
}

/// The steps of `kinds` that move bytes: reading before writing.
pub open spec fn transfer_steps(kinds: Set<usize>) -> Seq<ReadyStep> {
    (if kinds.contains(READABLE) {
        seq![ReadyStep::Read]
    } else {
        seq![]
    }) + (if kinds.contains(WRITABLE) {
        seq![ReadyStep::Write]
    } else {
        seq![]
    })
}

/// Handling a ready connection reads if it is readable, then writes if it is writable, and
/// registers it again exactly if it is not closed after that.
pub proof fn law_ready_order(kinds: Set<usize>, closed: spec_fn(ReadyStep) -> bool)
    ensures
        ({
            let moved = transfer_steps(kinds);
            let last = if moved.len() == 0 {
                ReadyStep::Start
            } else {
                moved.last()
            };
            steps_after(kinds, ReadyStep::Start, closed) == if closed(last) {
                moved
            } else {
                moved.push(ReadyStep::Reregister)
            }
        }),
{
    reveal_with_fuel(steps_after, 4);
    let moved = transfer_steps(kinds);
    let last = if moved.len() == 0 {
        ReadyStep::Start
    } else {
        moved.last()
    };
    assert(steps_after(kinds, ReadyStep::Start, closed) =~= if closed(last) {
        moved
    } else {
        moved.push(ReadyStep::Reregister)
    });
}

/// A result of reading from the transport is taken for what it is: bytes that came are bytes that
/// came, also if there are none, and only an error that would block means that there is nothing to
/// read now. Every other error is a failure.
pub proof fn law_outcome_tells_the_result(result: Result<usize, std::io::Error>)
    ensures
        forall|count: usize|
            result == Ok::<usize, std::io::Error>(count) <==> #[trigger] outcome_of(result)
                == ReadOutcome::Received(count),
        outcome_of(result) is WouldBlock <==> result is Err && would_block(result->Err_0),
        outcome_of(result) is Failed <==> result is Err && !would_block(result->Err_0),
        outcome_of(result) is Failed ==> outcome_of(result)->Failed_0 == result->Err_0,
{
}

/// The end of the client's stream closes the connection, in whatever state it was, and is the one
/// event of the read. Nothing else changes.
pub proof fn law_end_of_stream_closes<G, K, M>(
    before: ConnView,
    outcome: ReadOutcome,
    trace: ReadTrace,
    after: ConnView,
    events: Seq<ReadEvent>,
    gen_key: G,
    latest_key: K,
    make_cookie: M,
) where
    G: Fn(&rustls::ServerSession) -> NTSKeys,
    K: Fn() -> MasterKey,
    M: Fn(NTSKeys, &MasterKey) -> Vec<u8>,

    requires
        outcome == outcome_of(Ok(0)) || outcome == ReadOutcome::Received(0),
        read_done(before, outcome, trace, after, events, gen_key, latest_key, make_cookie),
    ensures
        after.state == KeServerConnState::Closed,
        events.len() == 1,
        events[0] == ReadEvent::EndOfFile,
        after.session == before.session,
        after.request == before.request,
{
}

/// A failure of the transport closes the connection, in whatever state it was, and is the one event
/// of the read. Nothing else changes.
pub proof fn law_transport_failure_closes<G, K, M>(
    before: ConnView,
    error: std::io::Error,
    outcome: ReadOutcome,
    trace: ReadTrace,
    after: ConnView,
    events: Seq<ReadEvent>,
    gen_key: G,
    latest_key: K,
    make_cookie: M,
) where
    G: Fn(&rustls::ServerSession) -> NTSKeys,
    K: Fn() -> MasterKey,
    M: Fn(NTSKeys, &MasterKey) -> Vec<u8>,

    requires
        outcome == ReadOutcome::Failed(error) || (!would_block(error) && outcome == outcome_of(
            Err(error),
        )),
        read_done(before, outcome, trace, after, events, gen_key, latest_key, make_cookie),
    ensures
        after.state == KeServerConnState::Closed,
        events.len() == 1,
        events[0] == ReadEvent::ReadFailed(error),
        after.session == before.session,
        after.request == before.request,
{
}

/// Where there is nothing to read now, a connection that was just connected is taken to have begun
/// its handshake, and nothing else happens.
pub proof fn law_nothing_to_read_changes_nothing<G, K, M>(
    before: ConnView,
    error: std::io::Error,
    outcome: ReadOutcome,
    trace: ReadTrace,
    after: ConnView,
    events: Seq<ReadEvent>,
    gen_key: G,
    latest_key: K,
    make_cookie: M,
) where
    G: Fn(&rustls::ServerSession) -> NTSKeys,
    K: Fn() -> MasterKey,
    M: Fn(NTSKeys, &MasterKey) -> Vec<u8>,

    requires
        outcome == ReadOutcome::WouldBlock || (would_block(error) && outcome == outcome_of(
            Err(error),
        )),
        read_done(before, outcome, trace, after, events, gen_key, latest_key, make_cookie),
    ensures
        before.state == KeServerConnState::Connected ==> after.state
            == KeServerConnState::TlsHandshaking,
        before.state != KeServerConnState::Connected ==> after.state == before.state,
        events.len() == 0,
        after.session == before.session,
        after.request == before.request,
{
}

/// Once bytes have come, the events tell all that happened, in order. A broken session comes first.
/// Then comes the end of the client's data, or the count of the plaintext, if there is any. A
/// response that was not taken comes last, and only where the buffers of the session are limited.
pub proof fn law_events_tell_what_happened<G, K, M>(
    before: ConnView,
    count: usize,
    trace: ReadTrace,
    after: ConnView,
    events: Seq<ReadEvent>,
    gen_key: G,
    latest_key: K,
    make_cookie: M,
) where
    G: Fn(&rustls::ServerSession) -> NTSKeys,
    K: Fn() -> MasterKey,
    M: Fn(NTSKeys, &MasterKey) -> Vec<u8>,

    requires
        count > 0,
        read_done(
            before,
            ReadOutcome::Received(count),
            trace,
            after,
            events,
            gen_key,
            latest_key,
            make_cookie,
        ),
    ensures
        ({
            let first: int = if is_broken(after.session) {
                1
            } else {
                0
            };
            let new = received_plaintext(before.session) + delivered_plaintext(after.session).skip(
                delivered_plaintext(before.session).len() as int,
            );
            &&& is_broken(after.session) ==> events.len() > 0 && events[0]
                is PacketsRefused
            &&& at_eof(after.session) ==> events.len() == first + 1 && events[first]
                is PlaintextFailed
            &&& !at_eof(after.session) && new.len() == 0 ==> events.len() == first
            &&& !at_eof(after.session) && new.len() > 0 ==> {
                &&& first + 1 <= events.len() <= first + 2
                &&& events[first] == ReadEvent::PlaintextRead(new.len() as usize)
                &&& events.len() == first + 2 ==> {
                    &&& events[first + 1] is ResponseFailed
                    &&& buffer_limit(before.session) > 0
                    &&& after.state == KeServerConnState::Opened
                }
            }
        }),
{
}

/// Packets without plaintext, from a client that has not finished, to a session that stays in
/// order, begin or go on with the handshake and change nothing else of the connection.
pub proof fn law_handshake_goes_on<G, K, M>(
    before: ConnView,
    count: usize,
    trace: ReadTrace,
    after: ConnView,
    events: Seq<ReadEvent>,
    gen_key: G,
    latest_key: K,
    make_cookie: M,
) where
    G: Fn(&rustls::ServerSession) -> NTSKeys,
    K: Fn() -> MasterKey,
    M: Fn(NTSKeys, &MasterKey) -> Vec<u8>,

    requires
        count > 0,
        read_done(
            before,
            ReadOutcome::Received(count),
            trace,
            after,
            events,
            gen_key,
            latest_key,
            make_cookie,
        ),
        !is_broken(after.session),
        !at_eof(after.session),
        received_plaintext(before.session).len() == 0,
        delivered_plaintext(after.session) == delivered_plaintext(before.session),
    ensures
        before.state == KeServerConnState::Connected ==> after.state
            == KeServerConnState::TlsHandshaking,
        before.state != KeServerConnState::Connected ==> after.state == before.state,
        after.request == before.request,
        accepted_plaintext(after.session) == accepted_plaintext(before.session),
{
    assert(trace.plaintext() =~= seq![]);
}

/// A connection that was answered or closed takes in packets, but never answers again: it stays as
/// it is, or is closed.
pub proof fn law_answered_connection_is_done<G, K, M>(
    before: ConnView,
    outcome: ReadOutcome,
    trace: ReadTrace,
    after: ConnView,
    events: Seq<ReadEvent>,
    gen_key: G,
    latest_key: K,
    make_cookie: M,
) where
    G: Fn(&rustls::ServerSession) -> NTSKeys,
    K: Fn() -> MasterKey,
    M: Fn(NTSKeys, &MasterKey) -> Vec<u8>,

    requires
        before.state == KeServerConnState::ResponseSent || before.state
            == KeServerConnState::Closed,
        read_done(before, outcome, trace, after, events, gen_key, latest_key, make_cookie),
    ensures
        after.state == before.state || after.state == KeServerConnState::Closed,
        accepted_plaintext(after.session) == accepted_plaintext(before.session),
        after.request == before.request,
{
}

/// Plaintext that is handed over by itself is answered exactly if the connection is doing its
/// handshake or is open, and there is a good request in it, together with what was kept. Whatever
/// it is, the keys are those of the session. An answer is written once, after all that was written
/// before, and marks the connection as answered if the session has taken it. Without an answer the
/// session is left alone, and what is unfinished is kept.
pub proof fn law_plaintext_is_answered<G, K, M>(
    before: ConnView,
    plaintext: Seq<u8>,
    answer: Answer,
    after: ConnView,
    gen_key: G,
    latest_key: K,
    make_cookie: M,
) where
    G: Fn(&rustls::ServerSession) -> NTSKeys,
    K: Fn() -> MasterKey,
    M: Fn(NTSKeys, &MasterKey) -> Vec<u8>,

    requires
        plaintext_handled(before, plaintext, answer, after, gen_key, latest_key, make_cookie),
    ensures
        call_ensures(gen_key, (&before.session,), answer.keys),
        ({
            let open = before.state == KeServerConnState::TlsHandshaking || before.state
                == KeServerConnState::Opened;
            let answered = open && holds_good_request(before.request + plaintext);
            let events = plaintext_events(before, plaintext, answer);
            let all = accepted_plaintext(before.session) + response_bytes(
                answer.cookies,
                before.next_port,
            );
            &&& events.len() == if answered && answer.written is Err {
                2int
            } else {
                1
            }
            &&& events[0] == ReadEvent::PlaintextRead(plaintext.len() as usize)
            &&& answered && answer.written is Err ==> events[1] == ReadEvent::ResponseFailed(
                answer.written->Err_0,
            )
            &&& answered ==> {
                &&& call_ensures(latest_key, (), answer.master)
                &&& cookies_for(make_cookie, answer.keys, answer.master, answer.cookies)
                &&& buffer_limit(before.session) == 0 ==> answer.written is Ok
                &&& answer.written is Ok ==> {
                    &&& after.state == KeServerConnState::ResponseSent
                    &&& accepted_plaintext(after.session) == all
                }
                &&& answer.written is Err ==> after.state == KeServerConnState::Opened
                &&& after.request.len() == 0
            }
            &&& !answered ==> after.session == before.session
            &&& !answered && open ==> {
                &&& after.state == KeServerConnState::Opened
                &&& after.request == unfinished(before.request + plaintext)
            }
            &&& !open ==> after == before
        }),
{
}

/// Where each result that a read takes in leads from each state.
pub proof fn law_results_lead_on(
    before: KeServerConnState,
    outcome: ReadOutcome,
    processed: Result<(), rustls::TLSError>,
    read: Result<usize, std::io::Error>,
    written: Result<(), std::io::Error>,
)
    ensures
        outcome is Failed || outcome == ReadOutcome::Received(0) ==> outcome.state(before)
            == KeServerConnState::Closed,
        !(outcome is Failed) && outcome != ReadOutcome::Received(0) ==> {
            &&& before == KeServerConnState::Connected ==> outcome.state(before)
                == KeServerConnState::TlsHandshaking
            &&& before != KeServerConnState::Connected ==> outcome.state(before) == before
        },
        outcome == ReadOutcome::Received(0) ==> outcome.event() == Some(ReadEvent::EndOfFile),
        outcome matches ReadOutcome::Failed(error) ==> outcome.event() == Some(
            ReadEvent::ReadFailed(error),
        ),
        !(outcome is Failed) && outcome != ReadOutcome::Received(0) ==> outcome.event() is None,
        processed is Err ==> state_once_processed(processed, before) == KeServerConnState::Closed,
        processed is Ok ==> state_once_processed(processed, before) == before,
        read is Err ==> state_once_read(read, before) == KeServerConnState::Closed,
        read matches Ok(n) && n > 0 && before == KeServerConnState::TlsHandshaking
            ==> state_once_read(read, before) == KeServerConnState::Opened,
        read matches Ok(n) && (n == 0 || before != KeServerConnState::TlsHandshaking)
            ==> state_once_read(read, before) == before,
        written is Ok ==> state_once_written(written, before) == KeServerConnState::ResponseSent,
        written is Err ==> state_once_written(written, before) == before,
{
}

/// To have told of events is to have been called with each of them, and anything that can be called
/// with any event can be told.
pub proof fn law_every_event_is_told<R: Fn(&ReadEvent)>(report: R, events: Seq<ReadEvent>)
    ensures
        told(report, events) <==> forall|i: int|
            0 <= i < events.len() ==> call_ensures(report, (&#[trigger] events[i],), ()),
        listens(report) <==> forall|event: &ReadEvent| #[trigger] call_requires(report, (event,)),
{
}

/// A read can be carried on with anything that can be called to derive keys from any session, to
/// give the latest key, and to make cookies.
pub proof fn law_any_sources_will_do<G, K, M>(
    gen_key: G,
    latest_key: K,
    make_cookie: M,
) where
    G: Fn(&rustls::ServerSession) -> NTSKeys,
    K: Fn() -> MasterKey,
    M: Fn(NTSKeys, &MasterKey) -> Vec<u8>,

    requires
        forall|session: &rustls::ServerSession| #[trigger] call_requires(gen_key, (session,)),
        call_requires(latest_key, ()),
        forall|keys: NTSKeys, master: &MasterKey| #[trigger]
            call_requires(make_cookie, (keys, master)),
        forall|keys: NTSKeys, master: &MasterKey, cookie: Vec<u8>| #[trigger]
            call_ensures(make_cookie, (keys, master), cookie) ==> cookie@.len() <= 65535,
    ensures
        sources_ready(gen_key, latest_key, make_cookie),
{
}

/// A session is waited on to write exactly while it holds bytes for the transport, and to read
/// exactly while it holds no plaintext, or has nothing to write. There is nothing else to wait for.
pub proof fn law_waits_for_what_is_pending(session: rustls::ServerSession)
    ensures
        interest(session).contains(WRITABLE) <==> pending_tls(session).len() > 0,
        interest(session).contains(READABLE) <==> received_plaintext(session).len() == 0
            || pending_tls(session).len() == 0,
        forall|kind: usize| #[trigger]
            interest(session).contains(kind) ==> kind == READABLE || kind == WRITABLE,
{
}

/// A connection is registered under its token, level triggered, for what its session has pending.
/// Any two registrations of it agree, with each other and with the readiness set to wait for.
pub proof fn law_registration_waits_for_what_is_pending(
    registration: Registration,
    again: Registration,
    ready: mio::Ready,
    conn: ConnView,
)
    requires
        registration.is_for(conn),
        again.is_for(conn),
        ready_kinds(ready) == interest(conn.session),
    ensures
        registration.token == conn.token,
        ready_kinds(registration.interest).contains(WRITABLE) <==> pending_tls(conn.session).len()
            > 0,
        ready_kinds(registration.interest).contains(READABLE) <==> received_plaintext(
            conn.session,
        ).len() == 0 || pending_tls(conn.session).len() == 0,
        ready_kinds(registration.interest) == ready_kinds(ready),
        ready_kinds(registration.interest) == ready_kinds(again.interest),
        poll_options(registration.opts) == set![LEVEL],
{
}

/// After each step comes the next that is due, and no other. Reading is first, and due if the
/// connection is readable. Writing is next, and due if it is writable, whether or not the
/// connection was closed by the read. Registering again is last, and due if the connection is not
/// closed.
pub proof fn law_next_step_is_due(kinds: Set<usize>, done: ReadyStep, closed: bool)
    ensures
        ({
            let next = next_step(kinds, done, closed);
            let readable = kinds.contains(READABLE);
            let writable = kinds.contains(WRITABLE);
            let started = done == ReadyStep::Start;
            let read = done == ReadyStep::Read || started && !readable;
            let written = done == ReadyStep::Write || read && !writable;
            &&& next == ReadyStep::Read <==> started && readable
            &&& next == ReadyStep::Write <==> read && writable
            &&& next == ReadyStep::Reregister <==> written && !closed
            &&& next != ReadyStep::Start
        }),
{
}

} // verus!
