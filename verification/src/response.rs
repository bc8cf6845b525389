//! The response that answers a key establishment request.

use vstd::prelude::*;

use crate::framing::{law_response_hands_out_every_cookie, parse_records};
use crate::record::{
    serialize_record, u16_bytes, write_u16, NtsKeRecord, NtsKeType, RecordView, MAX_CONTENTS,
};

verus! {

/// How many cookies a response carries.
pub const COOKIE_COUNT: usize = 7;

/// The protocol that a response names: NTPv4.
pub const NEXT_PROTOCOL: u16 = 0;

/// The algorithm that a response names: AEAD_AES_SIV_CMAC_256.
pub const AEAD_ALGORITHM: u16 = 15;

/// The keys of one association: client to server and server to client.
#[derive(Clone, Copy, Debug, PartialEq, Eq)]
pub struct NTSKeys {
    pub c2s: [u8; 32],
    pub s2c: [u8; 32],
}

/// A key that cookies are sealed under, with the identifier that finds it again.
#[derive(Clone, Debug, PartialEq, Eq)]
pub struct MasterKey {
    pub key_id: u32,
    pub key: Vec<u8>,
}

/// The records that open a response: the protocol, and the algorithm.
pub open spec fn opening_records() -> Seq<RecordView> {
    seq![
        RecordView {
            critical: true,
            number: NtsKeType::NextProtocolNegotiation.number(),
            contents: u16_bytes(NEXT_PROTOCOL),
        },
        RecordView {
            critical: false,
            number: NtsKeType::AEADAlgorithmNegotiation.number(),
            contents: u16_bytes(AEAD_ALGORITHM),
        },
    ]
}

/// The record that hands out one cookie.
pub open spec fn cookie_record(cookie: Seq<u8>) -> RecordView {
    RecordView { critical: false, number: NtsKeType::NewCookie.number(), contents: cookie }
}

/// One record for each cookie, in the order of the cookies.
pub open spec fn cookie_records(cookies: Seq<Vec<u8>>) -> Seq<RecordView> {
    Seq::new(cookies.len(), |i: int| cookie_record(cookies[i]@))
}

/// The records that close a response: the port of the time server, and the end of the message.
pub open spec fn closing_records(port: u16) -> Seq<RecordView> {
    seq![
        RecordView {
            critical: false,
            number: NtsKeType::PortNegotiation.number(),
            contents: u16_bytes(port),
        },
        RecordView {
            critical: true,
            number: NtsKeType::EndOfMessage.number(),
            contents: seq![],
        },
    ]
}

/// All the records of a response, in order.
pub open spec fn response_records(cookies: Seq<Vec<u8>>, port: u16) -> Seq<RecordView> {
    opening_records() + cookie_records(cookies) + closing_records(port)
}

/// Records on the wire, one after the other.
pub open spec fn records_bytes(records: Seq<RecordView>) -> Seq<u8>
    decreases records.len(),
{
    if records.len() == 0 {
        seq![]
    } else {
        records_bytes(records.drop_last()) + records.last().bytes()
    }
}

/// A response on the wire.
pub open spec fn response_bytes(cookies: Seq<Vec<u8>>, port: u16) -> Seq<u8> {
    records_bytes(response_records(cookies, port))
}

/// Every cookie fits in a record.
pub open spec fn cookies_fit(cookies: Seq<Vec<u8>>) -> bool {
    forall|i: int| 0 <= i < cookies.len() ==> (#[trigger] cookies[i])@.len() <= MAX_CONTENTS
}

/// `make_cookie` can be called with any keys, and every cookie that it makes fits in a record.
pub open spec fn makes_cookies<M: Fn(NTSKeys, &MasterKey) -> Vec<u8>>(make_cookie: M) -> bool {
    &&& forall|keys: NTSKeys, master: &MasterKey| #[trigger]
        call_requires(make_cookie, (keys, master))
    &&& forall|keys: NTSKeys, master: &MasterKey, cookie: Vec<u8>| #[trigger]
        call_ensures(make_cookie, (keys, master), cookie) ==> cookie@.len() <= MAX_CONTENTS
}

/// A full set of cookies, each of them one that `make_cookie` may give for `keys` under `master`.
pub open spec fn cookies_for<M: Fn(NTSKeys, &MasterKey) -> Vec<u8>>(
    make_cookie: M,
    keys: NTSKeys,
    master: MasterKey,
    cookies: Seq<Vec<u8>>,
) -> bool {
    &&& cookies.len() == COOKIE_COUNT
    &&& forall|i: int|
        0 <= i < cookies.len() ==> call_ensures(
            make_cookie,
            (keys, &master),
            #[trigger] cookies[i],
        )
}

/// Appends the record to `out`.
fn append_record(out: &mut Vec<u8>, rec: &NtsKeRecord, Ghost(before): Ghost<Seq<RecordView>>)
    requires
        old(out)@ == records_bytes(before),
        rec.contents@.len() <= MAX_CONTENTS,
    ensures
        final(out)@ == records_bytes(before.push(rec@)),
{
    let mut bytes: Vec<u8> = serialize_record(rec);
    out.append(&mut bytes);
    assert(before.push(rec@).drop_last() =~= before);
}

/// Builds the response that hands out `cookies` and names `port`.
pub fn assemble_response(cookies: &Vec<Vec<u8>>, port: u16) -> (out: Vec<u8>)
    requires
        cookies_fit(cookies@),
    ensures
        out@ == response_bytes(cookies@, port),
        parse_records(out@) matches Some(records) && records.len() == cookies@.len() + 4,
        forall|i: int|
            0 <= i < cookies@.len() ==> parse_records(out@)->0[2 + i].contents
                == (#[trigger] cookies@[i])@,
{
    let mut out: Vec<u8> = Vec::new();
    let ghost mut done: Seq<RecordView> = seq![];

    let next_proto = NtsKeRecord {
        critical: true,
        record_type: NtsKeType::NextProtocolNegotiation,
        contents: vec![0, 0],
    };
    assert(next_proto@ =~= opening_records()[0]);
    append_record(&mut out, &next_proto, Ghost(done));
    proof {
        done = done.push(next_proto@);
    }

    let aead_rec = NtsKeRecord {
        critical: false,
        record_type: NtsKeType::AEADAlgorithmNegotiation,
        contents: vec![0, 15],
    };
    assert(aead_rec@ =~= opening_records()[1]);
    append_record(&mut out, &aead_rec, Ghost(done));
    proof {
        done = done.push(aead_rec@);
        assert(done =~= opening_records() + cookie_records(cookies@.take(0)));
    }

    let mut i: usize = 0;
    while i < cookies.len()
        invariant
            i <= cookies@.len(),
            cookies_fit(cookies@),
            done == opening_records() + cookie_records(cookies@.take(i as int)),
            out@ == records_bytes(done),
        decreases cookies@.len() - i,
    {
        let cookie_rec = NtsKeRecord {
            critical: false,
            record_type: NtsKeType::NewCookie,
            contents: copy_bytes(&cookies[i]),
        };
        assert(cookie_rec@ =~= cookie_record(cookies@[i as int]@));
        append_record(&mut out, &cookie_rec, Ghost(done));
        proof {
            done = done.push(cookie_rec@);
            assert(done =~= opening_records() + cookie_records(cookies@.take(i + 1)));
        }
        i = i + 1;
    }
    assert(cookies@.take(i as int) =~= cookies@);

    let mut port_rec = NtsKeRecord {
        critical: false,
        record_type: NtsKeType::PortNegotiation,
        contents: vec![],
    };
    write_u16(&mut port_rec.contents, port);
    assert(port_rec@ =~= closing_records(port)[0]);
    append_record(&mut out, &port_rec, Ghost(done));
    proof {
        done = done.push(port_rec@);
    }

    let end_rec = NtsKeRecord {
        critical: true,
        record_type: NtsKeType::EndOfMessage,
        contents: vec![],
    };
    assert(end_rec@ =~= closing_records(port)[1]);
    append_record(&mut out, &end_rec, Ghost(done));
    proof {
        done = done.push(end_rec@);
        assert(done =~= response_records(cookies@, port));
        law_response_hands_out_every_cookie(cookies@, port);
    }
    out
}

fn copy_bytes(bytes: &Vec<u8>) -> (copy: Vec<u8>)
    ensures
        copy@ == bytes@,
{
    let mut copy: Vec<u8> = Vec::new();
    copy.extend_from_slice(bytes.as_slice());
    assert(copy@ =~= bytes@);
    copy
}

/// Computes the response sent to the client: a full set of cookies for `keys`, all of them made
/// under `master`, and the port of the time server. That no two cookies are the same is left to
/// `make_cookie`.
pub fn response<M: Fn(NTSKeys, &MasterKey) -> Vec<u8>>(
    keys: NTSKeys,
    master: &MasterKey,
    port: &u16,
    make_cookie: &M,
) -> (out: Vec<u8>)
    requires
        makes_cookies(*make_cookie),
    ensures
        exists|cookies: Seq<Vec<u8>>|
            {
                &&& #[trigger] cookies_for(*make_cookie, keys, *master, cookies)
                &&& out@ == response_bytes(cookies, *port)
            },
        parse_records(out@) matches Some(records) && records.len() == 11,
{
    let mut cookies: Vec<Vec<u8>> = Vec::new();
    let mut i: usize = 0;
    while i < COOKIE_COUNT
        invariant
            i <= COOKIE_COUNT,
            cookies@.len() == i,
            makes_cookies(*make_cookie),
            cookies_fit(cookies@),
            forall|j: int|
                0 <= j < cookies@.len() ==> call_ensures(
                    *make_cookie,
                    (keys, master),
                    #[trigger] cookies@[j],
                ),
        decreases COOKIE_COUNT - i,
    {
        let cookie: Vec<u8> = make_cookie(keys, master);
        cookies.push(cookie);
        i = i + 1;
    }
    let out: Vec<u8> = assemble_response(&cookies, *port);
    assert(cookies_for(*make_cookie, keys, *master, cookies@));
    out
}

} // verus!
