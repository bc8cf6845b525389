//! Reading records back from the wire.

use vstd::prelude::*;

use crate::record::{u16_bytes, NtsKeRecord, NtsKeType, RecordView, CRITICAL_BIT};
use crate::response::{
    closing_records, cookie_record, cookie_records, cookies_fit, cookies_for, makes_cookies,
    opening_records, records_bytes, response_bytes, response_records, MasterKey, NTSKeys,
};

verus! {

/// The number that two bytes stand for in network byte order.
pub open spec fn u16_value(high: u8, low: u8) -> nat {
    (high * 256 + low) as nat
}

/// The record at the start of `bytes` and what follows it, if there is a whole record.
pub open spec fn parse_record(bytes: Seq<u8>) -> Option<(RecordView, Seq<u8>)> {
    if bytes.len() < 4 {
        None
    } else {
        let field = u16_value(bytes[0], bytes[1]);
        let end = 4 + u16_value(bytes[2], bytes[3]);
        if bytes.len() < end {
            None
        } else {
            Some(
                (
                    RecordView {
                        critical: field >= CRITICAL_BIT,
                        number: (field % (CRITICAL_BIT as nat)) as u16,
                        contents: bytes.subrange(4, end as int),
                    },
                    bytes.skip(end as int),
                ),
            )
        }
    }
}

/// The records that `bytes` consists of, if it consists of whole records.
pub open spec fn parse_records(bytes: Seq<u8>) -> Option<Seq<RecordView>>
    decreases bytes.len(),
{
    if bytes.len() == 0 {
        Some(seq![])
    } else {
        match parse_record(bytes) {
            None => None,
            Some((record, rest)) => match parse_records(rest) {
                None => None,
                Some(records) => Some(seq![record] + records),
            },
        }
    }
}

/// Whatever follows a record on the wire, the record is read back as it was written.
pub proof fn law_record_is_read_back(record: RecordView, rest: Seq<u8>)
    requires
        record.encodable(),
    ensures
        parse_record(record.bytes() + rest) == Some((record, rest)),
{
    let bytes = record.bytes() + rest;
    let len = record.contents.len() as u16;
    let field = record.type_field();
    assert(bytes[0] == (field / 256) as u8);
    assert(bytes[1] == (field % 256) as u8);
    assert(bytes[2] == (len / 256) as u8);
    assert(bytes[3] == (len % 256) as u8);
    assert(u16_value(bytes[0], bytes[1]) == field);
    assert(u16_value(bytes[2], bytes[3]) == len);
    assert(bytes.subrange(4, 4 + len) =~= record.contents);
    assert(bytes.skip(4 + len) =~= rest);
}

/// Records on the wire begin with the first of them.
pub proof fn lemma_first_record_first(records: Seq<RecordView>)
    requires
        records.len() > 0,
    ensures
        records_bytes(records) == records[0].bytes() + records_bytes(records.drop_first()),
    decreases records.len(),
{
    if records.len() == 1 {
        assert(records.drop_last() =~= seq![]);
        assert(records.drop_first() =~= seq![]);
        assert(records_bytes(records.drop_last()) =~= seq![]);
        assert(records_bytes(records) =~= records[0].bytes() + records_bytes(
            records.drop_first(),
        ));
    } else {
        lemma_first_record_first(records.drop_last());
        assert(records.drop_last().drop_first() =~= records.drop_first().drop_last());
        assert(records_bytes(records) =~= records[0].bytes() + records_bytes(
            records.drop_first(),
        ));
    }
}

/// Records that are written one after the other are read back as they were written.
pub proof fn law_records_are_read_back(records: Seq<RecordView>)
    requires
        forall|i: int| 0 <= i < records.len() ==> (#[trigger] records[i]).encodable(),
    ensures
        parse_records(records_bytes(records)) == Some(records),
    decreases records.len(),
{
    if records.len() == 0 {
        assert(records =~= seq![]);
    } else {
        let rest = records.drop_first();
        lemma_first_record_first(records);
        law_record_is_read_back(records[0], records_bytes(rest));
        law_records_are_read_back(rest);
        assert(seq![records[0]] + rest =~= records);
    }
}

/// A client that reads a response finds its records: the protocol and the algorithm, every cookie
/// in order, the port, and the end of the message.
pub proof fn law_response_is_read_back(cookies: Seq<Vec<u8>>, port: u16)
    requires
        cookies_fit(cookies),
    ensures
        parse_records(response_bytes(cookies, port)) == Some(response_records(cookies, port)),
{
    let records = response_records(cookies, port);
    assert forall|i: int| 0 <= i < records.len() implies (#[trigger] records[i]).encodable() by {
        let first = opening_records().len();
        if i < first {
            assert(records[i] == opening_records()[i]);
        } else if i < first + cookies.len() {
            assert(records[i] == cookie_records(cookies)[i - first]);
            assert(cookies[i - first]@.len() <= 65535);
        } else {
            assert(records[i] == closing_records(port)[i - first - cookies.len()]);
        }
    }
    law_records_are_read_back(records);
}

/// A record on the wire is two numbers in network byte order and the body. The first number is that
/// of the type, with the highest bit set if the record is critical. The second is the length of the
/// body.
pub proof fn law_record_on_the_wire(record: RecordView)
    requires
        record.number < 32768,
        record.contents.len() <= 65535,
    ensures
        record.bytes().len() == 4 + record.contents.len(),
        record.bytes()[0] * 256 + record.bytes()[1] == record.number + if record.critical {
            32768int
        } else {
            0
        },
        record.bytes()[2] * 256 + record.bytes()[3] == record.contents.len(),
        record.bytes().skip(4) == record.contents,
{
    assert(record.bytes().skip(4) =~= record.contents);
}

/// A record is serialized with its own body and critical bit, and with the number that is assigned
/// to its type.
pub proof fn law_record_says_what_it_holds(record: NtsKeRecord)
    ensures
        record@.critical == record.critical,
        record@.contents == record.contents@,
        record@.number == match record.record_type {
            NtsKeType::EndOfMessage => 0,
            NtsKeType::NextProtocolNegotiation => 1,
            NtsKeType::AEADAlgorithmNegotiation => 4,
            NtsKeType::NewCookie => 5,
            NtsKeType::PortNegotiation => 7u16,
        },
{
}

/// There is a whole record at the start of some bytes exactly if there is a header and as much of a
/// body as it announces. The record is made of just these bytes, and the rest is left as it is.
pub proof fn law_first_record_is_cut_off(bytes: Seq<u8>)
    ensures
        parse_record(bytes) is Some <==> bytes.len() >= 4 && bytes.len() >= 4 + bytes[2] * 256
            + bytes[3],
        parse_record(bytes) matches Some((record, rest)) ==> {
            &&& record.critical <==> bytes[0] >= 128
            &&& record.number == (bytes[0] % 128) * 256 + bytes[1]
            &&& record.contents.len() == bytes[2] * 256 + bytes[3]
            &&& bytes == bytes.take(4) + record.contents + rest
            &&& bytes == record.bytes() + rest
        },
{
    if let Some((record, rest)) = parse_record(bytes) {
        let field = u16_value(bytes[0], bytes[1]);
        assert(record.type_field() == field);
        assert(bytes =~= bytes.take(4) + record.contents + rest);
        assert(u16_bytes(record.type_field()) =~= seq![bytes[0], bytes[1]]);
        assert(u16_bytes(record.contents.len() as u16) =~= seq![bytes[2], bytes[3]]);
        assert(bytes =~= record.bytes() + rest);
    }
}

/// What is read as records is nothing but those records, each of which can be written.
pub proof fn law_read_records_are_all_there_is(bytes: Seq<u8>)
    ensures
        parse_records(bytes) matches Some(records) ==> {
            &&& records_bytes(records) == bytes
            &&& forall|i: int|
                0 <= i < records.len() ==> (#[trigger] records[i]).number < 32768
                    && records[i].contents.len() <= 65535
        },
    decreases bytes.len(),
{
    if bytes.len() > 0 {
        law_first_record_is_cut_off(bytes);
        if let Some((record, rest)) = parse_record(bytes) {
            law_read_records_are_all_there_is(rest);
            if let Some(others) = parse_records(rest) {
                let records = seq![record] + others;
                assert(records.drop_first() =~= others);
                lemma_first_record_first(records);
                assert forall|i: int| 0 <= i < records.len() implies (#[trigger] records[i]).number
                    < 32768 && records[i].contents.len() <= 65535 by {
                    if i > 0 {
                        assert(records[i] == others[i - 1]);
                    }
                }
            }
        }
    } else {
        assert(bytes =~= seq![]);
    }
}

/// Records are written one after the other, and nothing is written between them.
pub proof fn law_records_are_written_in_a_row(records: Seq<RecordView>, more: Seq<RecordView>)
    ensures
        records_bytes(Seq::empty()) == Seq::<u8>::empty(),
        forall|record: RecordView| #[trigger] records_bytes(seq![record]) == record.bytes(),
        records_bytes(records + more) == records_bytes(records) + records_bytes(more),
    decreases more.len(),
{
    assert forall|record: RecordView| #[trigger] records_bytes(seq![record]) == record.bytes() by {
        lemma_first_record_first(seq![record]);
        assert(seq![record].drop_first() =~= seq![]);
        assert(record.bytes() + records_bytes(seq![]) =~= record.bytes());
    }
    if more.len() == 0 {
        assert(records + more =~= records);
        assert(records_bytes(records) + records_bytes(more) =~= records_bytes(records));
    } else {
        law_records_are_written_in_a_row(records, more.drop_last());
        assert((records + more).drop_last() =~= records + more.drop_last());
        assert(records_bytes(records + more) =~= records_bytes(records) + records_bytes(more));
    }
}

/// The records of a response, each by its place.
proof fn lemma_response_records(cookies: Seq<Vec<u8>>, port: u16)
    ensures
        ({
            let records = response_records(cookies, port);
            let n = cookies.len() as int;
            &&& records.len() == n + 4
            &&& records[0] == opening_records()[0]
            &&& records[1] == opening_records()[1]
            &&& forall|r: int|
                2 <= r < n + 2 ==> #[trigger] records[r] == cookie_record(cookies[r - 2]@)
            &&& records[n + 2] == closing_records(port)[0]
            &&& records[n + 3] == closing_records(port)[1]
        }),
{
    let opening = opening_records();
    let middle = cookie_records(cookies);
    let closing = closing_records(port);
    let records = opening + middle + closing;
    let n = cookies.len() as int;
    assert(opening.len() == 2 && middle.len() == n && closing.len() == 2);
    assert forall|r: int| 2 <= r < n + 2 implies #[trigger] records[r] == cookie_record(
        cookies[r - 2]@,
    ) by {
        assert(records[r] == middle[r - 2]);
    }
}

/// The bodies that open and close a response.
proof fn lemma_response_bodies(port: u16)
    ensures
        opening_records()[0].contents == seq![0u8, 0u8],
        opening_records()[1].contents == seq![0u8, 15u8],
        closing_records(port)[0].contents.len() == 2,
        closing_records(port)[0].contents[0] * 256 + closing_records(port)[0].contents[1] == port,
        closing_records(port)[1].contents == Seq::<u8>::empty(),
{
    assert(opening_records()[0].contents =~= seq![0u8, 0u8]);
    assert(opening_records()[1].contents =~= seq![0u8, 15u8]);
    assert(closing_records(port)[1].contents =~= Seq::<u8>::empty());
}

/// A client that reads a response finds, in this order: the protocol 0, critical; the algorithm 15;
/// one record for each cookie, with the cookie for its body; the port; and the end of the message,
/// critical and empty. There is no other record.
pub proof fn law_response_hands_out_every_cookie(cookies: Seq<Vec<u8>>, port: u16)
    requires
        forall|i: int| 0 <= i < cookies.len() ==> (#[trigger] cookies[i])@.len() <= 65535,
    ensures
        parse_records(response_bytes(cookies, port)) is Some,
        ({
            let records = parse_records(response_bytes(cookies, port))->0;
            let n = cookies.len() as int;
            &&& records.len() == n + 4
            &&& records[0].critical && records[0].number == 1
            &&& records[0].contents == seq![0u8, 0u8]
            &&& !records[1].critical && records[1].number == 4
            &&& records[1].contents == seq![0u8, 15u8]
            &&& forall|r: int|
                2 <= r < n + 2 ==> {
                    &&& !(#[trigger] records[r]).critical
                    &&& records[r].number == 5
                    &&& records[r].contents == cookies[r - 2]@
                }
            &&& !records[n + 2].critical && records[n + 2].number == 7
            &&& records[n + 2].contents.len() == 2
            &&& records[n + 2].contents[0] * 256 + records[n + 2].contents[1] == port
            &&& records[n + 3].critical && records[n + 3].number == 0
            &&& records[n + 3].contents.len() == 0
        }),
{
    law_response_is_read_back(cookies, port);
    lemma_response_records(cookies, port);
    lemma_response_bodies(port);
}

/// The cookies that a response is made with are seven, each of them one that `make_cookie` gave for
/// the keys under the master key.
pub proof fn law_seven_cookies<M: Fn(NTSKeys, &MasterKey) -> Vec<u8>>(
    make_cookie: M,
    keys: NTSKeys,
    master: MasterKey,
    cookies: Seq<Vec<u8>>,
)
    ensures
        cookies_for(make_cookie, keys, master, cookies) <==> {
            &&& cookies.len() == 7
            &&& forall|i: int|
                0 <= i < 7 ==> call_ensures(make_cookie, (keys, &master), #[trigger] cookies[i])
        },
{
}

/// Anything that can be called with any keys, and makes no cookie too long for its record, will do
/// to make cookies with.
pub proof fn law_any_cookie_maker_will_do<M: Fn(NTSKeys, &MasterKey) -> Vec<u8>>(make_cookie: M)
    requires
        forall|keys: NTSKeys, master: &MasterKey| #[trigger]
            call_requires(make_cookie, (keys, master)),
        forall|keys: NTSKeys, master: &MasterKey, cookie: Vec<u8>| #[trigger]
            call_ensures(make_cookie, (keys, master), cookie) ==> cookie@.len() <= 65535,
    ensures
        makes_cookies(make_cookie),
{
}

} // verus!
