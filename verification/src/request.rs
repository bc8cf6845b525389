//! What a good request is, and how it is found in what a client sends.

use vstd::prelude::*;

use crate::framing::{
    law_read_records_are_all_there_is, law_record_is_read_back, law_records_are_read_back,
    lemma_first_record_first, parse_record, parse_records, u16_value,
};
use crate::record::{NtsKeType, RecordView, CRITICAL_BIT};
use crate::response::{records_bytes, AEAD_ALGORITHM, NEXT_PROTOCOL};

verus! {

/// The body is a list of sixteen bit numbers, and `id` is one of them.
pub open spec fn lists(contents: Seq<u8>, id: u16) -> bool {
    exists|k: int|
        0 <= k && 2 * k + 1 < contents.len() && #[trigger] number_at(contents, k) == id
}

/// The number at place `k` of a list of sixteen bit numbers.
pub open spec fn number_at(contents: Seq<u8>, k: int) -> nat {
    u16_value(contents[2 * k], contents[2 * k + 1])
}

/// One of the records has the type and lists `id`.
pub open spec fn offers(records: Seq<RecordView>, record_type: NtsKeType, id: u16) -> bool {
    exists|i: int|
        {
            &&& 0 <= i < records.len()
            &&& (#[trigger] records[i]).number == record_type.number()
            &&& lists(records[i].contents, id)
        }
}

/// The records end with the end of the message, and offer the protocol and the algorithm that the
/// response answers with.
pub open spec fn good_records(records: Seq<RecordView>) -> bool {
    &&& records.len() > 0
    &&& records.last().number == NtsKeType::EndOfMessage.number()
    &&& offers(records, NtsKeType::NextProtocolNegotiation, NEXT_PROTOCOL)
    &&& offers(records, NtsKeType::AEADAlgorithmNegotiation, AEAD_ALGORITHM)
}

/// A good request: nothing but whole records, which can be answered.
pub open spec fn good_request(bytes: Seq<u8>) -> bool {
    match parse_records(bytes) {
        Some(records) => good_records(records),
        None => false,
    }
}

/// The length of the message that `bytes` begins with, if it is there as a whole: the records up to
/// the first end of a message.
pub open spec fn message_len(bytes: Seq<u8>) -> Option<nat>
    decreases bytes.len(),
{
    match parse_record(bytes) {
        None => None,
        Some((record, rest)) => {
            let len = (bytes.len() - rest.len()) as nat;
            if record.number == NtsKeType::EndOfMessage.number() {
                Some(len)
            } else {
                match message_len(rest) {
                    None => None,
                    Some(more) => Some(len + more),
                }
            }
        },
    }
}

/// One of the messages that `bytes` begins with is a good request.
pub open spec fn holds_good_request(bytes: Seq<u8>) -> bool
    decreases bytes.len(),
{
    match message_len(bytes) {
        None => false,
        Some(n) => {
            proof {
                lemma_message_len(bytes);
            }
            good_request(bytes.take(n as int)) || holds_good_request(bytes.skip(n as int))
        },
    }
}

/// What follows the messages that `bytes` begins with: the part of a message that has not ended.
pub open spec fn unfinished(bytes: Seq<u8>) -> Seq<u8>
    decreases bytes.len(),
{
    match message_len(bytes) {
        None => bytes,
        Some(n) => {
            proof {
                lemma_message_len(bytes);
            }
            unfinished(bytes.skip(n as int))
        },
    }
}

/// A message is not empty, and no longer than what it is found in.
pub proof fn lemma_message_len(bytes: Seq<u8>)
    ensures
        message_len(bytes) matches Some(n) ==> 4 <= n <= bytes.len(),
    decreases bytes.len(),
{
    if let Some((record, rest)) = parse_record(bytes) {
        lemma_message_len(rest);
    }
}

/// A message that is there as a whole is the same message whatever follows it.
proof fn lemma_message_len_extends(bytes: Seq<u8>, more: Seq<u8>)
    ensures
        message_len(bytes) is Some ==> message_len(bytes + more) == message_len(bytes),
    decreases bytes.len(),
{
    if let Some((record, rest)) = parse_record(bytes) {
        let end = bytes.len() - rest.len();
        let longer = bytes + more;
        assert(longer.subrange(4, end) =~= bytes.subrange(4, end));
        assert(longer.skip(end) =~= rest + more);
        assert(parse_record(longer) == Some((record, rest + more)));
        lemma_message_len_extends(rest, more);
    }
}

/// It does not matter in how many pieces a client sends its messages. Looking through the first
/// piece, keeping what is unfinished, and looking through that and the second piece finds a good
/// request exactly if there is one in both pieces together, and leaves the same part unfinished.
pub proof fn law_pieces_do_not_matter(first: Seq<u8>, second: Seq<u8>)
    ensures
        holds_good_request(first + second) <==> {
            ||| holds_good_request(first)
            ||| holds_good_request(unfinished(first) + second)
        },
        unfinished(first + second) == unfinished(unfinished(first) + second),
    decreases first.len(),
{
    if let Some(n) = message_len(first) {
        let n = n as int;
        lemma_message_len(first);
        lemma_message_len_extends(first, second);
        assert((first + second).take(n) =~= first.take(n));
        assert((first + second).skip(n) =~= first.skip(n) + second);
        law_pieces_do_not_matter(first.skip(n), second);
    }
}

/// The records are those of one message: the end of the message is the last of them, and no other.
pub open spec fn one_message(records: Seq<RecordView>) -> bool {
    &&& records.len() > 0
    &&& forall|i: int|
        0 <= i < records.len() ==> ((#[trigger] records[i]).number
            == NtsKeType::EndOfMessage.number() <==> i == records.len() - 1)
}

proof fn lemma_message_of_records(records: Seq<RecordView>, rest: Seq<u8>)
    requires
        one_message(records),
        forall|i: int| 0 <= i < records.len() ==> (#[trigger] records[i]).encodable(),
    ensures
        message_len(records_bytes(records) + rest) == Some(records_bytes(records).len()),
    decreases records.len(),
{
    let bytes = records_bytes(records) + rest;
    let others = records.drop_first();
    lemma_first_record_first(records);
    assert(bytes =~= records[0].bytes() + (records_bytes(others) + rest));
    law_record_is_read_back(records[0], records_bytes(others) + rest);
    if records.len() > 1 {
        assert forall|i: int| 0 <= i < others.len() implies ((#[trigger] others[i]).number
            == NtsKeType::EndOfMessage.number() <==> i == others.len() - 1)
            && others[i].encodable() by {
            assert(others[i] == records[i + 1]);
        }
        lemma_message_of_records(others, rest);
    } else {
        assert(others =~= seq![]);
    }
}

/// A client that writes one message of good records is found to have sent a good request, whatever
/// follows the message.
pub proof fn law_good_request_is_found(records: Seq<RecordView>, rest: Seq<u8>)
    requires
        one_message(records),
        good_records(records),
        forall|i: int| 0 <= i < records.len() ==> (#[trigger] records[i]).encodable(),
    ensures
        holds_good_request(records_bytes(records) + rest),
{
    let request = records_bytes(records);
    lemma_message_of_records(records, rest);
    law_records_are_read_back(records);
    assert((request + rest).take(request.len() as int) =~= request);
}

/// The number in network byte order at `pos`.
fn read_u16(bytes: &Vec<u8>, pos: usize) -> (n: u16)
    requires
        pos + 1 < bytes.len(),
    ensures
        n == u16_value(bytes@[pos as int], bytes@[pos + 1]),
{
    bytes[pos] as u16 * 256 + bytes[pos + 1] as u16
}

/// Tells whether the body from `start` to `end` lists `id`.
fn body_lists(bytes: &Vec<u8>, start: usize, end: usize, id: u16) -> (found: bool)
    requires
        start <= end <= bytes@.len(),
    ensures
        found == lists(bytes@.subrange(start as int, end as int), id),
{
    let ghost contents = bytes@.subrange(start as int, end as int);
    let ghost mut k: int = 0;
    let mut pos: usize = start;
    while end - pos >= 2
        invariant
            start <= pos <= end <= bytes@.len(),
            contents == bytes@.subrange(start as int, end as int),
            pos == start + 2 * k,
            k >= 0,
            forall|j: int| 0 <= j < k ==> #[trigger] number_at(contents, j) != id,
        decreases end - pos,
    {
        let n: u16 = read_u16(bytes, pos);
        assert(n == number_at(contents, k));
        if n == id {
            return true;
        }
        pos = pos + 2;
        proof {
            k = k + 1;
        }
    }
    false
}

/// Tells whether `bytes` is a good request.
pub fn is_good_request(bytes: &Vec<u8>) -> (good: bool)
    ensures
        good == good_request(bytes@),
{
    let mut pos: usize = 0;
    let mut protocol: bool = false;
    let mut algorithm: bool = false;
    let mut ended: bool = false;
    let ghost mut done: Seq<RecordView> = seq![];

    assert(bytes@.skip(0) =~= bytes@);
    assert(parse_records(bytes@) matches Some(rest) ==> done + rest =~= rest);
    while pos < bytes.len()
        invariant
            pos <= bytes@.len(),
            parse_records(bytes@) == match parse_records(bytes@.skip(pos as int)) {
                Some(rest) => Some(done + rest),
                None => None,
            },
            protocol == offers(done, NtsKeType::NextProtocolNegotiation, NEXT_PROTOCOL),
            algorithm == offers(done, NtsKeType::AEADAlgorithmNegotiation, AEAD_ALGORITHM),
            ended == (done.len() > 0 && done.last().number == NtsKeType::EndOfMessage.number()),
        decreases bytes@.len() - pos,
    {
        let ghost here = bytes@.skip(pos as int);
        if bytes.len() - pos < 4 {
            assert(parse_record(here) is None);
            return false;
        }
        let field: u16 = read_u16(bytes, pos);
        let len: u16 = read_u16(bytes, pos + 2);
        assert(here[0] == bytes@[pos as int] && here[1] == bytes@[pos + 1]);
        assert(here[2] == bytes@[pos + 2] && here[3] == bytes@[pos + 3]);
        if bytes.len() - pos - 4 < len as usize {
            assert(parse_record(here) is None);
            return false;
        }
        let start: usize = pos + 4;
        let end: usize = start + len as usize;
        let number: u16 = field % CRITICAL_BIT;

        let ghost record = RecordView {
            critical: field >= CRITICAL_BIT,
            number,
            contents: bytes@.subrange(start as int, end as int),
        };
        proof {
            assert(here.subrange(4, 4 + len) =~= record.contents);
            assert(here.skip(4 + len) =~= bytes@.skip(end as int));
            assert(parse_record(here) == Some((record, bytes@.skip(end as int))));
            if let Some(rest) = parse_records(bytes@.skip(end as int)) {
                assert(done + (seq![record] + rest) =~= done.push(record) + rest);
            }
            lemma_offers_push(
                done,
                record,
                NtsKeType::NextProtocolNegotiation,
                NEXT_PROTOCOL,
            );
            lemma_offers_push(
                done,
                record,
                NtsKeType::AEADAlgorithmNegotiation,
                AEAD_ALGORITHM,
            );
        }
        if number == NtsKeType::NextProtocolNegotiation.to_number() && body_lists(
            bytes,
            start,
            end,
            NEXT_PROTOCOL,
        ) {
            protocol = true;
        }
        if number == NtsKeType::AEADAlgorithmNegotiation.to_number() && body_lists(
            bytes,
            start,
            end,
            AEAD_ALGORITHM,
        ) {
            algorithm = true;
        }
        ended = number == NtsKeType::EndOfMessage.to_number();
        pos = end;
        proof {
            done = done.push(record);
        }
    }
    assert(done + seq![] =~= done);
    ended && protocol && algorithm
}

/// Finds the end of the message that `bytes` begins with.
fn find_message(bytes: &Vec<u8>) -> (found: Option<usize>)
    ensures
        match found {
            Some(n) => message_len(bytes@) == Some(n as nat),
            None => message_len(bytes@) is None,
        },
{
    let mut pos: usize = 0;
    assert(bytes@.skip(0) =~= bytes@);
    while bytes.len() - pos >= 4
        invariant
            pos <= bytes@.len(),
            message_len(bytes@) == match message_len(bytes@.skip(pos as int)) {
                Some(more) => Some((pos + more) as nat),
                None => None,
            },
        decreases bytes@.len() - pos,
    {
        let ghost here = bytes@.skip(pos as int);
        let field: u16 = read_u16(bytes, pos);
        let len: u16 = read_u16(bytes, pos + 2);
        assert(here[0] == bytes@[pos as int] && here[1] == bytes@[pos + 1]);
        assert(here[2] == bytes@[pos + 2] && here[3] == bytes@[pos + 3]);
        if bytes.len() - pos - 4 < len as usize {
            assert(parse_record(here) is None);
            return None;
        }
        let end: usize = pos + 4 + len as usize;
        assert(here.skip(4 + len) =~= bytes@.skip(end as int));
        if field % CRITICAL_BIT == NtsKeType::EndOfMessage.to_number() {
            return Some(end);
        }
        pos = end;
    }
    None
}

/// Looks through the messages of `bytes` for a good request. Nothing is left of `bytes` if there is
/// one, and what is unfinished otherwise.
pub fn take_request(bytes: &mut Vec<u8>) -> (found: bool)
    ensures
        found == holds_good_request(old(bytes)@),
        final(bytes)@ == if found {
            seq![]
        } else {
            unfinished(old(bytes)@)
        },
{
    loop
        invariant
            holds_good_request(bytes@) == holds_good_request(old(bytes)@),
            unfinished(bytes@) == unfinished(old(bytes)@),
        decreases bytes@.len(),
    {
        proof {
            lemma_message_len(bytes@);
        }
        let ghost before = bytes@;
        match find_message(bytes) {
            None => {
                return false;
            },
            Some(n) => {
                let rest: Vec<u8> = bytes.split_off(n);
                assert(bytes@ =~= before.take(n as int));
                assert(rest@ =~= before.skip(n as int));
                if is_good_request(bytes) {
                    bytes.clear();
                    return true;
                }
                *bytes = rest;
            },
        }
    }
}

/// Records that are written one after the other make a good request exactly if they are good ones,
/// whatever else there is among them.
pub proof fn law_good_records_make_a_good_request(records: Seq<RecordView>)
    requires
        forall|i: int| 0 <= i < records.len() ==> (#[trigger] records[i]).encodable(),
    ensures
        good_request(records_bytes(records)) <==> good_records(records),
{
    law_records_are_read_back(records);
}

/// One more record offers what the earlier ones did, and what it lists itself.
proof fn lemma_offers_push(
    records: Seq<RecordView>,
    record: RecordView,
    record_type: NtsKeType,
    id: u16,
)
    ensures
        offers(records.push(record), record_type, id) <==> {
            ||| offers(records, record_type, id)
            ||| record.number == record_type.number() && lists(record.contents, id)
        },
{
    let longer = records.push(record);
    if offers(records, record_type, id) {
        let i = choose|i: int|
            {
                &&& 0 <= i < records.len()
                &&& (#[trigger] records[i]).number == record_type.number()
                &&& lists(records[i].contents, id)
            };
        assert(longer[i] == records[i]);
    }
    assert(longer[records.len() as int] == record);
    if offers(longer, record_type, id) {
        let i = choose|i: int|
            {
                &&& 0 <= i < longer.len()
                &&& (#[trigger] longer[i]).number == record_type.number()
                &&& lists(longer[i].contents, id)
            };
        if i < records.len() {
            assert(longer[i] == records[i]);
        }
    }
}

/// Records make a good request exactly if the last of them, of type 0, ends the message, one of
/// type 1 has the bytes 0 and 0 at an even place of its body, and one of type 4 the bytes 0 and 15,
/// wherever in the body that is, and whatever else there is.
pub proof fn law_good_request_offers_protocol_and_algorithm(records: Seq<RecordView>)
    requires
        forall|i: int|
            0 <= i < records.len() ==> (#[trigger] records[i]).number < 32768
                && records[i].contents.len() <= 65535,
    ensures
        good_request(records_bytes(records)) <==> {
            &&& records.len() > 0
            &&& records.last().number == 0
            &&& exists|i: int, p: int|
                {
                    &&& 0 <= i < records.len()
                    &&& records[i].number == 1
                    &&& 0 <= p < records[i].contents.len() - 1
                    &&& p % 2 == 0
                    &&& #[trigger] records[i].contents[p] == 0
                    &&& records[i].contents[p + 1] == 0
                }
            &&& exists|j: int, q: int|
                {
                    &&& 0 <= j < records.len()
                    &&& records[j].number == 4
                    &&& 0 <= q < records[j].contents.len() - 1
                    &&& q % 2 == 0
                    &&& #[trigger] records[j].contents[q] == 0
                    &&& records[j].contents[q + 1] == 15
                }
        },
{
    law_records_are_read_back(records);
    lemma_offers_at_even_place(records, NtsKeType::NextProtocolNegotiation, 0);
    lemma_offers_at_even_place(records, NtsKeType::AEADAlgorithmNegotiation, 15);
}

/// A number below 256 is offered where its two bytes are at an even place.
proof fn lemma_offers_at_even_place(records: Seq<RecordView>, record_type: NtsKeType, id: u16)
    requires
        id < 256,
    ensures
        offers(records, record_type, id) <==> exists|i: int, p: int|
            {
                &&& 0 <= i < records.len()
                &&& records[i].number == record_type.number()
                &&& 0 <= p < records[i].contents.len() - 1
                &&& p % 2 == 0
                &&& #[trigger] records[i].contents[p] == 0
                &&& records[i].contents[p + 1] == id
            },
{
    if offers(records, record_type, id) {
        let i = choose|i: int|
            {
                &&& 0 <= i < records.len()
                &&& (#[trigger] records[i]).number == record_type.number()
                &&& lists(records[i].contents, id)
            };
        let contents = records[i].contents;
        let k = choose|k: int|
            0 <= k && 2 * k + 1 < contents.len() && #[trigger] number_at(contents, k) == id;
        assert(records[i].contents[2 * k] == 0);
    }
    if exists|i: int, p: int|
        {
            &&& 0 <= i < records.len()
            &&& records[i].number == record_type.number()
            &&& 0 <= p < records[i].contents.len() - 1
            &&& p % 2 == 0
            &&& #[trigger] records[i].contents[p] == 0
            &&& records[i].contents[p + 1] == id
        } {
        let (i, p) = choose|i: int, p: int|
            {
                &&& 0 <= i < records.len()
                &&& records[i].number == record_type.number()
                &&& 0 <= p < records[i].contents.len() - 1
                &&& p % 2 == 0
                &&& #[trigger] records[i].contents[p] == 0
                &&& records[i].contents[p + 1] == id
            };
        assert(2 * (p / 2) == p);
        assert(number_at(records[i].contents, p / 2) == id);
        assert(lists(records[i].contents, id));
    }
}

/// A good request is nothing but records.
pub proof fn law_good_request_is_made_of_records(bytes: Seq<u8>)
    ensures
        good_request(bytes) ==> exists|records: Seq<RecordView>|
            {
                &&& #[trigger] records_bytes(records) == bytes
                &&& forall|i: int|
                    0 <= i < records.len() ==> (#[trigger] records[i]).number < 32768
                        && records[i].contents.len() <= 65535
            },
{
    law_read_records_are_all_there_is(bytes);
}

/// What a client sends is looked through message by message, where a message goes up to its first
/// record of type 0: there is a good request in it exactly if the first message is one, or there is
/// one in what follows, and what is unfinished is what is unfinished of what follows.
pub proof fn law_message_by_message(records: Seq<RecordView>, rest: Seq<u8>)
    requires
        records.len() > 0,
        records.last().number == 0,
        forall|i: int| 0 <= i < records.len() - 1 ==> (#[trigger] records[i]).number != 0,
        forall|i: int|
            0 <= i < records.len() ==> (#[trigger] records[i]).number < 32768
                && records[i].contents.len() <= 65535,
    ensures
        holds_good_request(records_bytes(records) + rest) <==> good_request(records_bytes(records))
            || holds_good_request(rest),
        unfinished(records_bytes(records) + rest) == unfinished(rest),
{
    let message = records_bytes(records);
    lemma_message_of_records(records, rest);
    assert((message + rest).take(message.len() as int) =~= message);
    assert((message + rest).skip(message.len() as int) =~= rest);
}

/// A message without a record of type 0 is unfinished, and there is no good request in it, whether
/// or not there is part of a record at its end.
pub proof fn law_unended_message_is_kept(records: Seq<RecordView>, part: Seq<u8>)
    requires
        forall|i: int|
            0 <= i < records.len() ==> 0 < (#[trigger] records[i]).number < 32768
                && records[i].contents.len() <= 65535,
        part.len() < 4 || part.len() < 4 + part[2] * 256 + part[3],
    ensures
        !holds_good_request(records_bytes(records) + part),
        unfinished(records_bytes(records) + part) == records_bytes(records) + part,
{
    lemma_no_message(records, part);
}

proof fn lemma_no_message(records: Seq<RecordView>, part: Seq<u8>)
    requires
        forall|i: int|
            0 <= i < records.len() ==> 0 < (#[trigger] records[i]).number < 32768
                && records[i].contents.len() <= 65535,
        part.len() < 4 || part.len() < 4 + part[2] * 256 + part[3],
    ensures
        message_len(records_bytes(records) + part) is None,
    decreases records.len(),
{
    let bytes = records_bytes(records) + part;
    if records.len() == 0 {
        assert(bytes =~= part);
        assert(parse_record(part) is None);
    } else {
        let others = records.drop_first();
        lemma_first_record_first(records);
        assert(bytes =~= records[0].bytes() + (records_bytes(others) + part));
        law_record_is_read_back(records[0], records_bytes(others) + part);
        assert forall|i: int| 0 <= i < others.len() implies 0 < (#[trigger] others[i]).number
            < 32768 && others[i].contents.len() <= 65535 by {
            assert(others[i] == records[i + 1]);
        }
        lemma_no_message(others, part);
    }
}

} // verus!
