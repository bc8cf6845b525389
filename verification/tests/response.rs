use std::cell::Cell;

use nts_ke_conn::{
    assemble_response, response, serialize_record, MasterKey, NTSKeys, NtsKeRecord, NtsKeType,
};

fn record(critical: bool, record_type: NtsKeType, contents: Vec<u8>) -> Vec<u8> {
    serialize_record(&NtsKeRecord { critical, record_type, contents })
}

#[test]
fn critical_record_has_the_top_bit() {
    assert_eq!(
        record(true, NtsKeType::NextProtocolNegotiation, vec![0, 0]),
        vec![0x80, 1, 0, 2, 0, 0]
    );
    assert_eq!(
        record(false, NtsKeType::NextProtocolNegotiation, vec![0, 0]),
        vec![0, 1, 0, 2, 0, 0]
    );
}

#[test]
fn every_record_type_has_its_number() {
    assert_eq!(record(true, NtsKeType::EndOfMessage, vec![]), vec![0x80, 0, 0, 0]);
    assert_eq!(
        record(false, NtsKeType::AEADAlgorithmNegotiation, vec![0, 15]),
        vec![0, 4, 0, 2, 0, 15]
    );
    assert_eq!(record(false, NtsKeType::NewCookie, vec![9]), vec![0, 5, 0, 1, 9]);
    assert_eq!(
        record(false, NtsKeType::PortNegotiation, vec![1, 2]),
        vec![0, 7, 0, 2, 1, 2]
    );
}

#[test]
fn length_is_in_network_order() {
    let bytes = record(false, NtsKeType::NewCookie, vec![7; 258]);
    assert_eq!(&bytes[..4], &[0, 5, 1, 2]);
    assert_eq!(bytes.len(), 262);

    let longest = record(false, NtsKeType::NewCookie, vec![7; 65535]);
    assert_eq!(&longest[..4], &[0, 5, 255, 255]);
    assert_eq!(longest.len(), 65539);
}

#[test]
fn response_without_cookies() {
    assert_eq!(
        assemble_response(&vec![], 123),
        vec![0x80, 1, 0, 2, 0, 0, 0, 4, 0, 2, 0, 15, 0, 7, 0, 2, 0, 123, 0x80, 0, 0, 0]
    );
}

#[test]
fn response_with_two_cookies() {
    assert_eq!(
        assemble_response(&vec![vec![1, 2, 3], vec![]], 0x1234),
        vec![
            0x80, 1, 0, 2, 0, 0, 0, 4, 0, 2, 0, 15, 0, 5, 0, 3, 1, 2, 3, 0, 5, 0, 0, 0, 7, 0, 2,
            0x12, 0x34, 0x80, 0, 0, 0,
        ]
    );
}

#[test]
fn response_has_seven_cookies_under_one_key() {
    let keys = NTSKeys { c2s: [3; 32], s2c: [4; 32] };
    let master = MasterKey { key_id: 77, key: vec![5; 16] };
    let made = Cell::new(0u8);
    let make_cookie = |k: NTSKeys, m: &MasterKey| {
        assert_eq!(k, keys);
        assert_eq!(*m, master);
        made.set(made.get() + 1);
        vec![made.get(), k.c2s[0], k.s2c[0], m.key_id as u8, m.key[0]]
    };
    let bytes = response(keys, &master, &4123, &make_cookie);
    assert_eq!(made.get(), 7);

    let cookies: Vec<Vec<u8>> = (1..8).map(|n| vec![n, 3, 4, 77, 5]).collect();
    assert_eq!(bytes, assemble_response(&cookies, 4123));
}

/// Reads records back: the critical bit, the number, and the body.
fn parse(mut bytes: &[u8]) -> Vec<(bool, u16, Vec<u8>)> {
    let mut records = vec![];
    while !bytes.is_empty() {
        let field = u16::from_be_bytes([bytes[0], bytes[1]]);
        let end = 4 + u16::from_be_bytes([bytes[2], bytes[3]]) as usize;
        records.push((field >= 0x8000, field % 0x8000, bytes[4..end].to_vec()));
        bytes = &bytes[end..];
    }
    records
}

#[test]
fn response_is_read_back() {
    let cookies = vec![vec![0x80, 0, 0, 0], vec![0; 300], vec![]];
    let bytes = assemble_response(&cookies, 65535);
    assert_eq!(
        parse(&bytes),
        vec![
            (true, 1, vec![0, 0]),
            (false, 4, vec![0, 15]),
            (false, 5, vec![0x80, 0, 0, 0]),
            (false, 5, vec![0; 300]),
            (false, 5, vec![]),
            (false, 7, vec![255, 255]),
            (true, 0, vec![]),
        ]
    );
}
