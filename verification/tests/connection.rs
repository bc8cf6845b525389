use std::cell::RefCell;
use std::io::{Error, ErrorKind, Read, Write};
use std::sync::Arc;

use nts_ke_conn::config::chain_fits;
use nts_ke_conn::{
    assemble_response, server_config, ConfigError, KeServerConn, KeServerConnState, KeServerState,
    MasterKey, NTSKeys, ReadEvent, ReadOutcome, ReadyStep,
};
use rustls::{ClientSession, Session};

const PORT: u16 = 4460;
const TOKEN: usize = 17;
const LABEL: &[u8] = b"EXPORTER-test";
/// The protocol, the algorithm, and the end of the message.
const REQUEST: [u8; 16] = [0x80, 1, 0, 2, 0, 0, 0x80, 4, 0, 2, 0, 15, 0x80, 0, 0, 0];

const CA_CERT: [u8; 286] = [
    0x30, 0x82, 0x01, 0x1a, 0x30, 0x81, 0xc2, 0xa0, 0x03, 0x02, 0x01, 0x02,
    0x02, 0x01, 0x01, 0x30, 0x0a, 0x06, 0x08, 0x2a, 0x86, 0x48, 0xce, 0x3d,
    0x04, 0x03, 0x02, 0x30, 0x0d, 0x31, 0x0b, 0x30, 0x09, 0x06, 0x03, 0x55,
    0x04, 0x03, 0x0c, 0x02, 0x63, 0x61, 0x30, 0x1e, 0x17, 0x0d, 0x31, 0x39,
    0x30, 0x31, 0x30, 0x31, 0x30, 0x30, 0x30, 0x30, 0x30, 0x30, 0x5a, 0x17,
    0x0d, 0x34, 0x39, 0x31, 0x32, 0x33, 0x31, 0x30, 0x30, 0x30, 0x30, 0x30,
    0x30, 0x5a, 0x30, 0x0d, 0x31, 0x0b, 0x30, 0x09, 0x06, 0x03, 0x55, 0x04,
    0x03, 0x0c, 0x02, 0x63, 0x61, 0x30, 0x59, 0x30, 0x13, 0x06, 0x07, 0x2a,
    0x86, 0x48, 0xce, 0x3d, 0x02, 0x01, 0x06, 0x08, 0x2a, 0x86, 0x48, 0xce,
    0x3d, 0x03, 0x01, 0x07, 0x03, 0x42, 0x00, 0x04, 0x66, 0xca, 0x41, 0x9e,
    0x7a, 0x7f, 0x9f, 0xa3, 0xfc, 0x9b, 0x40, 0xd1, 0x87, 0xcb, 0x2f, 0xac,
    0x98, 0xa6, 0x33, 0x92, 0x3a, 0xb0, 0x3e, 0x8e, 0x9d, 0x4c, 0x04, 0xd6,
    0xeb, 0xcf, 0x34, 0x3d, 0x77, 0x47, 0x88, 0x29, 0x55, 0xf5, 0xdf, 0xb8,
    0xfa, 0x89, 0x60, 0x31, 0xc1, 0x84, 0x79, 0x95, 0x3a, 0xfb, 0x83, 0x51,
    0x19, 0x11, 0x9b, 0x26, 0xb1, 0xd7, 0x6e, 0x07, 0x96, 0xe1, 0x4f, 0x25,
    0xa3, 0x13, 0x30, 0x11, 0x30, 0x0f, 0x06, 0x03, 0x55, 0x1d, 0x13, 0x01,
    0x01, 0xff, 0x04, 0x05, 0x30, 0x03, 0x01, 0x01, 0xff, 0x30, 0x0a, 0x06,
    0x08, 0x2a, 0x86, 0x48, 0xce, 0x3d, 0x04, 0x03, 0x02, 0x03, 0x47, 0x00,
    0x30, 0x44, 0x02, 0x20, 0x02, 0xe6, 0x0b, 0x03, 0x12, 0xcd, 0x35, 0xcf,
    0x2e, 0x2b, 0x46, 0x93, 0x7b, 0x2c, 0x5d, 0x2d, 0x46, 0x1b, 0x9a, 0xd5,
    0x90, 0x4b, 0x88, 0xdd, 0x34, 0xb6, 0x6c, 0x41, 0xef, 0x46, 0xb0, 0x40,
    0x02, 0x20, 0x31, 0xcb, 0x80, 0x3e, 0xe7, 0xe1, 0x70, 0x75, 0xb4, 0x92,
    0xa7, 0x13, 0x22, 0xd9, 0x7f, 0x79, 0x1e, 0x09, 0x87, 0x5b, 0xf8, 0x32,
    0xbf, 0x06, 0x3a, 0x4e, 0x71, 0x6d, 0x88, 0x25, 0xac, 0xb3,
];

const SERVER_CERT: [u8; 314] = [
    0x30, 0x82, 0x01, 0x36, 0x30, 0x81, 0xdc, 0xa0, 0x03, 0x02, 0x01, 0x02,
    0x02, 0x01, 0x02, 0x30, 0x0a, 0x06, 0x08, 0x2a, 0x86, 0x48, 0xce, 0x3d,
    0x04, 0x03, 0x02, 0x30, 0x0d, 0x31, 0x0b, 0x30, 0x09, 0x06, 0x03, 0x55,
    0x04, 0x03, 0x0c, 0x02, 0x63, 0x61, 0x30, 0x1e, 0x17, 0x0d, 0x31, 0x39,
    0x30, 0x31, 0x30, 0x31, 0x30, 0x30, 0x30, 0x30, 0x30, 0x30, 0x5a, 0x17,
    0x0d, 0x34, 0x39, 0x31, 0x32, 0x33, 0x31, 0x30, 0x30, 0x30, 0x30, 0x30,
    0x30, 0x5a, 0x30, 0x0f, 0x31, 0x0d, 0x30, 0x0b, 0x06, 0x03, 0x55, 0x04,
    0x03, 0x0c, 0x04, 0x6c, 0x65, 0x61, 0x66, 0x30, 0x59, 0x30, 0x13, 0x06,
    0x07, 0x2a, 0x86, 0x48, 0xce, 0x3d, 0x02, 0x01, 0x06, 0x08, 0x2a, 0x86,
    0x48, 0xce, 0x3d, 0x03, 0x01, 0x07, 0x03, 0x42, 0x00, 0x04, 0xdd, 0x39,
    0x16, 0x7b, 0x1a, 0xad, 0x8f, 0x3c, 0x91, 0xee, 0x1a, 0xcf, 0x17, 0x9c,
    0x39, 0x39, 0x86, 0xf4, 0x16, 0x9f, 0x21, 0xf0, 0x8f, 0xdb, 0x9a, 0xe5,
    0xaf, 0xb8, 0xaa, 0xc7, 0x9e, 0x2a, 0x71, 0x26, 0x00, 0x9a, 0xf6, 0x8d,
    0xa4, 0x00, 0x9e, 0x86, 0x1a, 0xdb, 0x8b, 0xaf, 0x88, 0x37, 0xb6, 0x9e,
    0x61, 0x02, 0x43, 0xaa, 0xef, 0x2c, 0xb0, 0x0b, 0x0f, 0x6f, 0xb5, 0x03,
    0x9c, 0xc8, 0xa3, 0x2b, 0x30, 0x29, 0x30, 0x0c, 0x06, 0x03, 0x55, 0x1d,
    0x13, 0x01, 0x01, 0xff, 0x04, 0x02, 0x30, 0x00, 0x30, 0x19, 0x06, 0x03,
    0x55, 0x1d, 0x11, 0x04, 0x12, 0x30, 0x10, 0x82, 0x0e, 0x74, 0x65, 0x73,
    0x74, 0x73, 0x65, 0x72, 0x76, 0x65, 0x72, 0x2e, 0x63, 0x6f, 0x6d, 0x30,
    0x0a, 0x06, 0x08, 0x2a, 0x86, 0x48, 0xce, 0x3d, 0x04, 0x03, 0x02, 0x03,
    0x49, 0x00, 0x30, 0x46, 0x02, 0x21, 0x00, 0xc8, 0x80, 0xa1, 0x22, 0xb2,
    0x0b, 0xdc, 0x56, 0x89, 0x68, 0xfd, 0x3f, 0x79, 0x93, 0x20, 0x19, 0xca,
    0x3e, 0x27, 0xa3, 0xe8, 0x22, 0x72, 0x8f, 0x7f, 0xc4, 0xf8, 0x36, 0x37,
    0x87, 0xa5, 0xf7, 0x02, 0x21, 0x00, 0xa1, 0x21, 0xec, 0xe3, 0xad, 0xfb,
    0x21, 0x63, 0xab, 0xbe, 0xa0, 0x3d, 0x3c, 0xd6, 0x54, 0x01, 0xfd, 0xf9,
    0xf7, 0x3b, 0x8d, 0x01, 0x4a, 0x44, 0xb6, 0x00, 0xff, 0x40, 0x60, 0x5b,
    0x73, 0x0c,
];

const SERVER_KEY: [u8; 138] = [
    0x30, 0x81, 0x87, 0x02, 0x01, 0x00, 0x30, 0x13, 0x06, 0x07, 0x2a, 0x86,
    0x48, 0xce, 0x3d, 0x02, 0x01, 0x06, 0x08, 0x2a, 0x86, 0x48, 0xce, 0x3d,
    0x03, 0x01, 0x07, 0x04, 0x6d, 0x30, 0x6b, 0x02, 0x01, 0x01, 0x04, 0x20,
    0x6a, 0xae, 0x5f, 0xb6, 0x97, 0x11, 0x2a, 0xd6, 0x6b, 0x80, 0xe2, 0x0e,
    0xb2, 0x33, 0xb1, 0x7c, 0x91, 0x07, 0xea, 0x4d, 0x03, 0x9a, 0x0f, 0xaa,
    0xf5, 0x95, 0x41, 0x04, 0x2c, 0xa2, 0x71, 0x04, 0xa1, 0x44, 0x03, 0x42,
    0x00, 0x04, 0xdd, 0x39, 0x16, 0x7b, 0x1a, 0xad, 0x8f, 0x3c, 0x91, 0xee,
    0x1a, 0xcf, 0x17, 0x9c, 0x39, 0x39, 0x86, 0xf4, 0x16, 0x9f, 0x21, 0xf0,
    0x8f, 0xdb, 0x9a, 0xe5, 0xaf, 0xb8, 0xaa, 0xc7, 0x9e, 0x2a, 0x71, 0x26,
    0x00, 0x9a, 0xf6, 0x8d, 0xa4, 0x00, 0x9e, 0x86, 0x1a, 0xdb, 0x8b, 0xaf,
    0x88, 0x37, 0xb6, 0x9e, 0x61, 0x02, 0x43, 0xaa, 0xef, 0x2c, 0xb0, 0x0b,
    0x0f, 0x6f, 0xb5, 0x03, 0x9c, 0xc8,
];

fn tls_config() -> rustls::ServerConfig {
    server_config(vec![SERVER_CERT.to_vec()], SERVER_KEY.to_vec(), &vec![]).unwrap()
}

fn server() -> KeServerConn {
    let state = KeServerState::new(Arc::new(tls_config()), PORT).unwrap();
    KeServerConn::new(TOKEN, &Arc::new(state))
}

fn client() -> ClientSession {
    client_with(rustls::ClientConfig::new())
}

fn client_with(mut config: rustls::ClientConfig) -> ClientSession {
    config.root_store.add(&rustls::Certificate(CA_CERT.to_vec())).unwrap();
    let name = webpki::DNSNameRef::try_from_ascii_str("testserver.com").unwrap();
    ClientSession::new(&Arc::new(config), name)
}

fn export<S: Session>(session: &S) -> NTSKeys {
    let mut keys = NTSKeys { c2s: [0; 32], s2c: [0; 32] };
    session.export_keying_material(&mut keys.c2s, LABEL, Some(&[0])).unwrap();
    session.export_keying_material(&mut keys.s2c, LABEL, Some(&[1])).unwrap();
    keys
}

fn latest_key() -> MasterKey {
    MasterKey { key_id: 9, key: vec![1, 2, 3] }
}

fn make_cookie(keys: NTSKeys, master: &MasterKey) -> Vec<u8> {
    let mut cookie = vec![master.key_id as u8];
    cookie.extend_from_slice(&master.key);
    cookie.extend_from_slice(&keys.c2s);
    cookie.extend_from_slice(&keys.s2c);
    cookie
}

fn ignore(_event: &ReadEvent) {}

fn carry_on(conn: &mut KeServerConn, outcome: ReadOutcome) -> Vec<ReadEvent> {
    let gen_key = export::<rustls::ServerSession>;
    conn.read_ready(outcome, &gen_key, &latest_key, &make_cookie, &ignore)
}

/// Hands bytes to the server as one read.
fn deliver(conn: &mut KeServerConn, mut bytes: &[u8]) -> Vec<ReadEvent> {
    let count = conn.session_mut().read_tls(&mut bytes).unwrap();
    assert!(bytes.is_empty());
    carry_on(conn, ReadOutcome::Received(count))
}

fn outgoing(session: &mut dyn Session) -> Vec<u8> {
    let mut bytes = vec![];
    while session.wants_write() {
        session.write_tls(&mut bytes).unwrap();
    }
    bytes
}

/// Moves everything that client and server have to say, and gives the server's events.
fn exchange(client: &mut ClientSession, conn: &mut KeServerConn) -> Vec<ReadEvent> {
    let mut events = vec![];
    loop {
        let to_server = outgoing(client);
        let quiet = to_server.is_empty();
        if !quiet {
            events.append(&mut deliver(conn, &to_server));
        }
        let to_client = outgoing(conn.session_mut());
        if !to_client.is_empty() {
            client.read_tls(&mut &to_client[..]).unwrap();
            client.process_new_packets().unwrap();
        } else if quiet {
            return events;
        }
    }
}

fn plaintext(client: &mut ClientSession) -> Vec<u8> {
    let mut bytes = vec![];
    client.read_to_end(&mut bytes).unwrap();
    bytes
}

#[test]
fn request_is_answered_once() {
    let mut client = client();
    let mut conn = server();

    // The handshake alone is not answered.
    assert!(exchange(&mut client, &mut conn).is_empty());
    assert!(!client.is_handshaking());
    assert_eq!(plaintext(&mut client), Vec::<u8>::new());

    client.write_all(&REQUEST).unwrap();
    let events = exchange(&mut client, &mut conn);
    assert_eq!(events.len(), 1);
    assert!(matches!(events[0], ReadEvent::PlaintextRead(16)));
    let cookie = make_cookie(export(&client), &latest_key());
    let cookies = vec![cookie; 7];
    assert_eq!(plaintext(&mut client), assemble_response(&cookies, PORT));

    // Another request is read, but not answered.
    client.write_all(&REQUEST).unwrap();
    let events = exchange(&mut client, &mut conn);
    assert_eq!(events.len(), 1);
    assert!(matches!(events[0], ReadEvent::PlaintextRead(16)));
    assert_eq!(plaintext(&mut client), Vec::<u8>::new());
    assert!(!conn.is_closed());
}

#[test]
fn request_that_comes_with_the_handshake_is_answered() {
    let mut client = client();
    let mut conn = server();
    client.write_all(&REQUEST).unwrap();
    let events = exchange(&mut client, &mut conn);
    assert_eq!(events.len(), 1);
    assert!(matches!(events[0], ReadEvent::PlaintextRead(16)));
    assert_eq!(
        plaintext(&mut client),
        assemble_response(&vec![make_cookie(export(&client), &latest_key()); 7], PORT)
    );
}

fn assert_answered(client: &mut ClientSession) {
    let cookies = vec![make_cookie(export(client), &latest_key()); 7];
    assert_eq!(plaintext(client), assemble_response(&cookies, PORT));
}

#[test]
fn request_over_several_reads_is_answered() {
    for cut in 1..REQUEST.len() {
        let mut client = client();
        let mut conn = server();
        exchange(&mut client, &mut conn);

        client.write_all(&REQUEST[..cut]).unwrap();
        let events = exchange(&mut client, &mut conn);
        assert_eq!(events.len(), 1);
        assert!(matches!(events[0], ReadEvent::PlaintextRead(n) if n == cut));
        assert_eq!(plaintext(&mut client), Vec::<u8>::new());

        client.write_all(&REQUEST[cut..]).unwrap();
        let events = exchange(&mut client, &mut conn);
        assert_eq!(events.len(), 1);
        assert!(matches!(events[0], ReadEvent::PlaintextRead(n) if n == REQUEST.len() - cut));
        assert_answered(&mut client);
    }

    let mut client = client();
    let mut conn = server();
    exchange(&mut client, &mut conn);
    for byte in REQUEST.iter() {
        assert_eq!(plaintext(&mut client), Vec::<u8>::new());
        client.write_all(&[*byte]).unwrap();
        exchange(&mut client, &mut conn);
    }
    assert_answered(&mut client);
}

#[test]
fn message_that_is_no_good_request_is_not_answered() {
    let mut client = client();
    let mut conn = server();
    exchange(&mut client, &mut conn);

    // A message without an algorithm is dropped, and the connection stays open for the next one.
    client.write_all(&[0x80, 1, 0, 2, 0, 0, 0x80, 0, 0, 0]).unwrap();
    let events = exchange(&mut client, &mut conn);
    assert_eq!(events.len(), 1);
    assert!(matches!(events[0], ReadEvent::PlaintextRead(10)));
    assert_eq!(plaintext(&mut client), Vec::<u8>::new());
    assert!(!conn.is_closed());

    client.write_all(&REQUEST).unwrap();
    exchange(&mut client, &mut conn);
    assert_answered(&mut client);
}

#[test]
fn stray_byte_spoils_the_message() {
    let mut client = client();
    let mut conn = server();
    exchange(&mut client, &mut conn);
    for plain in [&[0xff][..], &REQUEST[..]].iter() {
        client.write_all(plain).unwrap();
        let events = exchange(&mut client, &mut conn);
        assert_eq!(events.len(), 1);
        assert!(matches!(events[0], ReadEvent::PlaintextRead(n) if n == plain.len()));
        assert_eq!(plaintext(&mut client), Vec::<u8>::new());
    }
    assert!(!conn.is_closed());
}

#[test]
fn what_follows_a_request_does_not_matter() {
    let mut client = client();
    let mut conn = server();
    exchange(&mut client, &mut conn);
    client.write_all(&[&REQUEST[..], &[0x80, 1]].concat()).unwrap();
    exchange(&mut client, &mut conn);
    assert_answered(&mut client);
}

#[test]
fn plaintext_is_answered_by_itself() {
    let gen_key = |_session: &rustls::ServerSession| NTSKeys { c2s: [1; 32], s2c: [2; 32] };
    let mut conn = server();
    assert!(carry_on(&mut conn, ReadOutcome::WouldBlock).is_empty());
    for (plain, written) in [(&REQUEST[..7], false), (&REQUEST[7..], true)].iter() {
        let plain = plain.to_vec();
        let heard = RefCell::new(vec![]);
        let report = |event: &ReadEvent| heard.borrow_mut().push(format!("{:?}", event));
        let latest_key = || {
            heard.borrow_mut().push("key".to_string());
            latest_key()
        };
        let events = conn.plaintext_received(&plain, &gen_key, &latest_key, &make_cookie, &report);
        assert_eq!(events.len(), 1);
        assert!(matches!(events[0], ReadEvent::PlaintextRead(n) if n == plain.len()));
        let mut told = vec![format!("PlaintextRead({})", plain.len())];
        if *written {
            told.push("key".to_string());
        }
        assert_eq!(*heard.borrow(), told);
    }
    assert!(!conn.is_closed());
}

#[test]
fn error_without_a_reason_to_close_is_told_apart() {
    assert!(matches!(ReadOutcome::new(Ok(5)), ReadOutcome::Received(5)));
    let error = Error::new(ErrorKind::WouldBlock, "later");
    assert!(matches!(ReadOutcome::new(Err(error)), ReadOutcome::WouldBlock));
    let error = Error::new(ErrorKind::ConnectionReset, "gone");
    assert!(matches!(
        ReadOutcome::new(Err(error)),
        ReadOutcome::Failed(e) if e.kind() == ErrorKind::ConnectionReset
    ));
}

#[test]
fn application_protocol_is_agreed_on() {
    let protocols = vec![b"other".to_vec(), b"ntske/1".to_vec()];
    let tls_config = server_config(vec![SERVER_CERT.to_vec()], SERVER_KEY.to_vec(), &protocols);
    let state = KeServerState::new(Arc::new(tls_config.unwrap()), PORT).unwrap();
    let mut conn = KeServerConn::new(TOKEN, &Arc::new(state));
    let mut config = rustls::ClientConfig::new();
    config.set_protocols(&[b"ntske/1".to_vec()]);
    let mut client = client_with(config);
    exchange(&mut client, &mut conn);
    assert_eq!(client.get_alpn_protocol(), Some(&b"ntske/1"[..]));

    // Without protocols none is agreed on.
    let mut config = rustls::ClientConfig::new();
    config.set_protocols(&[b"ntske/1".to_vec()]);
    let mut client = client_with(config);
    exchange(&mut client, &mut server());
    assert_eq!(client.get_alpn_protocol(), None);
}

#[test]
fn client_without_tls13_is_refused() {
    let mut config = rustls::ClientConfig::new();
    config.versions = vec![rustls::ProtocolVersion::TLSv1_2];
    let mut client = client_with(config);
    let mut conn = server();
    let events = deliver(&mut conn, &outgoing(&mut client));
    assert_eq!(events.len(), 1);
    assert!(matches!(
        events[0],
        ReadEvent::PacketsRefused(rustls::TLSError::PeerIncompatibleError(_))
    ));
    assert!(conn.is_closed());
}

#[test]
fn empty_client_key_exchange_is_refused() {
    let exchange = [0x16, 0x03, 0x03, 0, 4, 0x10, 0, 0, 0];

    // At once, and after the hello of a TLS 1.2 handshake.
    let mut conn = server();
    let events = deliver(&mut conn, &exchange);
    assert_eq!(events.len(), 1);
    assert!(matches!(events[0], ReadEvent::PacketsRefused(_)));
    assert!(conn.is_closed());

    let mut config = rustls::ClientConfig::new();
    config.versions = vec![rustls::ProtocolVersion::TLSv1_2];
    let mut conn = server();
    let mut bytes = outgoing(&mut client_with(config));
    bytes.extend_from_slice(&exchange);
    let events = deliver(&mut conn, &bytes);
    assert_eq!(events.len(), 1);
    assert!(matches!(events[0], ReadEvent::PacketsRefused(_)));
    let events = deliver(&mut conn, &exchange);
    assert_eq!(events.len(), 1);
    assert!(matches!(events[0], ReadEvent::PacketsRefused(_)));
    assert!(conn.is_closed());
}

#[test]
fn nothing_to_read_leaves_the_connection() {
    let mut conn = server();
    assert!(carry_on(&mut conn, ReadOutcome::WouldBlock).is_empty());
    assert!(!conn.is_closed());
}

#[test]
fn transport_failure_closes() {
    let mut conn = server();
    let failure = Error::new(ErrorKind::ConnectionReset, "gone");
    let events = carry_on(&mut conn, ReadOutcome::Failed(failure));
    assert_eq!(events.len(), 1);
    assert!(matches!(
        &events[0],
        ReadEvent::ReadFailed(e) if e.kind() == ErrorKind::ConnectionReset
    ));
    assert!(conn.is_closed());
}

#[test]
fn end_of_stream_closes() {
    let mut conn = server();
    let events = carry_on(&mut conn, ReadOutcome::Received(0));
    assert_eq!(events.len(), 1);
    assert!(matches!(events[0], ReadEvent::EndOfFile));
    assert!(conn.is_closed());
}

#[test]
fn garbage_closes() {
    let mut conn = server();
    let events = deliver(&mut conn, b"GET / HTTP/1.1\r\n\r\n");
    assert_eq!(events.len(), 1);
    assert!(matches!(events[0], ReadEvent::PacketsRefused(rustls::TLSError::CorruptMessage)));
    assert!(conn.is_closed());
}

#[test]
fn broken_session_keeps_refusing() {
    let mut conn = server();
    deliver(&mut conn, b"GET / HTTP/1.1\r\n\r\n");
    let events = deliver(&mut conn, &outgoing(&mut client()));
    assert_eq!(events.len(), 1);
    assert!(matches!(events[0], ReadEvent::PacketsRefused(rustls::TLSError::CorruptMessage)));
    assert!(conn.is_closed());
}

#[test]
fn closed_connection_stays_closed() {
    let mut client = client();
    let mut conn = server();
    exchange(&mut client, &mut conn);
    conn.shutdown();

    // The request is read, but a closed connection does not answer it.
    client.write_all(&REQUEST).unwrap();
    let events = exchange(&mut client, &mut conn);
    assert_eq!(events.len(), 1);
    assert!(matches!(events[0], ReadEvent::PlaintextRead(16)));
    assert_eq!(plaintext(&mut client), Vec::<u8>::new());
    assert!(carry_on(&mut conn, ReadOutcome::WouldBlock).is_empty());
    assert!(conn.is_closed());
}

#[test]
fn close_notify_closes() {
    let mut client = client();
    let mut conn = server();
    exchange(&mut client, &mut conn);
    client.send_close_notify();
    let events = deliver(&mut conn, &outgoing(&mut client));
    assert_eq!(events.len(), 1);
    assert!(matches!(
        &events[0],
        ReadEvent::PlaintextFailed(e) if e.kind() == ErrorKind::ConnectionAborted
    ));
    assert!(conn.is_closed());
}

#[test]
fn request_with_close_notify_is_not_answered() {
    let mut client = client();
    let mut conn = server();
    exchange(&mut client, &mut conn);
    client.write_all(&REQUEST).unwrap();
    client.send_close_notify();
    let events = deliver(&mut conn, &outgoing(&mut client));
    assert_eq!(events.len(), 1);
    assert!(matches!(&events[0], ReadEvent::PlaintextFailed(_)));
    assert!(conn.is_closed());
    assert!(outgoing(conn.session_mut()).is_empty());
}

#[test]
fn refusal_still_reads_what_came_before_it() {
    let mut client = client();
    let mut conn = server();
    exchange(&mut client, &mut conn);
    client.write_all(&REQUEST).unwrap();
    let mut bytes = outgoing(&mut client);
    client.write_all(b"broken").unwrap();
    let mut broken = outgoing(&mut client);
    let last = broken.len() - 1;
    broken[last] ^= 1;
    bytes.append(&mut broken);

    let events = deliver(&mut conn, &bytes);
    assert_eq!(events.len(), 2);
    assert!(matches!(events[0], ReadEvent::PacketsRefused(rustls::TLSError::DecryptError)));
    assert!(matches!(events[1], ReadEvent::PlaintextRead(16)));
    assert!(conn.is_closed());
}

#[test]
fn response_that_does_not_fit_is_reported() {
    let mut client = client();
    let mut conn = server();
    exchange(&mut client, &mut conn);
    conn.session_mut().set_buffer_limit(10);
    client.write_all(&REQUEST).unwrap();
    let events = deliver(&mut conn, &outgoing(&mut client));
    assert_eq!(events.len(), 2);
    assert!(matches!(events[0], ReadEvent::PlaintextRead(16)));
    assert!(matches!(&events[1], ReadEvent::ResponseFailed(e) if e.kind() == ErrorKind::WriteZero));
    assert!(!conn.is_closed());
}

#[test]
fn results_lead_from_state_to_state() {
    let connected = KeServerConnState::Connected;
    let handshaking = KeServerConnState::TlsHandshaking;
    let opened = KeServerConnState::Opened;
    let sent = KeServerConnState::ResponseSent;
    let closed = KeServerConnState::Closed;
    let failure = || Error::new(ErrorKind::ConnectionAborted, "gone");

    assert_eq!(connected.transport_read(&ReadOutcome::Received(3)), handshaking);
    assert_eq!(connected.transport_read(&ReadOutcome::WouldBlock), handshaking);
    assert_eq!(opened.transport_read(&ReadOutcome::Received(3)), opened);
    assert_eq!(connected.transport_read(&ReadOutcome::Received(0)), closed);
    assert_eq!(opened.transport_read(&ReadOutcome::Failed(failure())), closed);

    assert_eq!(handshaking.packets_processed(&Ok(())), handshaking);
    assert_eq!(sent.packets_processed(&Err(rustls::TLSError::DecryptError)), closed);

    assert_eq!(handshaking.plaintext_read(&Ok(0)), handshaking);
    assert_eq!(handshaking.plaintext_read(&Ok(4)), opened);
    assert_eq!(sent.plaintext_read(&Ok(4)), sent);
    assert_eq!(closed.plaintext_read(&Ok(4)), closed);
    assert_eq!(opened.plaintext_read(&Err(failure())), closed);

    assert_eq!(opened.response_written(&Ok(())), sent);
    assert_eq!(opened.response_written(&Err(failure())), opened);
}

#[test]
fn events_are_reported_as_they_come() {
    let mut client = client();
    let mut conn = server();
    exchange(&mut client, &mut conn);
    client.write_all(&REQUEST).unwrap();
    let mut bytes = outgoing(&mut client);
    client.write_all(b"broken").unwrap();
    let mut broken = outgoing(&mut client);
    let last = broken.len() - 1;
    broken[last] ^= 1;
    bytes.append(&mut broken);

    let heard = RefCell::new(vec![]);
    let report = |event: &ReadEvent| heard.borrow_mut().push(format!("{:?}", event));
    let gen_key = |session: &rustls::ServerSession| {
        heard.borrow_mut().push("keys".to_string());
        export(session)
    };
    let count = conn.session_mut().read_tls(&mut &bytes[..]).unwrap();
    let outcome = ReadOutcome::Received(count);
    conn.read_ready(outcome, &gen_key, &latest_key, &make_cookie, &report);
    assert_eq!(*heard.borrow(), vec!["PacketsRefused(DecryptError)", "PlaintextRead(16)", "keys"]);
    assert!(conn.is_closed());
}

#[test]
fn write_failure_closes() {
    let heard = RefCell::new(vec![]);
    let report = |error: &Error| heard.borrow_mut().push(error.kind());
    let mut conn = server();
    assert!(conn.do_tls_write_and_handle_error(Ok(12), &report).is_none());
    assert!(!conn.is_closed());
    assert!(heard.borrow().is_empty());
    let failure = Error::new(ErrorKind::BrokenPipe, "gone");
    let given_back = conn.do_tls_write_and_handle_error(Err(failure), &report);
    assert_eq!(given_back.unwrap().kind(), ErrorKind::BrokenPipe);
    assert_eq!(*heard.borrow(), vec![ErrorKind::BrokenPipe]);
    assert!(conn.is_closed());
}

#[test]
fn waits_for_what_the_session_wants() {
    let both = mio::Ready::readable() | mio::Ready::writable();
    let mut client = client();
    let mut conn = server();
    assert_eq!(conn.event_set(), mio::Ready::readable());

    // The server has its part of the handshake to send.
    assert!(deliver(&mut conn, &outgoing(&mut client)).is_empty());
    assert_eq!(conn.event_set(), both);
    let to_client = outgoing(conn.session_mut());
    assert_eq!(conn.event_set(), mio::Ready::readable());
    client.read_tls(&mut &to_client[..]).unwrap();
    client.process_new_packets().unwrap();
    exchange(&mut client, &mut conn);

    // Plaintext that nobody has read yet holds back further reads.
    client.write_all(&REQUEST).unwrap();
    let bytes = outgoing(&mut client);
    conn.session_mut().read_tls(&mut &bytes[..]).unwrap();
    conn.session_mut().process_new_packets().unwrap();
    assert_eq!(conn.event_set(), mio::Ready::readable());
    conn.session_mut().write_all(b"something").unwrap();
    assert_eq!(conn.event_set(), mio::Ready::writable());
}

#[test]
fn registration_has_the_token_and_is_level_triggered() {
    let conn = server();
    for registration in [conn.register(), conn.reregister()].iter() {
        assert_eq!(registration.token, TOKEN);
        assert_eq!(registration.interest, mio::Ready::readable());
        assert_eq!(registration.opts, mio::PollOpt::level());
    }
}

fn steps(conn: &KeServerConn, readiness: mio::Ready) -> Vec<ReadyStep> {
    let mut steps = vec![];
    let mut step = conn.ready(readiness, ReadyStep::Start);
    while step != ReadyStep::Done {
        steps.push(step);
        step = conn.ready(readiness, step);
    }
    steps
}

#[test]
fn ready_connection_is_handled_in_order() {
    let both = mio::Ready::readable() | mio::Ready::writable();
    let mut conn = server();
    assert_eq!(
        steps(&conn, both),
        vec![ReadyStep::Read, ReadyStep::Write, ReadyStep::Reregister]
    );
    assert_eq!(
        steps(&conn, mio::Ready::readable()),
        vec![ReadyStep::Read, ReadyStep::Reregister]
    );
    assert_eq!(
        steps(&conn, mio::Ready::writable()),
        vec![ReadyStep::Write, ReadyStep::Reregister]
    );
    assert_eq!(steps(&conn, mio::Ready::empty()), vec![ReadyStep::Reregister]);

    conn.shutdown();
    assert_eq!(steps(&conn, both), vec![ReadyStep::Read, ReadyStep::Write]);
    assert_eq!(steps(&conn, mio::Ready::empty()), Vec::<ReadyStep>::new());
    assert_eq!(conn.ready(both, ReadyStep::Done), ReadyStep::Done);
}

#[test]
fn fragment_length_must_be_usable() {
    for (mtu, usable) in
        [(None, true), (Some(0), false), (Some(1), true), (Some(16384), true), (Some(16385), false)]
            .iter()
    {
        let mut config = tls_config();
        config.mtu = *mtu;
        assert_eq!(KeServerState::new(Arc::new(config), PORT).is_some(), *usable);
    }
}

#[test]
fn configuration_must_be_for_tls13_alone() {
    let tls12 = rustls::ProtocolVersion::TLSv1_2;
    let tls13 = rustls::ProtocolVersion::TLSv1_3;
    for (versions, usable) in [
        (vec![tls13], true),
        (vec![tls12], false),
        (vec![tls13, tls12], false),
        (vec![], false),
    ]
    .iter()
    {
        let mut config = tls_config();
        config.versions = versions.clone();
        assert_eq!(KeServerState::new(Arc::new(config), PORT).is_some(), *usable);
    }

    // Allowing TLS 1.3 does not help where there is no cipher suite for it.
    let mut config = tls_config();
    config.ciphersuites.clear();
    assert!(KeServerState::new(Arc::new(config), PORT).is_none());
}

#[test]
fn configuration_needs_a_private_key() {
    let made = server_config(vec![SERVER_CERT.to_vec()], vec![1, 2, 3], &vec![]);
    assert!(matches!(made, Err(ConfigError::KeyRefused(_))));
}

#[test]
fn certificates_must_fit_in_their_message() {
    let longest = 16777211 - 5;
    assert!(chain_fits(&vec![]));
    assert!(chain_fits(&vec![vec![0; longest]]));
    assert!(!chain_fits(&vec![vec![0; longest + 1]]));
    assert!(!chain_fits(&vec![vec![0; longest], vec![]]));
    assert!(chain_fits(&vec![vec![0; longest - 5], vec![]]));
    assert!(!chain_fits(&vec![vec![0; longest - 5], vec![0]]));

    let made = server_config(vec![vec![0; longest + 1]], SERVER_KEY.to_vec(), &vec![]);
    assert!(matches!(made, Err(ConfigError::ChainTooLong)));
}
