//! What the connection works with of a `rustls` server session and its configuration.
//!
//! A session is opaque here. It is spoken of as what it is to its user: queues of bytes, with the
//! configuration and the limit that they were made with, and whether the peer has finished or has
//! broken the protocol. All of what this file claims of `rustls`, and of the errors of `std`, is
//! taken on trust.

use std::io::{Read, Write};
use std::sync::Arc;

use rustls::Session;
use vstd::prelude::*;

verus! {

/// The longest TLS fragment that `rustls` sends.
pub const MAX_FRAGMENT: usize = 16384;

/// The most bytes that the certificates can take up in a TLS certificate message, whose length is a
/// number of 24 bits: it also holds an empty context and the length of the list.
pub const MAX_CHAIN: usize = 16777211;

/// The bytes that a certificate takes up there beyond its own: its length, and an empty list of
/// extensions.
pub const CERTIFICATE_OVERHEAD: usize = 5;

/// The versions of TLS that `rustls` knows.
#[derive(Clone, Copy, Debug, PartialEq, Eq, Structural)]
pub enum TlsVersion {
    Tls12,
    Tls13,
}

#[verifier::external_type_specification]
#[verifier::external_body]
pub struct ExServerConfig(rustls::ServerConfig);

#[verifier::external_type_specification]
#[verifier::external_body]
pub struct ExServerSession(rustls::ServerSession);

#[verifier::external_type_specification]
#[verifier::external_body]
pub struct ExTlsError(rustls::TLSError);

#[verifier::external_type_specification]
#[verifier::external_body]
pub struct ExIoError(std::io::Error);

/// The limit on the length of a TLS fragment that a configuration was made with.
pub uninterp spec fn config_mtu(config: rustls::ServerConfig) -> Option<usize>;

/// The configuration allows the version, and has a cipher suite for it.
pub uninterp spec fn config_supports(config: rustls::ServerConfig, version: TlsVersion) -> bool;

/// The exchangeable parts of the configuration are ones that `rustls` comes with: sessions are kept
/// in memory, there are no tickets, no key is logged, no client is asked for a certificate, and
/// there is at most one certificate chain, which fits in its message and has no list of signed
/// certificate timestamps.
pub uninterp spec fn standard_parts(config: rustls::ServerConfig) -> bool;

/// The configuration has the certificates of the chain for every client, and signs with the
/// private key that the bytes stand for.
pub uninterp spec fn serves(
    config: rustls::ServerConfig,
    chain: Seq<Seq<u8>>,
    key_der: Seq<u8>,
) -> bool;

/// The application protocols of the configuration, the most preferred one first.
pub uninterp spec fn config_protocols(config: rustls::ServerConfig) -> Seq<Seq<u8>>;

/// The configuration that a session was made with.
pub uninterp spec fn session_config(session: rustls::ServerSession) -> rustls::ServerConfig;

/// The decrypted bytes that a session holds for its user to read, oldest first.
pub uninterp spec fn received_plaintext(session: rustls::ServerSession) -> Seq<u8>;

/// All the bytes that a session has decrypted for its user, from the first on, whether they were
/// read out or not.
pub uninterp spec fn delivered_plaintext(session: rustls::ServerSession) -> Seq<u8>;

/// The session holds whole TLS records from the transport that were not processed yet.
pub uninterp spec fn packets_waiting(session: rustls::ServerSession) -> bool;

/// The bytes that a session has taken from its user to send, from the first on, whether it still
/// holds them or has encrypted them already.
pub uninterp spec fn accepted_plaintext(session: rustls::ServerSession) -> Seq<u8>;

/// The TLS bytes that a session holds for the transport, oldest first.
pub uninterp spec fn pending_tls(session: rustls::ServerSession) -> Seq<u8>;

/// The limit on the buffers of a session, in bytes. Zero stands for no limit.
pub uninterp spec fn buffer_limit(session: rustls::ServerSession) -> nat;

/// The peer has announced the end of its data and nothing from it is left to process.
pub uninterp spec fn at_eof(session: rustls::ServerSession) -> bool;

/// The session has met a TLS error. Such an error is fatal to it.
pub uninterp spec fn is_broken(session: rustls::ServerSession) -> bool;

/// The error means that there is nothing to read or write now.
pub uninterp spec fn would_block(error: std::io::Error) -> bool;

/// `rustls` can cut its messages to the fragment length.
pub open spec fn usable_mtu(mtu: Option<usize>) -> bool {
    match mtu {
        Some(mtu) => 0 < mtu <= MAX_FRAGMENT,
        None => true,
    }
}

/// `rustls` handles whatever a client sends without a panic: messages can be cut to the fragment
/// length, TLS 1.3 is spoken and nothing else, and the parts of the configuration are known.
///
/// None of these can be left out. The TLS 1.2 handshake of `rustls` panics on a client key exchange
/// that does not decode, and such a handshake can begin wherever TLS 1.3 is not supported. So does
/// either handshake on a client certificate that was decoded for the other version, where clients
/// are asked for one, and on timestamps that do not decode, where there are any.
pub open spec fn usable_config(config: rustls::ServerConfig) -> bool {
    &&& usable_mtu(config_mtu(config))
    &&& config_supports(config, TlsVersion::Tls13)
    &&& !config_supports(config, TlsVersion::Tls12)
    &&& standard_parts(config)
}

/// The bytes that the certificates take up in a TLS certificate message.
pub open spec fn chain_len(chain: Seq<Vec<u8>>) -> nat
    decreases chain.len(),
{
    if chain.len() == 0 {
        0
    } else {
        chain_len(chain.drop_last()) + chain.last()@.len() + CERTIFICATE_OVERHEAD as nat
    }
}

/// The contents of each item of a list.
pub open spec fn contents(list: Seq<Vec<u8>>) -> Seq<Seq<u8>> {
    list.map_values(|item: Vec<u8>| item@)
}

/// The fragment length stays, and so does that the parts are known.
pub open spec fn same_parts(before: rustls::ServerConfig, after: rustls::ServerConfig) -> bool {
    &&& config_mtu(after) == config_mtu(before)
    &&& standard_parts(before) ==> standard_parts(after)
}

/// The plaintext that a session comes to hold from one point to another, if none is read out
/// between: what it held, and all that it has decrypted since.
pub open spec fn arrived(before: rustls::ServerSession, after: rustls::ServerSession) -> Seq<u8> {
    received_plaintext(before) + delivered_plaintext(after).skip(
        delivered_plaintext(before).len() as int,
    )
}

/// What processing packets does: all packets are processed, unless one breaks the session. The
/// queues only grow at the end, nothing is taken from the user, and the limit and the configuration
/// stay. It fails exactly if the session is broken after it, does nothing to a session that was
/// broken before, and has nothing to do where no packet waits.
pub open spec fn packets_taken(
    before: rustls::ServerSession,
    processed: Result<(), rustls::TLSError>,
    after: rustls::ServerSession,
) -> bool {
    &&& delivered_plaintext(before).is_prefix_of(delivered_plaintext(after))
    &&& received_plaintext(after) == arrived(before, after)
    &&& pending_tls(before).is_prefix_of(pending_tls(after))
    &&& accepted_plaintext(after) == accepted_plaintext(before)
    &&& buffer_limit(after) == buffer_limit(before)
    &&& session_config(after) == session_config(before)
    &&& processed is Err <==> is_broken(after)
    &&& is_broken(before) ==> after == before
    &&& processed is Ok ==> !packets_waiting(after)
    &&& !packets_waiting(before) && !is_broken(before) ==> after == before
}

/// What reading out the plaintext does: that queue is empty, and all else stays.
pub open spec fn plaintext_drained(
    before: rustls::ServerSession,
    after: rustls::ServerSession,
) -> bool {
    &&& received_plaintext(after) == Seq::<u8>::empty()
    &&& delivered_plaintext(after) == delivered_plaintext(before)
    &&& packets_waiting(after) == packets_waiting(before)
    &&& pending_tls(after) == pending_tls(before)
    &&& accepted_plaintext(after) == accepted_plaintext(before)
    &&& buffer_limit(after) == buffer_limit(before)
    &&& session_config(after) == session_config(before)
    &&& at_eof(after) == at_eof(before)
    &&& is_broken(after) == is_broken(before)
}

/// What writing `plaintext` does: on success the session has taken all of it, on failure a part
/// from its start. What waits for the transport only grows at the end, and all else stays.
pub open spec fn plaintext_written(
    before: rustls::ServerSession,
    plaintext: Seq<u8>,
    written: Result<(), std::io::Error>,
    after: rustls::ServerSession,
) -> bool {
    &&& written is Ok ==> accepted_plaintext(after) == accepted_plaintext(before) + plaintext
    &&& exists|n: int|
        0 <= n <= plaintext.len() && accepted_plaintext(after) == accepted_plaintext(before)
            + #[trigger] plaintext.take(n)
    &&& buffer_limit(before) == 0 ==> written is Ok
    &&& received_plaintext(after) == received_plaintext(before)
    &&& delivered_plaintext(after) == delivered_plaintext(before)
    &&& packets_waiting(after) == packets_waiting(before)
    &&& pending_tls(before).is_prefix_of(pending_tls(after))
    &&& buffer_limit(after) == buffer_limit(before)
    &&& session_config(after) == session_config(before)
    &&& at_eof(after) == at_eof(before)
    &&& is_broken(after) == is_broken(before)
}

/// Reads the field `mtu` of a `rustls::ServerConfig`.
#[verifier::external_body]
pub(crate) fn mtu(config: &Arc<rustls::ServerConfig>) -> (mtu: Option<usize>)
    ensures
        mtu == config_mtu(**config),
{
    config.mtu
}

/// Calls `rustls::ServerConfig::supports_version`.
///
/// Taken on trust: the configuration alone decides the result.
#[verifier::external_body]
pub(crate) fn supports_version(
    config: &Arc<rustls::ServerConfig>,
    version: TlsVersion,
) -> (supported: bool)
    ensures
        supported == config_supports(**config, version),
{
    config.supports_version(match version {
        TlsVersion::Tls12 => rustls::ProtocolVersion::TLSv1_2,
        TlsVersion::Tls13 => rustls::ProtocolVersion::TLSv1_3,
    })
}

/// Calls `rustls::ServerConfig::new`, with `rustls::NoClientAuth` for the clients.
///
/// Taken on trust: the configuration does not limit the fragment length, supports every version,
/// has the parts that `rustls` comes with, and has no application protocol.
#[verifier::external_body]
pub(crate) fn new_config() -> (config: rustls::ServerConfig)
    ensures
        config_mtu(config) is None,
        forall|version: TlsVersion| #[trigger] config_supports(config, version),
        standard_parts(config),
        config_protocols(config) == Seq::<Seq<u8>>::empty(),
{
    rustls::ServerConfig::new(rustls::NoClientAuth::new())
}

/// Sets the field `versions` of a `rustls::ServerConfig` to the one version.
///
/// Taken on trust: no other version is supported then, the version itself still is if it was
/// before, and all else stays.
#[verifier::external_body]
pub(crate) fn only_version(config: &mut rustls::ServerConfig, version: TlsVersion)
    ensures
        same_parts(*old(config), *final(config)),
        forall|other: TlsVersion| #[trigger]
            config_supports(*final(config), other) ==> other == version,
        config_supports(*old(config), version) ==> config_supports(*final(config), version),
        config_protocols(*final(config)) == config_protocols(*old(config)),
{
    config.versions = vec![match version {
        TlsVersion::Tls12 => rustls::ProtocolVersion::TLSv1_2,
        TlsVersion::Tls13 => rustls::ProtocolVersion::TLSv1_3,
    }];
}

/// Calls `rustls::ServerConfig::set_protocols`.
///
/// Taken on trust: the protocols are the given ones then, in the same order, and all else stays.
#[verifier::external_body]
pub(crate) fn set_protocols(config: &mut rustls::ServerConfig, protocols: &Vec<Vec<u8>>)
    ensures
        same_parts(*old(config), *final(config)),
        forall|version: TlsVersion| #[trigger]
            config_supports(*final(config), version) == config_supports(*old(config), version),
        config_protocols(*final(config)) == contents(protocols@),
{
    config.set_protocols(protocols)
}

/// Calls `rustls::ServerConfig::set_single_cert`.
///
/// Taken on trust: once it has succeeded, the configuration serves the chain with the key. Nothing
/// else changes. That it succeeds with every good key is left unsaid: setting up an elliptic curve
/// key takes random numbers, and fails where the machine has none to give.
#[verifier::external_body]
pub(crate) fn set_single_cert(
    config: &mut rustls::ServerConfig,
    cert_chain: Vec<Vec<u8>>,
    key_der: Vec<u8>,
) -> (set: Result<(), rustls::TLSError>)
    requires
        chain_len(cert_chain@) <= MAX_CHAIN,
    ensures
        same_parts(*old(config), *final(config)),
        forall|version: TlsVersion| #[trigger]
            config_supports(*final(config), version) == config_supports(*old(config), version),
        config_protocols(*final(config)) == config_protocols(*old(config)),
        set is Ok ==> serves(*final(config), contents(cert_chain@), key_der@),
{
    let certificates = cert_chain.into_iter().map(rustls::Certificate).collect();
    config.set_single_cert(certificates, rustls::PrivateKey(key_der))
}

/// `rustls::ServerSession::new`: a session with that configuration, with empty queues and no limit
/// on its buffers, whose peer has neither finished nor broken the protocol.
pub assume_specification[ rustls::ServerSession::new ](
    config: &Arc<rustls::ServerConfig>,
) -> (session: rustls::ServerSession)
    requires
        usable_config(**config),
    ensures
        received_plaintext(session) == Seq::<u8>::empty(),
        delivered_plaintext(session) == Seq::<u8>::empty(),
        !packets_waiting(session),
        accepted_plaintext(session) == Seq::<u8>::empty(),
        pending_tls(session) == Seq::<u8>::empty(),
        buffer_limit(session) == 0,
        session_config(session) == **config,
        !at_eof(session),
        !is_broken(session),
;

/// Calls `rustls::Session::process_new_packets`.
///
/// Taken on trust: see `packets_taken`. Whether the session breaks, whether the peer has finished,
/// and what is added to the queues rests on what the peer sent, on the session's secrets and on
/// random numbers, and is left open. With a usable configuration the call panics only where the
/// machine has no random numbers to give.
#[verifier::external_body]
pub(crate) fn process_new_packets(session: &mut rustls::ServerSession) -> (processed: Result<
    (),
    rustls::TLSError,
>)
    requires
        usable_config(session_config(*old(session))),
    ensures
        packets_taken(*old(session), processed, *final(session)),
{
    session.process_new_packets()
}

/// Calls `std::io::Read::read_to_end` on the session.
///
/// Taken on trust: all received plaintext is appended to `buf`, and the call fails exactly when
/// the peer has announced the end of its data, which `rustls` reports as an error once there is
/// nothing left to read.
#[verifier::external_body]
pub(crate) fn read_to_end(session: &mut rustls::ServerSession, buf: &mut Vec<u8>) -> (read: Result<
    usize,
    std::io::Error,
>)
    ensures
        final(buf)@ == old(buf)@ + received_plaintext(*old(session)),
        plaintext_drained(*old(session), *final(session)),
        read is Err <==> at_eof(*old(session)),
        read matches Ok(n) ==> n == received_plaintext(*old(session)).len(),
{
    session.read_to_end(buf)
}

/// Calls `std::io::Write::write_all` on the session.
///
/// Taken on trust: see `plaintext_written`. It can only fail where a limit was set on the
/// buffers of the session.
#[verifier::external_body]
pub(crate) fn write_all(session: &mut rustls::ServerSession, plaintext: &Vec<u8>) -> (written:
    Result<(), std::io::Error>)
    requires
        usable_config(session_config(*old(session))),
    ensures
        plaintext_written(*old(session), plaintext@, written, *final(session)),
{
    session.write_all(plaintext)
}

/// Calls `std::io::Error::kind`, and tells whether it gives `std::io::ErrorKind::WouldBlock`.
///
/// Taken on trust: the error alone decides the result.
#[verifier::external_body]
pub(crate) fn is_would_block(error: &std::io::Error) -> (blocks: bool)
    ensures
        blocks == would_block(*error),
{
    matches!(error.kind(), std::io::ErrorKind::WouldBlock)
}

/// Calls `rustls::Session::wants_read`.
///
/// Taken on trust: a server session wants to read unless it holds plaintext for its user.
#[verifier::external_body]
pub(crate) fn wants_read(session: &rustls::ServerSession) -> (wants: bool)
    ensures
        wants == (received_plaintext(*session).len() == 0),
{
    session.wants_read()
}

/// Calls `rustls::Session::wants_write`.
///
/// Taken on trust: a session wants to write exactly when it holds bytes for the transport.
#[verifier::external_body]
pub(crate) fn wants_write(session: &rustls::ServerSession) -> (wants: bool)
    ensures
        wants == (pending_tls(*session).len() > 0),
{
    session.wants_write()
}

} // verus!
