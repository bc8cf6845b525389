//! TLS configurations that connections can rely on.

use vstd::prelude::*;

use crate::tls::{
    chain_len, config_mtu, config_protocols, config_supports, contents, new_config, only_version,
    serves, set_protocols, set_single_cert, standard_parts, usable_config, TlsVersion,
    CERTIFICATE_OVERHEAD, MAX_CHAIN,
};

verus! {

/// Why there is no configuration.
#[derive(Debug)]
pub enum ConfigError {
    /// The certificates do not fit in a TLS certificate message.
    ChainTooLong,
    /// The private key was not accepted.
    KeyRefused(rustls::TLSError),
}

proof fn lemma_chain_grows(chain: Seq<Vec<u8>>, n: int)
    requires
        0 <= n <= chain.len(),
    ensures
        chain_len(chain.take(n)) <= chain_len(chain),
    decreases chain.len(),
{
    if n < chain.len() {
        lemma_chain_grows(chain.drop_last(), n);
        assert(chain.drop_last().take(n) =~= chain.take(n));
    } else {
        assert(chain.take(n) =~= chain);
    }
}

/// Tells whether the certificates fit in a TLS certificate message.
pub fn chain_fits(chain: &Vec<Vec<u8>>) -> (fits: bool)
    ensures
        fits == (chain_len(chain@) <= MAX_CHAIN),
{
    let mut len: usize = 0;
    let mut i: usize = 0;
    assert(chain@.take(0) =~= seq![]);
    while i < chain.len()
        invariant
            i <= chain@.len(),
            len == chain_len(chain@.take(i as int)),
            len <= MAX_CHAIN,
        decreases chain@.len() - i,
    {
        proof {
            assert(chain@.take(i + 1).drop_last() =~= chain@.take(i as int));
            lemma_chain_grows(chain@, i + 1);
        }
        if MAX_CHAIN - len < CERTIFICATE_OVERHEAD || chain[i].len() > MAX_CHAIN - len
            - CERTIFICATE_OVERHEAD {
            return false;
        }
        len = len + chain[i].len() + CERTIFICATE_OVERHEAD;
        i = i + 1;
    }
    assert(chain@.take(i as int) =~= chain@);
    true
}

/// A configuration for TLS 1.3 with one certificate chain, given from the certificate of the server
/// on, the private key of that certificate, all in DER, and the application protocols that clients
/// may ask for.
///
/// Whether the key is accepted is for `rustls` to decide.
pub fn server_config(
    cert_chain: Vec<Vec<u8>>,
    key_der: Vec<u8>,
    protocols: &Vec<Vec<u8>>,
) -> (config: Result<rustls::ServerConfig, ConfigError>)
    ensures
        config matches Ok(config) ==> {
            &&& usable_config(config)
            &&& serves(config, contents(cert_chain@), key_der@)
            &&& config_protocols(config) == contents(protocols@)
        },
        config matches Err(ConfigError::ChainTooLong) <==> chain_len(cert_chain@) > MAX_CHAIN,
{
    if !chain_fits(&cert_chain) {
        return Err(ConfigError::ChainTooLong);
    }
    let mut config: rustls::ServerConfig = new_config();
    only_version(&mut config, TlsVersion::Tls13);
    set_protocols(&mut config, protocols);
    match set_single_cert(&mut config, cert_chain, key_der) {
        Ok(_) => Ok(config),
        Err(error) => Err(ConfigError::KeyRefused(error)),
    }
}

/// A configuration is usable exactly if it does not limit the fragment length, or to one from 1 to
/// 16384, supports TLS 1.3 and not TLS 1.2, and has known parts.
pub proof fn law_what_is_usable(config: rustls::ServerConfig)
    ensures
        usable_config(config) <==> {
            &&& config_mtu(config) matches Some(mtu) ==> 1 <= mtu <= 16384
            &&& config_supports(config, TlsVersion::Tls13)
            &&& !config_supports(config, TlsVersion::Tls12)
            &&& standard_parts(config)
        },
{
}

/// Certificates take up five bytes more than their own, each by itself, and have room for 16777211.
pub proof fn law_certificates_add_up(chain: Seq<Vec<u8>>, more: Seq<Vec<u8>>)
    ensures
        chain_len(Seq::empty()) == 0,
        forall|cert: Vec<u8>| #[trigger] chain_len(seq![cert]) == cert@.len() + 5,
        chain_len(chain + more) == chain_len(chain) + chain_len(more),
        MAX_CHAIN == 16777211,
    decreases more.len(),
{
    assert forall|cert: Vec<u8>| #[trigger] chain_len(seq![cert]) == cert@.len() + 5 by {
        assert(seq![cert].drop_last() =~= seq![]);
        assert(chain_len(seq![cert].drop_last()) == 0);
    }
    if more.len() == 0 {
        assert(chain + more =~= chain);
    } else {
        law_certificates_add_up(chain, more.drop_last());
        assert((chain + more).drop_last() =~= chain + more.drop_last());
    }
}

/// The contents of a list are those of its items, each at its place.
pub proof fn law_contents_are_in_place(list: Seq<Vec<u8>>)
    ensures
        contents(list).len() == list.len(),
        forall|i: int| 0 <= i < list.len() ==> #[trigger] contents(list)[i] == list[i]@,
{
}

} // verus!
