//! Entry points that older callers still use. None of them touches the
//! network, and each returns nothing.

use vstd::prelude::*;
use crate::address::{AddrError, SocketAddress};

verus! {

/// `hickory_resolver::config::ResolverConfig`, carried as an opaque value.
#[verifier::external_type_specification]
#[verifier::external_body]
pub struct ExResolverConfig(hickory_resolver::config::ResolverConfig);

/// The name by which callers refer to the default resolver.
pub const RESOLVER: &'static str = "default_resolver";

/// The resolver configuration that callers should use: always `None`, which
/// stands for the default one.
pub fn get_default_resolver_config() -> (config: Option<hickory_resolver::config::ResolverConfig>)
    ensures
        config is None,
{
    None
}

/// The text records of a domain: always the empty list, for every domain.
pub fn resolve_txt_record(_domain: &str) -> (records: Result<Vec<String>, AddrError>)
    ensures
        records is Ok,
        records->Ok_0@.len() == 0,
{
    Ok(Vec::new())
}

/// The socket addresses of a host and a port: always the empty list, for
/// every host and port.
pub fn socket_addrs(_host: &str, _port: u16) -> (addrs: Result<Vec<SocketAddress>, AddrError>)
    ensures
        addrs is Ok,
        addrs->Ok_0@.len() == 0,
{
    Ok(Vec::new())
}

} // verus!
