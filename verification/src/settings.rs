//! The fixed configuration of the resolver: which name servers are asked,
//! and how patiently.

use vstd::prelude::*;
use crate::address::{Family, IpAddress, SocketAddress};

verus! {

/// The port on which name servers listen.
pub const NAME_SERVER_PORT: u16 = 53;

/// The seconds to wait for the answer to one attempt.
pub const TIMEOUT_SECS: u64 = 5;

/// The attempts made for one query.
pub const ATTEMPTS: usize = 2;

/// How a name server is spoken to.
#[derive(Clone, Copy, Debug, PartialEq, Eq, Structural)]
pub enum Transport {
    Udp,
    Tcp,
}

/// One name server.
#[derive(Clone, Copy, Debug, PartialEq, Eq, Structural)]
pub struct Endpoint {
    pub address: SocketAddress,
    pub transport: Transport,
}

/// What a resolver is built from. The host's own resolver configuration
/// plays no part in it.
#[derive(Clone, Copy, Debug, PartialEq, Eq, Structural)]
pub struct ResolverSettings {
    /// The name server that is reached over IPv6.
    pub ipv6_server: Endpoint,
    /// The name server that is reached over IPv4.
    pub ipv4_server: Endpoint,
    /// The seconds to wait for the answer to one attempt.
    pub timeout_secs: u64,
    /// The attempts made for one query.
    pub attempts: usize,
    /// Whether the host's table of fixed names is consulted.
    pub use_hosts_file: bool,
}

impl ResolverSettings {
    /// Whether the settings name one server of each family.
    pub open spec fn dual_stack(self) -> bool {
        self.ipv6_server.address.ip.spec_family() == Family::V6
            && self.ipv4_server.address.ip.spec_family() == Family::V4
    }

    /// The longest that the resolution of one address can take, in seconds:
    /// every attempt of both queries runs into its timeout.
    pub open spec fn spec_worst_case_secs(self) -> int {
        self.timeout_secs * self.attempts * 2
    }

    /// The longest that the resolution of one address can take, in seconds;
    /// `None` where that number does not fit.
    pub fn worst_case_secs(&self) -> (budget: Option<u64>)
        ensures
            match budget {
                Some(b) => b == self.spec_worst_case_secs(),
                None => self.spec_worst_case_secs() > u64::MAX,
            },
    {
        let per_query = match self.timeout_secs.checked_mul(self.attempts as u64) {
            Some(q) => q,
            None => {
                assert(self.timeout_secs * self.attempts * 2 > u64::MAX) by (nonlinear_arith)
                    requires
                        self.timeout_secs * self.attempts > u64::MAX,
                ;
                return None;
            },
        };
        per_query.checked_mul(2)
    }
}

/// The settings that every resolution uses: the two public name servers
/// `[2606:4700:4700::1111]:53` and `1.1.1.1:53` over UDP, five seconds for
/// each of at most two attempts, and no fixed names of the host.
pub open spec fn standard_settings() -> ResolverSettings {
    ResolverSettings {
        ipv6_server: Endpoint {
            address: SocketAddress {
                ip: IpAddress::V6(0x2606, 0x4700, 0x4700, 0, 0, 0, 0, 0x1111),
                port: 53,
            },
            transport: Transport::Udp,
        },
        ipv4_server: Endpoint {
            address: SocketAddress { ip: IpAddress::V4(1, 1, 1, 1), port: 53 },
            transport: Transport::Udp,
        },
        timeout_secs: 5,
        attempts: 2,
        use_hosts_file: false,
    }
}

/// Returns the settings that every resolution uses.
pub fn resolver_settings() -> (settings: ResolverSettings)
    ensures
        settings == standard_settings(),
        settings.dual_stack(),
        settings.spec_worst_case_secs() == 20,
{
    let v6 = SocketAddress {
        ip: IpAddress::V6(0x2606, 0x4700, 0x4700, 0, 0, 0, 0, 0x1111),
        port: NAME_SERVER_PORT,
    };
    let v4 = SocketAddress { ip: IpAddress::V4(1, 1, 1, 1), port: NAME_SERVER_PORT };
    assert(5 * 2 * 2 == 20) by (nonlinear_arith);
    ResolverSettings {
        ipv6_server: Endpoint { address: v6, transport: Transport::Udp },
        ipv4_server: Endpoint { address: v4, transport: Transport::Udp },
        timeout_secs: TIMEOUT_SECS,
        attempts: ATTEMPTS,
        use_hosts_file: false,
    }
}

} // verus!
