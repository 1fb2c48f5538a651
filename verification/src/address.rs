//! Plain values for addresses, answer records and failures.

use vstd::prelude::*;

verus! {

/// The two address families.
#[derive(Clone, Copy, Debug, PartialEq, Eq, Structural)]
pub enum Family {
    V4,
    V6,
}

/// An IP address: four octets, or eight 16-bit groups, most significant first.
#[derive(Clone, Copy, Debug, PartialEq, Eq, Structural)]
pub enum IpAddress {
    V4(u8, u8, u8, u8),
    V6(u16, u16, u16, u16, u16, u16, u16, u16),
}

impl IpAddress {
    /// The family that the address belongs to.
    pub open spec fn spec_family(self) -> Family {
        match self {
            IpAddress::V4(..) => Family::V4,
            IpAddress::V6(..) => Family::V6,
        }
    }

    #[verifier::when_used_as_spec(spec_family)]
    pub fn family(self) -> (f: Family)
        ensures
            f == self.spec_family(),
    {
        match self {
            IpAddress::V4(..) => Family::V4,
            IpAddress::V6(..) => Family::V6,
        }
    }
}

/// A connectable endpoint: an IP address and a port.
#[derive(Clone, Copy, Debug, PartialEq, Eq, Structural)]
pub struct SocketAddress {
    pub ip: IpAddress,
    pub port: u16,
}

/// The record types that a resolution asks for.
#[derive(Clone, Copy, Debug, PartialEq, Eq, Structural)]
pub enum RecordKind {
    /// IPv6 address records.
    Aaaa,
    /// IPv4 address records.
    A,
}

/// One record of a name server's answer, reduced to what resolution reads.
#[derive(Clone, Copy, Debug, PartialEq, Eq, Structural)]
pub enum Record {
    /// A record that carries an address.
    Address(IpAddress),
    /// Any other record, such as an alias.
    Other,
}

/// Why a resolution failed.
#[derive(Clone, Debug, PartialEq, Eq)]
pub enum AddrError {
    /// The text has no separator between host and port.
    InvalidFormat,
    /// The text after the separator is not a 16-bit unsigned integer.
    InvalidPort,
    /// Neither query produced an address for the domain that is carried.
    ResolutionFailed(String),
}

/// The mathematical value of a [`AddrError`].
pub ghost enum ErrorView {
    InvalidFormat,
    InvalidPort,
    ResolutionFailed(Seq<char>),
}

impl View for AddrError {
    type V = ErrorView;

    open spec fn view(&self) -> ErrorView {
        match self {
            AddrError::InvalidFormat => ErrorView::InvalidFormat,
            AddrError::InvalidPort => ErrorView::InvalidPort,
            AddrError::ResolutionFailed(d) => ErrorView::ResolutionFailed(d@),
        }
    }
}

/// The first address among the records, if any record carries one.
pub open spec fn first_address(records: Seq<Record>) -> Option<IpAddress>
    decreases records.len(),
{
    if records.len() == 0 {
        None
    } else {
        match records[0] {
            Record::Address(ip) => Some(ip),
            Record::Other => first_address(records.skip(1)),
        }
    }
}

/// Finds the first address among the records of an answer.
pub fn find_first_address(records: &Vec<Record>) -> (found: Option<IpAddress>)
    ensures
        found == first_address(records@),
{
    let mut i: usize = 0;
    assert(records@.skip(0) =~= records@);
    while i < records.len()
        invariant
            i <= records.len(),
            first_address(records@) == first_address(records@.skip(i as int)),
        decreases records.len() - i,
    {
        match records[i] {
            Record::Address(ip) => {
                assert(records@.skip(i as int)[0] == records@[i as int]);
                return Some(ip);
            },
            Record::Other => {
                assert(records@.skip(i as int)[0] == records@[i as int]);
                assert(records@.skip(i as int).skip(1) =~= records@.skip(i as int + 1));
            },
        }
        i += 1;
    }
    None
}

} // verus!
