//! Reading what a name-server lookup came to.
//!
//! The lookup itself is made by the caller. What it returned, a
//! `hickory_resolver::lookup::Lookup` or an error, is decided on here.

use vstd::prelude::*;
use crate::address::{IpAddress, Record};
use crate::resolve::{next_step, Query, Step};

verus! {

/// `hickory_resolver::lookup::Lookup`, carried as an opaque value.
#[verifier::external_type_specification]
#[verifier::external_body]
pub struct ExLookup(hickory_resolver::lookup::Lookup);

/// `hickory_resolver::error::ResolveError`, carried as an opaque value.
#[verifier::external_type_specification]
#[verifier::external_body]
pub struct ExLookupError(hickory_resolver::error::ResolveError);

/// What a lookup holds: the data that `Lookup::iter` hands out, in its order,
/// each reduced to a [`Record`]. An `A` datum stands as its four octets, an
/// `AAAA` datum as its eight groups, any other datum as [`Record::Other`].
/// The iterator ends at the first record that carries no data.
pub uninterp spec fn lookup_records(lookup: hickory_resolver::lookup::Lookup) -> Seq<Record>;

/// The records that the outcome of a lookup stands for. A lookup that failed,
/// for whatever reason, stands for no records.
pub open spec fn outcome_records(
    outcome: Result<hickory_resolver::lookup::Lookup, hickory_resolver::error::ResolveError>,
) -> Seq<Record> {
    match outcome {
        Ok(lookup) => lookup_records(lookup),
        Err(_) => Seq::empty(),
    }
}

/// Collects what `hickory_resolver::lookup::Lookup::iter` hands out, each
/// datum reduced to a [`Record`] by its variant alone.
///
/// Trusted: the result is what [`lookup_records`] names. Nothing is claimed
/// about which records a lookup holds.
#[verifier::external_body]
fn records_of(lookup: &hickory_resolver::lookup::Lookup) -> (records: Vec<Record>)
    ensures
        records@ == lookup_records(*lookup),
{
    let mut records = Vec::new();
    for data in lookup.iter() {
        records.push(match data {
            hickory_proto::rr::RData::A(a) => {
                let o = a.0.octets();
                Record::Address(IpAddress::V4(o[0], o[1], o[2], o[3]))
            },
            hickory_proto::rr::RData::AAAA(a) => {
                let g = a.0.segments();
                Record::Address(IpAddress::V6(g[0], g[1], g[2], g[3], g[4], g[5], g[6], g[7]))
            },
            _ => Record::Other,
        });
    }
    records
}

impl Query {
    /// Decides on the outcome of the lookup that was made for this query.
    ///
    /// The records of a lookup that succeeded are decided on as
    /// [`Query::answer`] does. A lookup that failed is treated as one without
    /// records, whether the name has no such record, the exchange timed out
    /// or the server could not be reached.
    pub fn answer_lookup(
        self,
        outcome: Result<hickory_resolver::lookup::Lookup, hickory_resolver::error::ResolveError>,
    ) -> (step: Step)
        ensures
            step@ == next_step(self@, outcome_records(outcome)),
    {
        match outcome {
            Ok(lookup) => {
                let records = records_of(&lookup);
                self.answer(&records)
            },
            Err(_) => {
                let records: Vec<Record> = Vec::new();
                self.answer(&records)
            },
        }
    }
}

} // verus!
