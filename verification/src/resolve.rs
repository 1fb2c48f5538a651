//! Resolution of one address, one decision at a time.
//!
//! [`resolve_addr`] settles everything that needs no name server. Where a
//! name has to be looked up it returns the [`Query`] to make. The caller
//! makes it and hands what came back to `Query::answer_lookup`, or the
//! records themselves to [`Query::answer`]; either settles the resolution or
//! asks for the second query. An exchange that failed or timed out counts as
//! an answer without records.

use vstd::prelude::*;
use vstd::string::*;
use crate::address::{
    first_address, find_first_address, ErrorView, IpAddress, Record, RecordKind, AddrError,
    SocketAddress,
};
use crate::text::{find_last_colon, last_colon, parse_port, port_of};

verus! {

/// A query that the caller has to make on behalf of a resolution.
#[derive(Clone, Debug, PartialEq, Eq)]
pub struct Query {
    /// The name to look up: the address text before its last colon.
    pub domain: String,
    /// The port that the address text named; no answer changes it.
    pub port: u16,
    /// The record type to ask for.
    pub kind: RecordKind,
}

/// The mathematical value of a [`Query`].
pub ghost struct QueryView {
    pub domain: Seq<char>,
    pub port: u16,
    pub kind: RecordKind,
}

impl View for Query {
    type V = QueryView;

    open spec fn view(&self) -> QueryView {
        QueryView { domain: self.domain@, port: self.port, kind: self.kind }
    }
}

/// Where a resolution stands after a decision.
#[derive(Clone, Debug, PartialEq, Eq)]
pub enum Step {
    /// The resolution succeeded with this address.
    Resolved(SocketAddress),
    /// The resolution failed for this reason.
    Failed(AddrError),
    /// The caller has to make this query and report its answer.
    Ask(Query),
}

/// The mathematical value of a [`Step`].
pub ghost enum StepView {
    Resolved(SocketAddress),
    Failed(ErrorView),
    Ask(QueryView),
}

impl View for Step {
    type V = StepView;

    open spec fn view(&self) -> StepView {
        match self {
            Step::Resolved(a) => StepView::Resolved(*a),
            Step::Failed(e) => StepView::Failed(e@),
            Step::Ask(q) => StepView::Ask(q@),
        }
    }
}

/// The first decision on an address text. `literal` is the socket address
/// that the text denotes where it is a literal one, and `None` where it is
/// not.
pub open spec fn first_step(addr: Seq<char>, literal: Option<SocketAddress>) -> StepView {
    match literal {
        Some(a) => StepView::Resolved(a),
        None => match last_colon(addr) {
            None => StepView::Failed(ErrorView::InvalidFormat),
            Some(i) => match port_of(addr.skip(i + 1)) {
                None => StepView::Failed(ErrorView::InvalidPort),
                Some(port) => StepView::Ask(
                    QueryView { domain: addr.take(i), port, kind: RecordKind::Aaaa },
                ),
            },
        },
    }
}

/// The decision on the answer to a query.
pub open spec fn next_step(query: QueryView, records: Seq<Record>) -> StepView {
    match first_address(records) {
        Some(ip) => StepView::Resolved(SocketAddress { ip, port: query.port }),
        None => match query.kind {
            RecordKind::Aaaa => StepView::Ask(
                QueryView { domain: query.domain, port: query.port, kind: RecordKind::A },
            ),
            RecordKind::A => StepView::Failed(ErrorView::ResolutionFailed(query.domain)),
        },
    }
}

/// Where a resolution stands once the answers to both queries are known:
/// `aaaa` to the query for IPv6 records, `a` to the one for IPv4 records.
pub open spec fn step_after_answers(
    addr: Seq<char>,
    literal: Option<SocketAddress>,
    aaaa: Seq<Record>,
    a: Seq<Record>,
) -> StepView {
    match first_step(addr, literal) {
        StepView::Ask(q) => match next_step(q, aaaa) {
            StepView::Ask(q2) => next_step(q2, a),
            settled => settled,
        },
        settled => settled,
    }
}

/// What an address text resolves to, given the answers that the name servers
/// would give.
pub open spec fn resolution(
    addr: Seq<char>,
    literal: Option<SocketAddress>,
    aaaa: Seq<Record>,
    a: Seq<Record>,
) -> Result<SocketAddress, ErrorView> {
    match literal {
        Some(l) => Ok(l),
        None => match last_colon(addr) {
            None => Err(ErrorView::InvalidFormat),
            Some(i) => match port_of(addr.skip(i + 1)) {
                None => Err(ErrorView::InvalidPort),
                Some(port) => match first_address(aaaa) {
                    Some(ip) => Ok(SocketAddress { ip, port }),
                    None => match first_address(a) {
                        Some(ip) => Ok(SocketAddress { ip, port }),
                        None => Err(ErrorView::ResolutionFailed(addr.take(i))),
                    },
                },
            },
        },
    }
}

/// Whether `addr` names `domain` and `port`: it has a colon, `domain` is what
/// stands before its last colon, and the text after it denotes `port`.
pub open spec fn names_domain(addr: Seq<char>, domain: Seq<char>, port: u16) -> bool {
    match last_colon(addr) {
        None => false,
        Some(i) => port_of(addr.skip(i + 1)) == Some(port) && domain == addr.take(i),
    }
}

/// Begins the resolution of `addr`.
///
/// A literal address is returned as it is. Otherwise the text is split at its
/// last colon and the port is read; if both succeed, the query for IPv6
/// records of the domain is asked first.
pub fn resolve_addr(addr: &str, literal: Option<SocketAddress>) -> (step: Step)
    ensures
        step@ == first_step(addr@, literal),
{
    if let Some(a) = literal {
        return Step::Resolved(a);
    }
    let colon = match find_last_colon(addr) {
        Some(i) => i,
        None => {
            return Step::Failed(AddrError::InvalidFormat);
        },
    };
    proof {
        crate::text::lemma_last_colon(addr@);
    }
    let n: usize = addr.unicode_len();
    let port_text = addr.substring_char(colon + 1, n);
    assert(port_text@ =~= addr@.skip(colon + 1));
    let port = match parse_port(port_text) {
        Some(p) => p,
        None => {
            return Step::Failed(AddrError::InvalidPort);
        },
    };
    let domain = addr.substring_char(0, colon).to_owned();
    assert(domain@ =~= addr@.take(colon as int));
    Step::Ask(Query { domain, port, kind: RecordKind::Aaaa })
}

impl Query {
    /// Decides on the answer to this query.
    ///
    /// The first address among the records settles the resolution. Without
    /// one, the query for IPv6 records is followed by the one for IPv4
    /// records, and the query for IPv4 records by failure.
    pub fn answer(self, records: &Vec<Record>) -> (step: Step)
        ensures
            step@ == next_step(self@, records@),
    {
        match find_first_address(records) {
            Some(ip) => Step::Resolved(SocketAddress { ip, port: self.port }),
            None => match self.kind {
                RecordKind::Aaaa => Step::Ask(
                    Query { domain: self.domain, port: self.port, kind: RecordKind::A },
                ),
                RecordKind::A => Step::Failed(AddrError::ResolutionFailed(self.domain)),
            },
        }
    }
}

/// Two answers always settle a resolution, and they settle it as
/// [`resolution`] says.
pub proof fn lemma_steps_settle(
    addr: Seq<char>,
    literal: Option<SocketAddress>,
    aaaa: Seq<Record>,
    a: Seq<Record>,
)
    ensures
        match resolution(addr, literal, aaaa, a) {
            Ok(s) => step_after_answers(addr, literal, aaaa, a) == StepView::Resolved(s),
            Err(e) => step_after_answers(addr, literal, aaaa, a) == StepView::Failed(e),
        },
{
}

/// A literal address resolves to itself, whatever the name servers would
/// answer, and no query is asked for it.
pub proof fn lemma_literal_resolves_to_itself(
    addr: Seq<char>,
    literal: SocketAddress,
    aaaa: Seq<Record>,
    a: Seq<Record>,
)
    ensures
        first_step(addr, Some(literal)) == StepView::Resolved(literal),
        resolution(addr, Some(literal), aaaa, a) == Ok::<SocketAddress, ErrorView>(literal),
{
}

/// A text without a colon that is no literal address is rejected as
/// malformed, and no query is asked for it.
pub proof fn lemma_no_colon_is_invalid_format(addr: Seq<char>, aaaa: Seq<Record>, a: Seq<Record>)
    requires
        !addr.contains(':'),
    ensures
        first_step(addr, None) == StepView::Failed(ErrorView::InvalidFormat),
        resolution(addr, None, aaaa, a) == Err::<SocketAddress, ErrorView>(
            ErrorView::InvalidFormat,
        ),
{
    crate::text::lemma_last_colon(addr);
    if let Some(i) = last_colon(addr) {
        assert(addr.contains(addr[i]));
    }
}

/// A domain for which only the query for IPv4 records yields an address
/// resolves to that address, with the port of the text.
pub proof fn lemma_ipv4_when_no_ipv6(
    addr: Seq<char>,
    domain: Seq<char>,
    port: u16,
    aaaa: Seq<Record>,
    a: Seq<Record>,
    ip: IpAddress,
)
    requires
        names_domain(addr, domain, port),
        first_address(aaaa) is None,
        first_address(a) == Some(ip),
    ensures
        resolution(addr, None, aaaa, a) == Ok::<SocketAddress, ErrorView>(
            SocketAddress { ip, port },
        ),
{
}

/// A domain for which the query for IPv6 records yields an address resolves
/// to that address, whatever the query for IPv4 records would yield, and the
/// second query is not asked.
pub proof fn lemma_ipv6_is_preferred(
    addr: Seq<char>,
    domain: Seq<char>,
    port: u16,
    aaaa: Seq<Record>,
    a: Seq<Record>,
    ip: IpAddress,
)
    requires
        names_domain(addr, domain, port),
        first_address(aaaa) == Some(ip),
    ensures
        resolution(addr, None, aaaa, a) == Ok::<SocketAddress, ErrorView>(
            SocketAddress { ip, port },
        ),
        next_step(QueryView { domain, port, kind: RecordKind::Aaaa }, aaaa)
            == StepView::Resolved(SocketAddress { ip, port }),
{
}

/// A resolution fails for want of an address exactly when the text names a
/// domain and neither answer holds an address; the failure names that domain
/// and comes only with the answer to the second query.
pub proof fn lemma_failure_needs_both_answers(
    addr: Seq<char>,
    literal: Option<SocketAddress>,
    aaaa: Seq<Record>,
    a: Seq<Record>,
    domain: Seq<char>,
)
    ensures
        resolution(addr, literal, aaaa, a) == Err::<SocketAddress, ErrorView>(
            ErrorView::ResolutionFailed(domain),
        ) <==> (literal is None && (exists|port: u16| names_domain(addr, domain, port))
            && first_address(aaaa) is None && first_address(a) is None),
        first_step(addr, literal) != StepView::Failed(ErrorView::ResolutionFailed(domain)),
        forall|q: QueryView|
            #[trigger] next_step(q, aaaa) == StepView::Failed(
                ErrorView::ResolutionFailed(domain),
            ) ==> q.kind == RecordKind::A && q.domain == domain,
{
    if literal is None {
        if let Some(i) = last_colon(addr) {
            if let Some(port) = port_of(addr.skip(i + 1)) {
                if domain == addr.take(i) {
                    assert(names_domain(addr, domain, port));
                }
            }
        }
    }
}

} // verus!
