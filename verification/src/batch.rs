//! Resolution of a list of addresses, in order, up to the first failure.
//!
//! [`resolve_addrs`] takes the list. While addresses are left, the caller
//! resolves [`Batch::current`] and reports the outcome to [`Batch::record`].
//! The first failure ends the batch with that failure alone.

use vstd::prelude::*;
use crate::address::{ErrorView, Record, AddrError, SocketAddress};
use crate::resolve::resolution;

verus! {

/// A batch in which at least one address is still to be resolved.
pub struct Batch {
    addrs: Vec<String>,
    resolved: Vec<SocketAddress>,
}

/// The mathematical value of a [`Batch`]: the texts of all its addresses,
/// and what those before the current one resolved to.
pub ghost struct BatchView {
    pub addrs: Seq<Seq<char>>,
    pub resolved: Seq<SocketAddress>,
}

/// The texts of a list of strings.
pub open spec fn texts(addrs: Seq<String>) -> Seq<Seq<char>> {
    Seq::new(addrs.len(), |i: int| addrs[i]@)
}

/// The mathematical value of one address's outcome.
pub open spec fn outcome_view(outcome: Result<SocketAddress, AddrError>) -> Result<
    SocketAddress,
    ErrorView,
> {
    match outcome {
        Ok(a) => Ok(a),
        Err(e) => Err(e@),
    }
}

impl View for Batch {
    type V = BatchView;

    closed spec fn view(&self) -> BatchView {
        BatchView { addrs: texts(self.addrs@), resolved: self.resolved@ }
    }
}

/// Where a batch stands after a decision.
pub enum BatchStep {
    /// The caller has to resolve the batch's current address.
    Next(Batch),
    /// Every address resolved; the results are in the order of the list.
    Done(Vec<SocketAddress>),
    /// An address failed; the results before it are dropped.
    Failed(AddrError),
}

/// The mathematical value of a [`BatchStep`].
pub ghost enum BatchStepView {
    Next(BatchView),
    Done(Seq<SocketAddress>),
    Failed(ErrorView),
}

impl View for BatchStep {
    type V = BatchStepView;

    open spec fn view(&self) -> BatchStepView {
        match self {
            BatchStep::Next(b) => BatchStepView::Next(b@),
            BatchStep::Done(v) => BatchStepView::Done(v@),
            BatchStep::Failed(e) => BatchStepView::Failed(e@),
        }
    }
}

/// The first decision on a list: an empty list is done at once.
pub open spec fn batch_begin(addrs: Seq<Seq<char>>) -> BatchStepView {
    if addrs.len() == 0 {
        BatchStepView::Done(Seq::empty())
    } else {
        BatchStepView::Next(BatchView { addrs, resolved: Seq::empty() })
    }
}

/// The decision on the outcome of the current address.
pub open spec fn batch_record(
    batch: BatchView,
    outcome: Result<SocketAddress, ErrorView>,
) -> BatchStepView {
    match outcome {
        Err(e) => BatchStepView::Failed(e),
        Ok(a) => if batch.resolved.len() + 1 >= batch.addrs.len() {
            BatchStepView::Done(batch.resolved.push(a))
        } else {
            BatchStepView::Next(
                BatchView { addrs: batch.addrs, resolved: batch.resolved.push(a) },
            )
        },
    }
}

/// Where a batch stands after the outcomes have been reported one by one.
/// Outcomes that follow the end of the batch are never looked at.
pub open spec fn batch_feed(
    step: BatchStepView,
    outcomes: Seq<Result<SocketAddress, ErrorView>>,
) -> BatchStepView
    decreases outcomes.len(),
{
    if outcomes.len() == 0 {
        step
    } else {
        match step {
            BatchStepView::Next(b) => batch_feed(batch_record(b, outcomes[0]), outcomes.skip(1)),
            settled => settled,
        }
    }
}

/// What a list of outcomes amounts to: the first failure, or else every
/// address in order.
pub open spec fn batch_result(outcomes: Seq<Result<SocketAddress, ErrorView>>) -> Result<
    Seq<SocketAddress>,
    ErrorView,
>
    decreases outcomes.len(),
{
    if outcomes.len() == 0 {
        Ok(Seq::empty())
    } else {
        match outcomes[0] {
            Err(e) => Err(e),
            Ok(a) => match batch_result(outcomes.skip(1)) {
                Ok(rest) => Ok(seq![a] + rest),
                Err(e) => Err(e),
            },
        }
    }
}

/// Begins the resolution of `addrs`, in the order of the list.
pub fn resolve_addrs(addrs: Vec<String>) -> (step: BatchStep)
    ensures
        step@ == batch_begin(texts(addrs@)),
{
    if addrs.len() == 0 {
        BatchStep::Done(Vec::new())
    } else {
        BatchStep::Next(Batch { addrs, resolved: Vec::new() })
    }
}

impl Batch {
    #[verifier::type_invariant]
    spec fn well_formed(&self) -> bool {
        self.resolved@.len() < self.addrs@.len()
    }

    /// The address to resolve next: the first one without an outcome.
    pub fn current(&self) -> (addr: &str)
        ensures
            self@.resolved.len() < self@.addrs.len(),
            addr@ == self@.addrs[self@.resolved.len() as int],
    {
        proof {
            use_type_invariant(self);
        }
        self.addrs[self.resolved.len()].as_str()
    }

    /// Reports the outcome of the current address.
    ///
    /// A failure ends the batch. A success is appended to the results; it
    /// ends the batch if the address was the last one, and makes the
    /// following address the current one if not.
    pub fn record(self, outcome: Result<SocketAddress, AddrError>) -> (step: BatchStep)
        ensures
            step@ == batch_record(self@, outcome_view(outcome)),
    {
        proof {
            use_type_invariant(&self);
        }
        match outcome {
            Err(e) => BatchStep::Failed(e),
            Ok(a) => {
                let Batch { addrs, mut resolved } = self;
                resolved.push(a);
                if resolved.len() >= addrs.len() {
                    BatchStep::Done(resolved)
                } else {
                    BatchStep::Next(Batch { addrs, resolved })
                }
            },
        }
    }
}

/// Reporting the outcomes of a batch's remaining addresses one by one ends
/// it with their first failure, or else with all results in order.
pub proof fn lemma_feed_from(batch: BatchView, outcomes: Seq<Result<SocketAddress, ErrorView>>)
    requires
        batch.resolved.len() + outcomes.len() == batch.addrs.len(),
        outcomes.len() > 0,
    ensures
        batch_feed(BatchStepView::Next(batch), outcomes) == match batch_result(outcomes) {
            Ok(rest) => BatchStepView::Done(batch.resolved + rest),
            Err(e) => BatchStepView::Failed(e),
        },
    decreases outcomes.len(),
{
    let tail = outcomes.skip(1);
    match outcomes[0] {
        Err(e) => {
            let failed = BatchStepView::Failed(e);
            assert(batch_feed(failed, tail) == failed);
        },
        Ok(a) => {
            let pushed = batch.resolved.push(a);
            if tail.len() == 0 {
                let done = BatchStepView::Done(pushed);
                assert(batch_feed(done, tail) == done);
                assert(batch_result(tail) == Ok::<Seq<SocketAddress>, ErrorView>(Seq::empty()));
                assert(pushed =~= batch.resolved + (seq![a] + Seq::empty()));
            } else {
                let next = BatchView { addrs: batch.addrs, resolved: pushed };
                lemma_feed_from(next, tail);
                if let Ok(rest) = batch_result(tail) {
                    assert(pushed + rest =~= batch.resolved + (seq![a] + rest));
                }
            }
        },
    }
}

/// A whole list resolves to the first failure among its outcomes, or else to
/// every address in the order of the list.
pub proof fn lemma_batch_result(
    addrs: Seq<Seq<char>>,
    outcomes: Seq<Result<SocketAddress, ErrorView>>,
)
    requires
        outcomes.len() == addrs.len(),
    ensures
        batch_feed(batch_begin(addrs), outcomes) == match batch_result(outcomes) {
            Ok(all) => BatchStepView::Done(all),
            Err(e) => BatchStepView::Failed(e),
        },
{
    if addrs.len() > 0 {
        let batch = BatchView { addrs, resolved: Seq::empty() };
        lemma_feed_from(batch, outcomes);
        if let Ok(all) = batch_result(outcomes) {
            assert(batch.resolved + all =~= all);
        }
    }
}

/// Outcomes that are all successes amount to their addresses, in order.
pub proof fn lemma_all_resolved(
    outcomes: Seq<Result<SocketAddress, ErrorView>>,
    values: Seq<SocketAddress>,
)
    requires
        outcomes.len() == values.len(),
        forall|i: int| 0 <= i < outcomes.len() ==> outcomes[i] == Ok::<SocketAddress, ErrorView>(
            values[i],
        ),
    ensures
        batch_result(outcomes) == Ok::<Seq<SocketAddress>, ErrorView>(values),
    decreases outcomes.len(),
{
    if outcomes.len() == 0 {
        assert(values =~= Seq::empty());
    } else {
        lemma_all_resolved(outcomes.skip(1), values.skip(1));
        assert(values =~= seq![values[0]] + values.skip(1));
    }
}

/// The first failure among the outcomes is what they amount to, whatever
/// follows it.
pub proof fn lemma_first_failure(
    outcomes: Seq<Result<SocketAddress, ErrorView>>,
    k: int,
    error: ErrorView,
)
    requires
        0 <= k < outcomes.len(),
        outcomes[k] == Err::<SocketAddress, ErrorView>(error),
        forall|i: int| 0 <= i < k ==> outcomes[i] is Ok,
    ensures
        batch_result(outcomes) == Err::<Seq<SocketAddress>, ErrorView>(error),
    decreases k,
{
    if k > 0 {
        lemma_first_failure(outcomes.skip(1), k - 1, error);
    }
}

/// A list of literal addresses resolves to those addresses in the order of
/// the list, whatever the name servers would answer.
pub proof fn lemma_literals_keep_order(
    addrs: Seq<Seq<char>>,
    literals: Seq<SocketAddress>,
    aaaa: Seq<Seq<Record>>,
    a: Seq<Seq<Record>>,
)
    requires
        literals.len() == addrs.len(),
        aaaa.len() == addrs.len(),
        a.len() == addrs.len(),
    ensures
        batch_feed(
            batch_begin(addrs),
            Seq::new(
                addrs.len(),
                |i: int| resolution(addrs[i], Some(literals[i]), aaaa[i], a[i]),
            ),
        ) == BatchStepView::Done(literals),
{
    let outcomes = Seq::new(
        addrs.len(),
        |i: int| resolution(addrs[i], Some(literals[i]), aaaa[i], a[i]),
    );
    lemma_all_resolved(outcomes, literals);
    lemma_batch_result(addrs, outcomes);
}

} // verus!
