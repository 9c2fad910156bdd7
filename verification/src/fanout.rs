//! Settling a batch of independent operations that run concurrently.
//!
//! All operations of a batch are dispatched at once and complete in whatever
//! order they do. The batch succeeds when every operation has succeeded. The
//! first failure to arrive settles the batch with that failure; operations
//! still in flight are not stopped, and whatever they report later is dropped.
//! A batch is therefore not atomic: operations that completed before a
//! failure have taken effect.

use vstd::prelude::*;
use crate::error::{BridgeError, ErrorView};

verus! {

/// A batch in flight: how many operations have not reported, and whether the
/// batch's result is already known.
#[derive(Debug, Clone, Copy, PartialEq, Eq, Structural)]
pub struct FanOut {
    pub pending: usize,
    pub settled: bool,
}

/// What the completion of one operation means for the batch.
#[derive(Debug, PartialEq, Eq)]
pub enum Verdict {
    /// Other operations have yet to report.
    Waiting,
    /// The batch's result is known now.
    Settled(Result<(), BridgeError>),
    /// The batch was settled before; this report is dropped.
    Dropped,
}

/// The mathematical content of a [`Verdict`].
pub enum VerdictView {
    Waiting,
    Settled(Result<(), ErrorView>),
    Dropped,
}

/// The mathematical content of one operation's report.
pub open spec fn report_view(report: Result<(), BridgeError>) -> Result<(), ErrorView> {
    match report {
        Ok(_) => Ok(()),
        Err(e) => Err(e@),
    }
}

impl View for Verdict {
    type V = VerdictView;

    open spec fn view(&self) -> VerdictView {
        match *self {
            Verdict::Waiting => VerdictView::Waiting,
            Verdict::Settled(r) => VerdictView::Settled(report_view(r)),
            Verdict::Dropped => VerdictView::Dropped,
        }
    }
}

/// A batch of `count` operations, all dispatched. An empty batch is settled
/// from the start.
pub open spec fn dispatched(count: usize) -> FanOut {
    FanOut { pending: count, settled: count == 0 }
}

/// The batch after one operation reported.
pub open spec fn after_report(batch: FanOut, report: Result<(), ErrorView>) -> FanOut {
    if batch.settled {
        batch
    } else if report is Err {
        FanOut { pending: batch.pending, settled: true }
    } else if batch.pending <= 1 {
        FanOut { pending: 0, settled: true }
    } else {
        FanOut { pending: (batch.pending - 1) as usize, settled: false }
    }
}

/// What one operation's report means for the batch.
pub open spec fn verdict_of(batch: FanOut, report: Result<(), ErrorView>) -> VerdictView {
    if batch.settled {
        VerdictView::Dropped
    } else {
        match report {
            Err(e) => VerdictView::Settled(Err(e)),
            Ok(_) => if batch.pending <= 1 {
                VerdictView::Settled(Ok(()))
            } else {
                VerdictView::Waiting
            },
        }
    }
}

/// The first failure among reports, in the order they arrived.
pub open spec fn first_failure(reports: Seq<Result<(), ErrorView>>) -> Option<ErrorView>
    decreases reports.len(),
{
    if reports.len() == 0 {
        None
    } else {
        match reports[0] {
            Err(e) => Some(e),
            Ok(_) => first_failure(reports.drop_first()),
        }
    }
}

/// The result of a batch whose operations reported, each once, in this order:
/// the first failure, or success where there is none.
pub open spec fn batch_result(reports: Seq<Result<(), ErrorView>>) -> Result<(), ErrorView> {
    match first_failure(reports) {
        Some(e) => Err(e),
        None => Ok(()),
    }
}

/// The mathematical content of a list of reports.
pub open spec fn reports_view(reports: Seq<Result<(), BridgeError>>) -> Seq<Result<(), ErrorView>> {
    reports.map_values(|r: Result<(), BridgeError>| report_view(r))
}

impl FanOut {
    /// Starts a batch of `count` operations.
    pub fn dispatch(count: usize) -> (batch: FanOut)
        ensures
            batch == dispatched(count),
    {
        FanOut { pending: count, settled: count == 0 }
    }

    /// Whether the batch's result is known.
    pub fn is_settled(&self) -> (b: bool)
        ensures
            b == self.settled,
    {
        self.settled
    }

    /// Takes the report of one operation.
    pub fn complete(&mut self, report: Result<(), BridgeError>) -> (verdict: Verdict)
        ensures
            *final(self) == after_report(*old(self), report_view(report)),
            verdict@ == verdict_of(*old(self), report_view(report)),
    {
        if self.settled {
            return Verdict::Dropped;
        }
        match report {
            Err(e) => {
                self.settled = true;
                Verdict::Settled(Err(e))
            },
            Ok(_) => {
                if self.pending <= 1 {
                    self.pending = 0;
                    self.settled = true;
                    Verdict::Settled(Ok(()))
                } else {
                    self.pending = self.pending - 1;
                    Verdict::Waiting
                }
            },
        }
    }
}

/// Settles a batch from the reports of all its operations, in the order they
/// arrived: success exactly when none failed, and otherwise the failure that
/// arrived first.
pub fn collect(reports: Vec<Result<(), BridgeError>>) -> (result: Result<(), BridgeError>)
    ensures
        report_view(result) == batch_result(reports_view(reports@)),
        result is Ok <==> forall|i: int| 0 <= i < reports@.len() ==> reports@[i] is Ok,
{
    let ghost given = reports@;
    let ghost all = reports_view(given);
    let mut reports = reports;
    let mut result: Result<(), BridgeError> = Ok(());
    proof {
        lemma_all_ok_iff_no_failure(all);
    }
    // The reports are taken from the back, so the first failure is the last one seen.
    while reports.len() > 0
        invariant
            reports@.len() <= all.len(),
            reports_view(reports@) == all.subrange(0, reports@.len() as int),
            report_view(result) == batch_result(all.subrange(reports@.len() as int, all.len() as int)),
        decreases reports.len(),
    {
        let ghost n = reports@.len();
        let ghost before = reports@;
        let report = reports.pop().unwrap();
        proof {
            assert(report_view(report) == reports_view(before)[n - 1]);
            assert(reports_view(reports@) =~= all.subrange(0, n - 1));
            let tail = all.subrange(n - 1, all.len() as int);
            assert(tail.drop_first() =~= all.subrange(n as int, all.len() as int));
            assert(tail[0] == all[n - 1]);
        }
        match report {
            Err(e) => {
                result = Err(e);
            },
            Ok(_) => {},
        }
    }
    proof {
        assert(all.subrange(0, all.len() as int) =~= all);
        if result is Ok {
            assert forall|i: int| 0 <= i < given.len() implies given[i] is Ok by {
                assert(all[i] is Ok);
            }
        } else {
            let i = choose|i: int| 0 <= i < all.len() && !((#[trigger] all[i]) is Ok);
            assert(!(given[i] is Ok));
        }
    }
    result
}

/// A batch of reports has no failure exactly when each report is a success.
pub proof fn lemma_all_ok_iff_no_failure(reports: Seq<Result<(), ErrorView>>)
    ensures
        first_failure(reports) is None <==> forall|i: int|
            0 <= i < reports.len() ==> (#[trigger] reports[i]) is Ok,
    decreases reports.len(),
{
    if reports.len() > 0 {
        let rest = reports.drop_first();
        lemma_all_ok_iff_no_failure(rest);
        if first_failure(reports) is None {
            assert forall|i: int| 0 <= i < reports.len() implies (#[trigger] reports[i]) is Ok by {
                if i > 0 {
                    assert(rest[i - 1] == reports[i]);
                }
            }
        } else {
            if reports[0] is Ok {
                let i = choose|i: int| 0 <= i < rest.len() && !((#[trigger] rest[i]) is Ok);
                assert(reports[i + 1] == rest[i]);
            }
        }
    }
}

/// The state of a batch of `count` operations after `reports` arrived in order.
pub open spec fn batch_after(count: usize, reports: Seq<Result<(), ErrorView>>) -> FanOut
    decreases reports.len(),
{
    if reports.len() == 0 {
        dispatched(count)
    } else {
        after_report(batch_after(count, reports.drop_last()), reports.last())
    }
}

/// The result that a batch of `count` operations has settled with after
/// `reports` arrived in order, if it has settled.
pub open spec fn settled_with(count: usize, reports: Seq<Result<(), ErrorView>>) -> Option<
    Result<(), ErrorView>,
>
    decreases reports.len(),
{
    if reports.len() == 0 {
        if count == 0 {
            Some(Ok(()))
        } else {
            None
        }
    } else {
        match settled_with(count, reports.drop_last()) {
            Some(r) => Some(r),
            None => match verdict_of(batch_after(count, reports.drop_last()), reports.last()) {
                VerdictView::Settled(r) => Some(r),
                _ => None,
            },
        }
    }
}

/// A batch succeeds only if every operation succeeds, and fails with the first
/// failure to arrive: while fewer reports than operations have arrived, the
/// batch is settled exactly when one of them is a failure, and then with the
/// first; once all have arrived it is settled with the first failure, or with
/// success where there is none.
pub proof fn lemma_batch_settles_with_the_first_failure(
    count: usize,
    reports: Seq<Result<(), ErrorView>>,
)
    requires
        reports.len() <= count,
    ensures
        batch_after(count, reports).settled == (settled_with(count, reports) is Some),
        !batch_after(count, reports).settled ==> batch_after(count, reports).pending == count
            - reports.len(),
        first_failure(reports) matches Some(e) ==> settled_with(count, reports) == Some(
            Err::<(), ErrorView>(e),
        ),
        first_failure(reports) is None && reports.len() < count ==> settled_with(count, reports)
            is None,
        first_failure(reports) is None && reports.len() == count ==> settled_with(count, reports)
            == Some(Ok::<(), ErrorView>(())),
    decreases reports.len(),
{
    if reports.len() > 0 {
        let init = reports.drop_last();
        lemma_batch_settles_with_the_first_failure(count, init);
        lemma_first_failure_of_longer(init, reports.last());
        assert(init.push(reports.last()) =~= reports);
    }
}

/// The first failure among reports and one more: that among the reports where
/// there is one, else the last report's failure where it is one.
pub proof fn lemma_first_failure_of_longer(
    reports: Seq<Result<(), ErrorView>>,
    last: Result<(), ErrorView>,
)
    ensures
        first_failure(reports.push(last)) == match first_failure(reports) {
            Some(e) => Some(e),
            None => match last {
                Err(e) => Some(e),
                Ok(_) => None,
            },
        },
    decreases reports.len(),
{
    let longer = reports.push(last);
    if reports.len() == 0 {
        assert(longer.drop_first().len() == 0);
        assert(first_failure(longer.drop_first()) is None);
        assert(longer[0] == last);
    } else {
        assert(longer[0] == reports[0]);
        assert(longer.drop_first() =~= reports.drop_first().push(last));
        lemma_first_failure_of_longer(reports.drop_first(), last);
    }
}

} // verus!
