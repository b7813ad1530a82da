//! The status of a batch conversion and the aggregator that folds the
//! per-item results of the workers into it, one result at a time, in the
//! order in which they arrive.

use crate::failures::ConversionErrors;
use vstd::prelude::*;

verus! {

/// A share in percent, held exactly as the fraction `numerator / denominator`.
#[derive(Clone, Copy, Debug, PartialEq, Eq, Structural)]
pub struct Percent {
    pub numerator: u32,
    pub denominator: u16,
}

/// The share of `total` that `completed` is: `100 * completed / total`. An
/// empty batch has done nothing of nothing, which counts as zero percent.
pub open spec fn percent_of(completed: u16, total: u16) -> Percent {
    Percent {
        numerator: (100 * completed) as u32,
        denominator: if total == 0 {
            1
        } else {
            total
        },
    }
}

impl Percent {
    /// The fraction `100 * completed / total`.
    pub fn of(completed: u16, total: u16) -> (percent: Percent)
        ensures
            percent == percent_of(completed, total),
            percent.denominator > 0,
            percent.numerator == 100 * completed,
            total > 0 ==> percent.numerator * total == 100 * completed * percent.denominator,
    {
        let numerator: u32 = 100 * (completed as u32);
        let denominator: u16 = if total == 0 {
            1
        } else {
            total
        };
        assert(total > 0 ==> numerator * total == 100 * completed * denominator) by (nonlinear_arith)
            requires
                numerator == 100 * completed,
                total > 0 ==> denominator == total,
        ;
        Percent { numerator, denominator }
    }
}

/// What a worker reports of one item.
#[derive(Debug)]
pub enum SingleConversionResult {
    /// The item was converted and written.
    Done,
    /// The item at this path failed, with this message.
    Error(String, String),
}

/// A worker's report, with its strings as sequences.
pub enum ResultView {
    Done,
    Error(Seq<char>, Seq<char>),
}

impl View for SingleConversionResult {
    type V = ResultView;

    open spec fn view(&self) -> ResultView {
        match self {
            SingleConversionResult::Done => ResultView::Done,
            SingleConversionResult::Error(path, message) => ResultView::Error(path@, message@),
        }
    }
}

impl SingleConversionResult {
    /// The report for the item at `path`: a success if every stage of its
    /// conversion went through, and else the failure of `path` with the
    /// message of the stage that failed.
    pub fn from_outcome(path: String, outcome: Result<(), String>) -> (result:
        SingleConversionResult)
        ensures
            result@ == match outcome {
                Ok(_) => ResultView::Done,
                Err(message) => ResultView::Error(path@, message@),
            },
    {
        match outcome {
            Ok(_) => SingleConversionResult::Done,
            Err(message) => SingleConversionResult::Error(path, message),
        }
    }
}

/// The observable status of a batch.
#[derive(Debug)]
pub enum ConversionProgress {
    /// No batch was started.
    Inactive,
    /// `InProgress(completed, total, percent)`: so far every report was a
    /// success.
    InProgress(u16, u16, Percent),
    /// At least one item failed. The status stays here for the rest of the
    /// batch.
    Error(ConversionErrors),
    /// `Completed(total)`: all items of the batch were converted.
    Completed(u16),
}

/// A batch status, with its failures as a map.
pub enum ProgressView {
    Inactive,
    InProgress(u16, u16, Percent),
    Error(Map<Seq<char>, Seq<char>>),
    Completed(u16),
}

impl View for ConversionProgress {
    type V = ProgressView;

    open spec fn view(&self) -> ProgressView {
        match self {
            ConversionProgress::Inactive => ProgressView::Inactive,
            ConversionProgress::InProgress(completed, total, percent) => ProgressView::InProgress(
                *completed,
                *total,
                *percent,
            ),
            ConversionProgress::Error(errors) => ProgressView::Error(errors@),
            ConversionProgress::Completed(total) => ProgressView::Completed(*total),
        }
    }
}

impl ProgressView {
    /// In progress, no more is counted as completed than the batch holds,
    /// and the percentage is exactly that of the two counts.
    pub open spec fn wf(self) -> bool {
        self matches ProgressView::InProgress(completed, total, percent) ==> completed <= total
            && percent == percent_of(completed, total)
    }
}

/// The status of a batch of `total` items before the first report.
pub open spec fn started(total: u16) -> ProgressView {
    ProgressView::InProgress(0, total, percent_of(0, total))
}

/// The status after one more report.
///
/// A success counts one more item as completed while no item has failed, and
/// changes nothing after a failure. A failure is added to the map of
/// failures, which the first failure opens.
pub open spec fn after_result(status: ProgressView, result: ResultView) -> ProgressView {
    match result {
        ResultView::Done => match status {
            ProgressView::InProgress(completed, total, _) => ProgressView::InProgress(
                (completed + 1) as u16,
                total,
                percent_of((completed + 1) as u16, total),
            ),
            other => other,
        },
        ResultView::Error(path, message) => match status {
            ProgressView::Error(errors) => ProgressView::Error(errors.insert(path, message)),
            _ => ProgressView::Error(Map::empty().insert(path, message)),
        },
    }
}

/// The status after a sequence of reports, taken in their order.
pub open spec fn after_results(status: ProgressView, results: Seq<ResultView>) -> ProgressView
    decreases results.len(),
{
    if results.len() == 0 {
        status
    } else {
        after_result(after_results(status, results.drop_last()), results.last())
    }
}

/// The status once all reports are in: a batch without a failure is
/// completed, one with a failure stays in error.
pub open spec fn concluded(status: ProgressView) -> ProgressView {
    match status {
        ProgressView::InProgress(_, total, _) => ProgressView::Completed(total),
        other => other,
    }
}

impl Default for ConversionProgress {
    fn default() -> (progress: ConversionProgress)
        ensures
            progress@ is Inactive,
    {
        ConversionProgress::Inactive
    }
}

impl ConversionProgress {
    /// Whether a batch is running without a failure so far.
    pub fn is_in_progress(&self) -> (running: bool)
        ensures
            running == (self@ is InProgress),
    {
        match self {
            ConversionProgress::InProgress(_, _, _) => true,
            _ => false,
        }
    }

    /// How far a progress bar is filled: empty while inactive, by the
    /// percentage while in progress, full once the batch is completed or
    /// has failed.
    pub fn bar_percent(&self) -> (percent: Percent)
        ensures
            percent == match self@ {
                ProgressView::Inactive => percent_of(0, 1),
                ProgressView::InProgress(_, _, percent) => percent,
                ProgressView::Error(_) => percent_of(1, 1),
                ProgressView::Completed(_) => percent_of(1, 1),
            },
    {
        match self {
            ConversionProgress::Inactive => Percent::of(0, 1),
            ConversionProgress::InProgress(_, _, percent) => *percent,
            ConversionProgress::Error(_) => Percent::of(1, 1),
            ConversionProgress::Completed(_) => Percent::of(1, 1),
        }
    }
}

/// The single consumer of the workers' reports for one batch. It takes
/// exactly as many reports as the batch has items and then concludes.
#[derive(Debug)]
pub struct Aggregator {
    progress: ConversionProgress,
    total: u16,
    received: u16,
}

impl Aggregator {
    /// The number of items in the batch.
    pub closed spec fn total(&self) -> u16 {
        self.total
    }

    /// The number of reports taken so far.
    pub closed spec fn received(&self) -> u16 {
        self.received
    }

    /// The status as it stands.
    pub closed spec fn status(&self) -> ProgressView {
        self.progress@
    }

    #[verifier::type_invariant]
    spec fn consistent(&self) -> bool {
        &&& self.received <= self.total
        &&& match self.progress@ {
            ProgressView::Inactive => false,
            ProgressView::InProgress(completed, total, percent) => completed == self.received
                && total == self.total && percent == percent_of(completed, total),
            ProgressView::Error(errors) => self.received >= 1,
            ProgressView::Completed(total) => total == self.total && self.received == self.total,
        }
    }

    /// Starts a batch of `total` items.
    pub fn start(total: u16) -> (aggregator: Aggregator)
        ensures
            aggregator.total() == total,
            aggregator.received() == 0,
            aggregator.status() == started(total),
    {
        Aggregator {
            progress: ConversionProgress::InProgress(0, total, Percent::of(0, total)),
            total,
            received: 0,
        }
    }

    /// The number of reports that are still to come.
    pub fn remaining(&self) -> (count: u16)
        ensures
            count == self.total() - self.received(),
    {
        proof {
            use_type_invariant(self);
        }
        self.total - self.received
    }

    /// The status to show.
    pub fn progress(&self) -> (progress: &ConversionProgress)
        ensures
            progress@ == self.status(),
            progress@.wf(),
            !(progress@ is Inactive),
    {
        proof {
            use_type_invariant(self);
        }
        &self.progress
    }

    /// Takes the next report.
    pub fn record(&mut self, result: SingleConversionResult)
        requires
            old(self).received() < old(self).total(),
        ensures
            final(self).total() == old(self).total(),
            final(self).received() == old(self).received() + 1,
            final(self).status() == after_result(old(self).status(), result@),
            final(self).status().wf(),
    {
        proof {
            use_type_invariant(&*self);
        }
        let total = self.total;
        let received = self.received;
        let mut progress = ConversionProgress::InProgress(
            received,
            total,
            Percent::of(received, total),
        );
        core::mem::swap(&mut self.progress, &mut progress);
        let next = match result {
            SingleConversionResult::Done => match progress {
                ConversionProgress::InProgress(completed, total, _) => {
                    ConversionProgress::InProgress(
                        completed + 1,
                        total,
                        Percent::of(completed + 1, total),
                    )
                },
                other => other,
            },
            SingleConversionResult::Error(path, message) => match progress {
                ConversionProgress::Error(mut errors) => {
                    errors.insert(path, message);
                    ConversionProgress::Error(errors)
                },
                _ => {
                    let mut errors = ConversionErrors::new();
                    errors.insert(path, message);
                    ConversionProgress::Error(errors)
                },
            },
        };
        *self = Aggregator { progress: next, total, received: received + 1 };
    }

    /// Concludes the batch once all reports are in: a batch without a
    /// failure becomes completed, one with a failure stays in error.
    pub fn finish(&mut self)
        requires
            old(self).received() == old(self).total(),
        ensures
            final(self).total() == old(self).total(),
            final(self).received() == old(self).received(),
            final(self).status() == concluded(old(self).status()),
            !(final(self).status() is InProgress),
    {
        proof {
            use_type_invariant(&*self);
        }
        let total = self.total;
        let received = self.received;
        let promote = self.progress.is_in_progress();
        if promote {
            *self = Aggregator { progress: ConversionProgress::Completed(total), total, received };
        }
    }

    /// Hands out the status and ends the aggregation.
    pub fn into_progress(self) -> (progress: ConversionProgress)
        ensures
            progress@ == self.status(),
            progress@.wf(),
    {
        proof {
            use_type_invariant(&self);
        }
        self.progress
    }
}

/// While every report is a success, the status counts the reports.
pub proof fn lemma_successes_count(total: u16, results: Seq<ResultView>)
    requires
        results.len() <= total,
        forall|i: int| 0 <= i < results.len() ==> results[i] is Done,
    ensures
        after_results(started(total), results) == ProgressView::InProgress(
            results.len() as u16,
            total,
            percent_of(results.len() as u16, total),
        ),
    decreases results.len(),
{
    if results.len() > 0 {
        let init = results.drop_last();
        assert forall|i: int| 0 <= i < init.len() implies init[i] is Done by {
            assert(init[i] == results[i]);
        }
        lemma_successes_count(total, init);
        assert(results.last() == results[results.len() - 1]);
    }
}

/// A batch of `total` items of which none fails is completed after exactly
/// `total` reports: before the last report fewer than `total` items count
/// as completed, after it `total` do, and the batch concludes as completed.
pub proof fn lemma_all_succeed_completes(total: u16, results: Seq<ResultView>)
    requires
        results.len() == total,
        forall|i: int| 0 <= i < results.len() ==> results[i] is Done,
    ensures
        after_results(started(total), results) == ProgressView::InProgress(
            total,
            total,
            percent_of(total, total),
        ),
        concluded(after_results(started(total), results)) == ProgressView::Completed(total),
        forall|n: int|
            0 <= n < total ==> #[trigger] after_results(started(total), results.take(n))
                == ProgressView::InProgress(n as u16, total, percent_of(n as u16, total)),
{
    lemma_successes_count(total, results);
    assert forall|n: int| 0 <= n < total implies #[trigger] after_results(
        started(total),
        results.take(n),
    ) == ProgressView::InProgress(n as u16, total, percent_of(n as u16, total)) by {
        let prefix = results.take(n);
        assert forall|i: int| 0 <= i < prefix.len() implies prefix[i] is Done by {
            assert(prefix[i] == results[i]);
        }
        lemma_successes_count(total, prefix);
    }
}

/// Once a report is a failure, the status is in error, whatever came
/// before.
pub proof fn lemma_failure_enters_error(
    status: ProgressView,
    path: Seq<char>,
    message: Seq<char>,
)
    ensures
        after_result(status, ResultView::Error(path, message)) matches ProgressView::Error(errors)
            && errors.dom().contains(path) && errors[path] == message,
{
}

/// A status in error stays in error, and loses no path, whatever report
/// follows.
pub proof fn lemma_error_is_sticky(status: ProgressView, result: ResultView, path: Seq<char>)
    requires
        status matches ProgressView::Error(errors) && errors.dom().contains(path),
    ensures
        after_result(status, result) matches ProgressView::Error(errors) && errors.dom().contains(
            path,
        ),
        concluded(status) == status,
{
}

/// If the report at position `k` is the failure of `path`, then from that
/// report on the status is in error with `path` in its map, and the batch
/// does not conclude as completed.
pub proof fn lemma_failure_is_kept(
    status: ProgressView,
    results: Seq<ResultView>,
    k: int,
    path: Seq<char>,
    message: Seq<char>,
)
    requires
        0 <= k < results.len(),
        results[k] == ResultView::Error(path, message),
    ensures
        after_results(status, results) matches ProgressView::Error(errors) && errors.dom().contains(
            path,
        ),
        !(concluded(after_results(status, results)) is Completed),
    decreases results.len(),
{
    let init = results.drop_last();
    if k == results.len() - 1 {
        lemma_failure_enters_error(after_results(status, init), path, message);
    } else {
        assert(init[k] == results[k]);
        lemma_failure_is_kept(status, init, k, path, message);
        lemma_error_is_sticky(after_results(status, init), results.last(), path);
    }
}

/// Every status that a batch of `total` items reaches within its `total`
/// reports is well formed: in progress, the percentage is exactly
/// `100 * completed / total`, recomputed from the counts at every step.
pub proof fn lemma_percent_is_exact(total: u16, results: Seq<ResultView>)
    requires
        results.len() <= total,
    ensures
        after_results(started(total), results).wf(),
        after_results(started(total), results) matches ProgressView::InProgress(
            completed,
            all,
            percent,
        ) ==> {
            &&& all == total
            &&& completed == results.len()
            &&& percent.numerator == 100 * completed
            &&& total > 0 ==> percent.denominator == total
        },
    decreases results.len(),
{
    if results.len() > 0 {
        let init = results.drop_last();
        lemma_percent_is_exact(total, init);
    }
}

} // verus!
