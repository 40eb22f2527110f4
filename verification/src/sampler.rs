//! The sampling run: a fixed number of fetches, one after the other, whose
//! prices are logged in arrival order and averaged over the number of fetches
//! that was asked for.
//!
//! The run is a state machine. The caller asks [`Sampler::next_action`] what
//! to do, fetches when told to, and hands the outcome to [`Sampler::record`].

use vstd::prelude::*;
use crate::sample::Sample;
use crate::source::FetchError;

verus! {

/// What the caller of a sampling run does next.
#[derive(Clone, Copy, Debug, PartialEq, Eq, Structural)]
pub enum SamplerAction {
    /// Fetch one price and record the outcome.
    Fetch,
    /// Every fetch was made: persist the summary.
    Persist,
    /// A price text was not a number: give the run up.
    Abort,
}

/// The numbers a mean is formed from: the sum of `samples` over `divisor`.
///
/// The quotient is a floating-point number; the caller forms it.
#[derive(Debug, PartialEq, Eq)]
pub struct RunSummary {
    /// The prices, in arrival order.
    pub samples: Vec<Sample>,
    /// What their sum is divided by.
    pub divisor: usize,
}

/// The mathematical value of a [`RunSummary`].
pub struct SummaryView {
    pub samples: Seq<Sample>,
    pub divisor: nat,
}

impl View for RunSummary {
    type V = SummaryView;

    open spec fn view(&self) -> SummaryView {
        SummaryView { samples: self.samples@, divisor: self.divisor as nat }
    }
}

/// The state of a sampling run.
pub struct SamplerState {
    /// How many fetches were asked for.
    pub requested: nat,
    /// How many outcomes were recorded.
    pub attempts: nat,
    /// The prices of the successful fetches, in arrival order.
    pub log: Seq<Sample>,
    /// Whether a format failure was recorded.
    pub aborted: bool,
}

impl SamplerState {
    /// The state before the first fetch.
    pub open spec fn start(requested: nat) -> SamplerState {
        SamplerState { requested, attempts: 0, log: Seq::empty(), aborted: false }
    }

    /// Every outcome recorded so far either added one price or none.
    pub open spec fn wf(self) -> bool {
        self.attempts <= self.requested && self.log.len() <= self.attempts
    }

    /// What the caller does in this state.
    pub open spec fn action(self) -> SamplerAction {
        if self.aborted {
            SamplerAction::Abort
        } else if self.attempts < self.requested {
            SamplerAction::Fetch
        } else {
            SamplerAction::Persist
        }
    }

    /// The state after one outcome. An outcome uses up one fetch, whatever it
    /// is; a price joins the log; a format failure ends the run. Where no
    /// fetch is due the state stays as it is.
    pub open spec fn record(self, outcome: Result<Sample, FetchError>) -> SamplerState {
        if self.action() != SamplerAction::Fetch {
            self
        } else {
            match outcome {
                Ok(sample) => SamplerState {
                    attempts: self.attempts + 1,
                    log: self.log.push(sample),
                    ..self
                },
                Err(FetchError::Format) => SamplerState {
                    attempts: self.attempts + 1,
                    aborted: true,
                    ..self
                },
                Err(_) => SamplerState { attempts: self.attempts + 1, ..self },
            }
        }
    }

    /// The state after a sequence of outcomes, recorded first to last.
    pub open spec fn run(self, outcomes: Seq<Result<Sample, FetchError>>) -> SamplerState
        decreases outcomes.len(),
    {
        if outcomes.len() == 0 {
            self
        } else {
            self.run(outcomes.drop_last()).record(outcomes.last())
        }
    }

    /// The summary of a run that made every fetch: the log, and as divisor
    /// the number of fetches asked for, not the number of prices.
    pub open spec fn summary(self) -> Option<SummaryView> {
        if self.action() == SamplerAction::Persist {
            Some(SummaryView { samples: self.log, divisor: self.requested })
        } else {
            None
        }
    }
}

/// The prices among a sequence of outcomes, in order.
pub open spec fn prices(outcomes: Seq<Result<Sample, FetchError>>) -> Seq<Sample>
    decreases outcomes.len(),
{
    if outcomes.len() == 0 {
        Seq::empty()
    } else {
        match outcomes.last() {
            Ok(sample) => prices(outcomes.drop_last()).push(sample),
            Err(_) => prices(outcomes.drop_last()),
        }
    }
}

/// Whether no outcome of the sequence is a format failure.
pub open spec fn format_clean(outcomes: Seq<Result<Sample, FetchError>>) -> bool {
    forall|i: int| 0 <= i < outcomes.len() ==> outcomes[i] != Err::<Sample, FetchError>(FetchError::Format)
}

/// While no format failure is recorded and fetches are due, each outcome
/// uses up one fetch and each price joins the log.
proof fn run_of_prefix(requested: nat, outcomes: Seq<Result<Sample, FetchError>>)
    requires
        outcomes.len() <= requested,
        format_clean(outcomes),
    ensures
        SamplerState::start(requested).run(outcomes) == (SamplerState {
            requested,
            attempts: outcomes.len(),
            log: prices(outcomes),
            aborted: false,
        }),
        prices(outcomes).len() <= outcomes.len(),
        (forall|i: int| 0 <= i < outcomes.len() ==> outcomes[i] is Ok) ==> prices(outcomes).len()
            == outcomes.len(),
    decreases outcomes.len(),
{
    if outcomes.len() > 0 {
        let front = outcomes.drop_last();
        assert(format_clean(front)) by {
            assert forall|i: int| 0 <= i < front.len() implies front[i] != Err::<
                Sample,
                FetchError,
            >(FetchError::Format) by {
                assert(front[i] == outcomes[i]);
            }
        }
        run_of_prefix(requested, front);
        assert(outcomes.last() == outcomes[outcomes.len() - 1]);
        if forall|i: int| 0 <= i < outcomes.len() ==> outcomes[i] is Ok {
            assert forall|i: int| 0 <= i < front.len() implies front[i] is Ok by {
                assert(front[i] == outcomes[i]);
            }
        }
    }
}

/// The mean of a run divides by the number of fetches asked for.
///
/// Take any number of fetches and as many outcomes, none of them a format
/// failure. After them the run is ready to persist. Its summary holds the
/// prices of the successful fetches in arrival order, and its divisor is the
/// number of fetches asked for, however many of them failed. Where every
/// fetch succeeded, the prices are as many as the divisor.
pub proof fn run_divides_by_requested(requested: nat, outcomes: Seq<Result<Sample, FetchError>>)
    requires
        outcomes.len() == requested,
        format_clean(outcomes),
    ensures
        SamplerState::start(requested).run(outcomes).action() == SamplerAction::Persist,
        SamplerState::start(requested).run(outcomes).summary() == Some(
            SummaryView { samples: prices(outcomes), divisor: requested },
        ),
        prices(outcomes).len() <= requested,
        (forall|i: int| 0 <= i < outcomes.len() ==> outcomes[i] is Ok) ==> prices(outcomes).len()
            == requested,
{
    run_of_prefix(requested, outcomes);
}

/// A format failure is fatal to the run.
///
/// Where one of the outcomes of the fetches that were asked for is a format
/// failure, the run ends given up and has no summary.
pub proof fn run_aborts_on_format_failure(
    requested: nat,
    outcomes: Seq<Result<Sample, FetchError>>,
    at: int,
)
    requires
        outcomes.len() <= requested,
        0 <= at < outcomes.len(),
        outcomes[at] == Err::<Sample, FetchError>(FetchError::Format),
    ensures
        SamplerState::start(requested).run(outcomes).action() == SamplerAction::Abort,
        SamplerState::start(requested).run(outcomes).summary().is_none(),
    decreases outcomes.len(),
{
    let front = outcomes.drop_last();
    if at < front.len() {
        assert(front[at] == outcomes[at]);
        run_aborts_on_format_failure(requested, front, at);
    } else if format_clean(front) {
        run_of_prefix(requested, front);
    } else {
        let earlier = choose|i: int|
            0 <= i < front.len() && front[i] == Err::<Sample, FetchError>(FetchError::Format);
        run_aborts_on_format_failure(requested, front, earlier);
    }
}

/// Every state that a run reaches keeps the counts in order: no more
/// outcomes than fetches asked for, no more prices than outcomes.
pub proof fn run_keeps_counts(requested: nat, outcomes: Seq<Result<Sample, FetchError>>)
    ensures
        SamplerState::start(requested).run(outcomes).wf(),
        SamplerState::start(requested).run(outcomes).requested == requested,
    decreases outcomes.len(),
{
    if outcomes.len() > 0 {
        run_keeps_counts(requested, outcomes.drop_last());
    }
}

/// A sampling run.
pub struct Sampler {
    requested: usize,
    attempts: usize,
    log: Vec<Sample>,
    aborted: bool,
}

impl View for Sampler {
    type V = SamplerState;

    closed spec fn view(&self) -> SamplerState {
        SamplerState {
            requested: self.requested as nat,
            attempts: self.attempts as nat,
            log: self.log@,
            aborted: self.aborted,
        }
    }
}

impl Sampler {
    /// A run of `times` fetches, none made yet.
    pub fn new(times: usize) -> (sampler: Sampler)
        ensures
            sampler@ == SamplerState::start(times as nat),
            sampler@.wf(),
    {
        Sampler { requested: times, attempts: 0, log: Vec::new(), aborted: false }
    }

    /// What the caller does next.
    pub fn next_action(&self) -> (action: SamplerAction)
        ensures
            action == self@.action(),
    {
        if self.aborted {
            SamplerAction::Abort
        } else if self.attempts < self.requested {
            SamplerAction::Fetch
        } else {
            SamplerAction::Persist
        }
    }

    /// Records the outcome of the fetch that was due.
    pub fn record(&mut self, outcome: Result<Sample, FetchError>)
        ensures
            final(self)@ == old(self)@.record(outcome),
            old(self)@.wf() ==> final(self)@.wf(),
    {
        if self.aborted || self.attempts >= self.requested {
            return ;
        }
        self.attempts = self.attempts + 1;
        match outcome {
            Ok(sample) => {
                self.log.push(sample);
            },
            Err(FetchError::Format) => {
                self.aborted = true;
            },
            Err(_) => {},
        }
    }

    /// Ends the run: the summary if every fetch was made, nothing if a fetch
    /// is still due or the run was given up.
    pub fn finish(self) -> (summary: Option<RunSummary>)
        ensures
            summary.is_some() == self@.summary().is_some(),
            summary matches Some(s) ==> Some(s@) == self@.summary(),
    {
        if self.aborted || self.attempts < self.requested {
            None
        } else {
            Some(RunSummary { samples: self.log, divisor: self.requested })
        }
    }
}

} // verus!
