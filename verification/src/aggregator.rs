//! The aggregation: several producers fetch prices side by side into one
//! shared accumulator, and one consumer forms the mean once enough of them
//! have contributed.
//!
//! The accumulator is the only state the producers and the consumer share.
//! The caller keeps it behind one lock and calls each function of this module
//! with the lock held, so that a sample and its count arrive together.

use vstd::prelude::*;
use crate::sample::{copy_samples, Sample};
use crate::sampler::{RunSummary, SummaryView};
use crate::source::FetchError;

verus! {

/// The number of producers, and of contributions that complete the
/// accumulator.
pub const PRODUCERS: usize = 5;

/// The number of seconds after which a producer stops.
pub const TIME_CAP_SECS: u64 = 10;

/// The number of seconds a producer waits between two fetches.
pub const SAMPLE_DELAY_SECS: u64 = 1;

/// Why a producer stopped.
#[derive(Clone, Copy, Debug, PartialEq, Eq, Structural)]
pub enum Termination {
    /// The accumulator is complete.
    CompletedCountReached,
    /// The producer ran for its full time.
    TimeCapReached,
}

/// The state of a producer. It starts `Running`.
#[derive(Clone, Copy, Debug, PartialEq, Eq, Structural)]
pub enum ProducerState {
    /// The producer fetches again.
    Running,
    /// The producer has stopped.
    Terminated(Termination),
}

/// What the consumer does next.
#[derive(Clone, Copy, Debug, PartialEq, Eq, Structural)]
pub enum ConsumerAction {
    /// Give way to the producers and ask again.
    Wait,
    /// Form the mean of the accumulator's summary.
    Finalize,
}

/// The state of the accumulator.
pub struct AccumulatorState {
    /// The contributed prices, in arrival order.
    pub samples: Seq<Sample>,
    /// The number of contributions counted.
    pub completed: nat,
}

impl AccumulatorState {
    /// The accumulator before any contribution.
    pub open spec fn empty() -> AccumulatorState {
        AccumulatorState { samples: Seq::empty(), completed: 0 }
    }

    /// No more contributions are counted than there are producers, nor more
    /// than there are samples.
    pub open spec fn wf(self) -> bool {
        self.completed <= PRODUCERS && self.completed <= self.samples.len()
    }

    /// Whether as many contributions are counted as there are producers.
    pub open spec fn complete(self) -> bool {
        self.completed >= PRODUCERS
    }

    /// The accumulator after one contribution: the sample is appended, and
    /// counted unless the accumulator is complete already.
    pub open spec fn contribute(self, sample: Sample) -> AccumulatorState {
        AccumulatorState {
            samples: self.samples.push(sample),
            completed: if self.complete() {
                self.completed
            } else {
                self.completed + 1
            },
        }
    }

    /// The accumulator after the outcome of one fetch. A price is
    /// contributed. A price text that is not a number contributes zero. Any
    /// other failure contributes nothing.
    pub open spec fn absorb(self, outcome: Result<Sample, FetchError>) -> AccumulatorState {
        match outcome {
            Ok(sample) => self.contribute(sample),
            Err(FetchError::Format) => self.contribute(Sample { bits: 0 }),
            Err(_) => self,
        }
    }

    /// The accumulator after a sequence of outcomes, first to last, in the
    /// order in which the lock was taken.
    pub open spec fn absorb_all(self, outcomes: Seq<Result<Sample, FetchError>>) -> AccumulatorState
        decreases outcomes.len(),
    {
        if outcomes.len() == 0 {
            self
        } else {
            self.absorb_all(outcomes.drop_last()).absorb(outcomes.last())
        }
    }

    /// What a producer does at the head of its loop, `elapsed_secs` whole
    /// seconds after it started.
    pub open spec fn producer(self, elapsed_secs: u64) -> ProducerState {
        if self.complete() {
            ProducerState::Terminated(Termination::CompletedCountReached)
        } else if elapsed_secs >= TIME_CAP_SECS {
            ProducerState::Terminated(Termination::TimeCapReached)
        } else {
            ProducerState::Running
        }
    }

    /// What the consumer does.
    pub open spec fn consumer(self) -> ConsumerAction {
        if self.complete() {
            ConsumerAction::Finalize
        } else {
            ConsumerAction::Wait
        }
    }

    /// The numbers of the final mean: every sample, over their number.
    pub open spec fn summary(self) -> SummaryView {
        SummaryView { samples: self.samples, divisor: self.samples.len() }
    }
}

/// The number of outcomes in a sequence that contribute a sample.
pub open spec fn contributions(outcomes: Seq<Result<Sample, FetchError>>) -> nat
    decreases outcomes.len(),
{
    if outcomes.len() == 0 {
        0
    } else {
        match outcomes.last() {
            Ok(_) | Err(FetchError::Format) => contributions(outcomes.drop_last()) + 1,
            Err(_) => contributions(outcomes.drop_last()),
        }
    }
}

/// Taking in a longer run of outcomes goes on from where the shorter left off.
proof fn absorb_all_step(
    state: AccumulatorState,
    outcomes: Seq<Result<Sample, FetchError>>,
    upto: int,
)
    requires
        0 <= upto < outcomes.len(),
    ensures
        state.absorb_all(outcomes.take(upto + 1)) == state.absorb_all(outcomes.take(upto)).absorb(
            outcomes[upto],
        ),
{
    let longer = outcomes.take(upto + 1);
    assert(longer.drop_last() == outcomes.take(upto));
    assert(longer.last() == outcomes[upto]);
}

/// The count of contributions never goes down.
///
/// Take any accumulator and any sequence of outcomes. Among the states that
/// the accumulator passes through, a later one counts at least as many
/// contributions as an earlier one, and holds at least as many samples.
pub proof fn completed_count_never_decreases(
    state: AccumulatorState,
    outcomes: Seq<Result<Sample, FetchError>>,
    earlier: int,
    later: int,
)
    requires
        0 <= earlier <= later <= outcomes.len(),
    ensures
        state.absorb_all(outcomes.take(earlier)).completed <= state.absorb_all(
            outcomes.take(later),
        ).completed,
        state.absorb_all(outcomes.take(earlier)).samples.len() <= state.absorb_all(
            outcomes.take(later),
        ).samples.len(),
    decreases later - earlier,
{
    if earlier < later {
        completed_count_never_decreases(state, outcomes, earlier, later - 1);
        absorb_all_step(state, outcomes, later - 1);
    }
}

/// A sample and its count arrive together.
///
/// Take an accumulator that counts no more contributions than there are
/// producers and no more than it holds samples. After any sequence of
/// outcomes the same holds of it: the count never passes the number of
/// samples.
pub proof fn count_never_passes_samples(
    state: AccumulatorState,
    outcomes: Seq<Result<Sample, FetchError>>,
)
    requires
        state.wf(),
    ensures
        state.absorb_all(outcomes).wf(),
    decreases outcomes.len(),
{
    if outcomes.len() > 0 {
        count_never_passes_samples(state, outcomes.drop_last());
    }
}

/// What a fresh accumulator holds after a sequence of outcomes: one sample
/// for each outcome that contributes, and a count of them that stops at the
/// number of producers.
pub proof fn count_of_contributions(outcomes: Seq<Result<Sample, FetchError>>)
    ensures
        AccumulatorState::empty().absorb_all(outcomes).samples.len() == contributions(outcomes),
        AccumulatorState::empty().absorb_all(outcomes).completed == (if contributions(outcomes)
            <= PRODUCERS {
            contributions(outcomes)
        } else {
            PRODUCERS as nat
        }),
    decreases outcomes.len(),
{
    if outcomes.len() > 0 {
        count_of_contributions(outcomes.drop_last());
    }
}

/// Enough contributions end the aggregation.
///
/// Take any sequence of outcomes, from whichever producers and in whichever
/// order, of which at least as many contribute as there are producers: so
/// whenever each producer contributes once. After them the consumer
/// finalizes, over at least that many samples, and every producer that asks
/// is told to stop.
pub proof fn enough_contributions_finalize(
    outcomes: Seq<Result<Sample, FetchError>>,
    elapsed_secs: u64,
)
    requires
        contributions(outcomes) >= PRODUCERS,
    ensures
        AccumulatorState::empty().absorb_all(outcomes).consumer() == ConsumerAction::Finalize,
        AccumulatorState::empty().absorb_all(outcomes).producer(elapsed_secs)
            == ProducerState::Terminated(Termination::CompletedCountReached),
        AccumulatorState::empty().absorb_all(outcomes).summary().divisor >= PRODUCERS,
{
    count_of_contributions(outcomes);
}

/// No producer runs past its time.
///
/// Whatever the accumulator holds, a producer that asks once its time is up
/// is told to stop.
pub proof fn producer_stops_at_time_cap(state: AccumulatorState, elapsed_secs: u64)
    requires
        elapsed_secs >= TIME_CAP_SECS,
    ensures
        state.producer(elapsed_secs) is Terminated,
{
}

/// The accumulator that the producers and the consumer share.
pub struct Accumulator {
    samples: Vec<Sample>,
    completed: usize,
}

impl View for Accumulator {
    type V = AccumulatorState;

    closed spec fn view(&self) -> AccumulatorState {
        AccumulatorState { samples: self.samples@, completed: self.completed as nat }
    }
}

impl Accumulator {
    /// An accumulator without contributions.
    pub fn new() -> (accumulator: Accumulator)
        ensures
            accumulator@ == AccumulatorState::empty(),
            accumulator@.wf(),
    {
        Accumulator { samples: Vec::new(), completed: 0 }
    }

    /// The number of contributions counted.
    pub fn completed_count(&self) -> (count: usize)
        ensures
            count == self@.completed,
    {
        self.completed
    }

    /// The number of samples held.
    pub fn len(&self) -> (count: usize)
        ensures
            count == self@.samples.len(),
    {
        self.samples.len()
    }

    /// Whether as many contributions are counted as there are producers.
    pub fn is_complete(&self) -> (complete: bool)
        ensures
            complete == self@.complete(),
    {
        self.completed >= PRODUCERS
    }

    /// Appends one sample and counts it, in one step.
    pub fn contribute(&mut self, sample: Sample)
        ensures
            final(self)@ == old(self)@.contribute(sample),
            final(self)@.completed >= old(self)@.completed,
            old(self)@.wf() ==> final(self)@.wf(),
    {
        self.samples.push(sample);
        if self.completed < PRODUCERS {
            self.completed = self.completed + 1;
        }
    }

    /// What a producer does at the head of its loop, `elapsed_secs` whole
    /// seconds after it started.
    pub fn poll_producer(&self, elapsed_secs: u64) -> (state: ProducerState)
        ensures
            state == self@.producer(elapsed_secs),
    {
        if self.completed >= PRODUCERS {
            ProducerState::Terminated(Termination::CompletedCountReached)
        } else if elapsed_secs >= TIME_CAP_SECS {
            ProducerState::Terminated(Termination::TimeCapReached)
        } else {
            ProducerState::Running
        }
    }

    /// Takes in the outcome of a producer's fetch and says whether the
    /// producer goes on: it stops at once where the accumulator is complete,
    /// and otherwise waits and asks [`Accumulator::poll_producer`].
    pub fn absorb(&mut self, outcome: Result<Sample, FetchError>) -> (state: ProducerState)
        ensures
            final(self)@ == old(self)@.absorb(outcome),
            final(self)@.completed >= old(self)@.completed,
            old(self)@.wf() ==> final(self)@.wf(),
            state == (if final(self)@.complete() {
                ProducerState::Terminated(Termination::CompletedCountReached)
            } else {
                ProducerState::Running
            }),
    {
        match outcome {
            Ok(sample) => {
                self.contribute(sample);
            },
            Err(FetchError::Format) => {
                self.contribute(Sample::zero());
            },
            Err(_) => {},
        }
        if self.completed >= PRODUCERS {
            ProducerState::Terminated(Termination::CompletedCountReached)
        } else {
            ProducerState::Running
        }
    }

    /// What the consumer does next.
    pub fn poll_consumer(&self) -> (action: ConsumerAction)
        ensures
            action == self@.consumer(),
    {
        if self.completed >= PRODUCERS {
            ConsumerAction::Finalize
        } else {
            ConsumerAction::Wait
        }
    }

    /// The numbers of the final mean: every sample held, over their number.
    pub fn summary(&self) -> (summary: RunSummary)
        ensures
            summary@ == self@.summary(),
    {
        RunSummary { samples: copy_samples(&self.samples), divisor: self.samples.len() }
    }
}

} // verus!
