//! Streaming technical-analysis indicators, verified.
//!
//! Each indicator consumes one observation per call and produces a derived
//! value without re-scanning history. Price values are IEEE-754 binary64
//! numbers carried as their 64-bit patterns (see [`float_bits`]); every
//! `advance` contract states the exact pattern returned, as a composition of
//! the named IEEE operations.
//!
//! The volatility indicators ([`AverageTrueRange`],
//! [`NormalizedAverageTrueRange`]) are generic over an interchangeable
//! [`MovingAverage`] smoothing strategy; three strategies are provided:
//! [`SimpleMovingAverage`], [`ExponentialMovingAverage`] and the Wilder
//! [`RunningMovingAverage`].

use vstd::prelude::*;

pub mod average_true_range;
pub mod exponential_moving_average;
pub mod float_bits;
pub mod natr;
pub mod running_moving_average;
pub mod simple_moving_average;
pub mod text;
pub mod true_range;

pub use average_true_range::AverageTrueRange;
pub use exponential_moving_average::ExponentialMovingAverage;
pub use natr::NormalizedAverageTrueRange;
pub use running_moving_average::RunningMovingAverage;
pub use simple_moving_average::SimpleMovingAverage;
pub use true_range::TrueRange;

verus! {

/// Error returned by indicator constructors when the requested period is
/// below the strategy's minimum.
#[derive(Clone, Copy, Debug, PartialEq, Eq, Structural)]
pub enum TaError {
    InvalidParameter,
}

/// One price observation. The fields are IEEE-754 binary64 bit patterns; the
/// indicators only read them, never retain the bar itself.
#[derive(Clone, Copy, Debug, PartialEq, Eq, Structural)]
pub struct Bar {
    pub high: u64,
    pub low: u64,
    pub close: u64,
}

/// The capability contract every moving-average smoothing strategy satisfies.
///
/// A strategy is a deterministic state machine: `Model` is its mathematical
/// state, `step` the state transition on one input, and `output` the value
/// emitted for that input. The executable operations are pinned to those
/// spec functions exactly, so two strategies differ only in their recurrence,
/// never in their lifecycle.
pub trait MovingAverage: Sized {
    /// Mathematical state of the strategy.
    type Model;

    /// The state this value is in.
    spec fn model(&self) -> Self::Model;

    /// Which periods the constructor accepts.
    spec fn valid_period(period: usize) -> bool;

    /// The state of a freshly constructed strategy.
    spec fn initial(period: usize) -> Self::Model;

    /// The configured window size of a state.
    spec fn period_of(m: Self::Model) -> usize;

    /// The state after consuming one input.
    spec fn step(m: Self::Model, input: u64) -> Self::Model;

    /// The value emitted when consuming one input.
    spec fn output(m: Self::Model, input: u64) -> u64;

    /// Every period of at least 2 is accepted by every strategy.
    proof fn lemma_valid_ge_two(period: usize)
        requires
            2 <= period,
        ensures
            Self::valid_period(period),
    ;

    /// A fresh state remembers its period.
    proof fn lemma_initial_period(period: usize)
        ensures
            Self::period_of(Self::initial(period)) == period,
    ;

    /// Consuming an input never changes the period.
    proof fn lemma_step_period(m: Self::Model, input: u64)
        ensures
            Self::period_of(Self::step(m, input)) == Self::period_of(m),
    ;

    /// Fallible constructor: succeeds exactly on the valid periods, and then
    /// yields the initial state; fails with `InvalidParameter` otherwise.
    fn with_period(period: usize) -> (r: Result<Self, TaError>)
        requires
            period < usize::MAX,
        ensures
            r is Ok <==> Self::valid_period(period),
            r is Ok ==> r->Ok_0.model() == Self::initial(period),
            r is Err ==> r->Err_0 == TaError::InvalidParameter,
    ;

    /// The configured window size; pure.
    fn period(&self) -> (p: usize)
        ensures
            p == Self::period_of(self.model()),
    ;

    /// Consume one input and return the updated smoothed value.
    fn next(&mut self, input: u64) -> (r: u64)
        ensures
            final(self).model() == Self::step(old(self).model(), input),
            r == Self::output(old(self).model(), input),
    ;

    /// Return to the just-constructed state for the same period.
    fn reset(&mut self)
        ensures
            final(self).model() == Self::initial(Self::period_of(old(self).model())),
    ;
}

/// The outputs a strategy emits from state `m` on a whole input sequence.
pub open spec fn ma_run<MA: MovingAverage>(m: MA::Model, inputs: Seq<u64>) -> Seq<u64>
    decreases inputs.len(),
{
    if inputs.len() == 0 {
        Seq::empty()
    } else {
        seq![MA::output(m, inputs[0])] + ma_run::<MA>(MA::step(m, inputs[0]), inputs.drop_first())
    }
}

/// Law: `reset` followed by re-feeding reproduces the output sequence of a
/// freshly constructed instance with the same period. The hypothesis is
/// exactly what `reset` ensures of the state it leaves behind.
pub proof fn lemma_reset_replay<MA: MovingAverage>(
    before: MA::Model,
    after: MA::Model,
    inputs: Seq<u64>,
)
    requires
        after == MA::initial(MA::period_of(before)),
    ensures
        ma_run::<MA>(after, inputs) == ma_run::<MA>(
            MA::initial(MA::period_of(before)),
            inputs,
        ),
{
}

} // verus!
