//! Exponential moving average (EMA).
//!
//! The first input initializes the current value directly; every later input
//! blends in with the smoothing constant `k = 2 / (period + 1)`:
//! `current = k * input + (1 - k) * current`.

use crate::float_bits::{
    add_bits, div_bits, fadd, fdiv, fmul, fof_usize, fsub, mul_bits, of_usize_bits, sub_bits,
    ONE_BITS, TWO_BITS,
};
use crate::text::{period_label, spec_digits};
use crate::{MovingAverage, TaError};
use vstd::prelude::*;

verus! {

/// Mathematical state of [`ExponentialMovingAverage`].
pub struct EmaModel {
    /// The configured window size.
    pub period: usize,
    /// The smoothed value, absent until the first input arrives.
    pub current: Option<u64>,
}

/// Which periods the constructor accepts: every nonzero one.
pub open spec fn ema_valid(period: usize) -> bool {
    1 <= period
}

/// The smoothing constant belonging to a period.
pub open spec fn ema_k(period: usize) -> u64 {
    div_bits(TWO_BITS, of_usize_bits((period + 1) as usize))
}

/// The state of a freshly constructed instance.
pub open spec fn ema_initial(period: usize) -> EmaModel {
    EmaModel { period, current: None }
}

/// The value emitted when consuming one input, with `k` the smoothing
/// constant of the state's period.
pub open spec fn ema_output(m: EmaModel, input: u64) -> u64 {
    match m.current {
        None => input,
        Some(c) => add_bits(
            mul_bits(ema_k(m.period), input),
            mul_bits(sub_bits(ONE_BITS, ema_k(m.period)), c),
        ),
    }
}

/// The state after consuming one input.
pub open spec fn ema_step(m: EmaModel, input: u64) -> EmaModel {
    EmaModel { period: m.period, current: Some(ema_output(m, input)) }
}

/// Exponentially smoothed moving average.
#[derive(Clone, Copy, Debug)]
pub struct ExponentialMovingAverage {
    period: usize,
    k: u64,
    current: Option<u64>,
}

impl ExponentialMovingAverage {
    #[verifier::type_invariant]
    closed spec fn inv(self) -> bool {
        &&& 1 <= self.period
        &&& self.k == ema_k(self.period)
    }

    /// Build an instance with the given window size. Fails with
    /// `InvalidParameter` exactly when the period is 0.
    pub fn new(period: usize) -> (r: Result<Self, TaError>)
        requires
            period < usize::MAX,
        ensures
            r is Ok <==> ema_valid(period),
            r is Ok ==> r->Ok_0.model() == ema_initial(period),
            r is Err ==> r->Err_0 == TaError::InvalidParameter,
    {
        if period == 0 {
            Err(TaError::InvalidParameter)
        } else {
            let k = fdiv(TWO_BITS, fof_usize(period + 1));
            Ok(ExponentialMovingAverage { period, k, current: None })
        }
    }

    /// The state fields — period and current value — so a suspended stream
    /// can be persisted and later resumed; the smoothing constant is derived
    /// from the period alone.
    pub fn state(&self) -> (r: (usize, Option<u64>))
        ensures
            r == (self.model().period, self.model().current),
    {
        (self.period, self.current)
    }

    /// Rebuild an instance from persisted state fields, so that its future
    /// outputs are exactly those the suspended instance would have produced.
    /// Fails with `InvalidParameter` when the period is 0.
    pub fn restore(period: usize, current: Option<u64>) -> (r: Result<Self, TaError>)
        requires
            period < usize::MAX,
        ensures
            r is Ok <==> ema_valid(period),
            r is Ok ==> r->Ok_0.model() == (EmaModel { period, current }),
            r is Err ==> r->Err_0 == TaError::InvalidParameter,
    {
        match ExponentialMovingAverage::new(period) {
            Ok(mut e) => {
                proof {
                    use_type_invariant(&e);
                }
                e.current = current;
                Ok(e)
            },
            Err(e) => Err(e),
        }
    }

    /// The identity string `EMA(<period>)`.
    pub fn display(&self) -> (r: String)
        ensures
            r@ == "EMA("@ + spec_digits(self.model().period as nat) + seq![')'],
    {
        period_label("EMA(", self.period)
    }
}

impl MovingAverage for ExponentialMovingAverage {
    type Model = EmaModel;

    closed spec fn model(&self) -> EmaModel {
        EmaModel { period: self.period, current: self.current }
    }

    open spec fn valid_period(period: usize) -> bool {
        ema_valid(period)
    }

    open spec fn initial(period: usize) -> EmaModel {
        ema_initial(period)
    }

    open spec fn period_of(m: EmaModel) -> usize {
        m.period
    }

    open spec fn step(m: EmaModel, input: u64) -> EmaModel {
        ema_step(m, input)
    }

    open spec fn output(m: EmaModel, input: u64) -> u64 {
        ema_output(m, input)
    }

    proof fn lemma_valid_ge_two(period: usize) {
    }

    proof fn lemma_initial_period(period: usize) {
    }

    proof fn lemma_step_period(m: EmaModel, input: u64) {
    }

    fn with_period(period: usize) -> (r: Result<Self, TaError>) {
        ExponentialMovingAverage::new(period)
    }

    fn period(&self) -> (p: usize) {
        self.period
    }

    fn next(&mut self, input: u64) -> (r: u64) {
        proof {
            use_type_invariant(&*self);
        }
        let res = match self.current {
            None => input,
            Some(c) => fadd(fmul(self.k, input), fmul(fsub(ONE_BITS, self.k), c)),
        };
        self.current = Some(res);
        res
    }

    fn reset(&mut self) {
        proof {
            use_type_invariant(&*self);
        }
        self.current = None;
    }
}

} // verus!
