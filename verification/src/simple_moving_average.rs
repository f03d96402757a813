//! Simple moving average (SMA) over a bounded window.
//!
//! The strategy keeps the most recent `period` inputs and their running sum.
//! Until the window is full it answers `+0.0`; from then on it answers
//! `sum / period`, where the sum slides by subtracting the input that left
//! the window and adding the one that entered it.

use crate::float_bits::{add_bits, div_bits, fadd, fdiv, fof_usize, fsub, of_usize_bits, sub_bits, ZERO_BITS};
use crate::text::{period_label, spec_digits};
use crate::{MovingAverage, TaError};
use vstd::prelude::*;

verus! {

/// Mathematical state of [`SimpleMovingAverage`].
#[verifier::ext_equal]
pub struct SmaModel {
    /// The configured window size.
    pub period: usize,
    /// The most recent inputs, oldest first; never longer than `period`.
    pub window: Seq<u64>,
    /// The running sum of the window, in accumulation order.
    pub sum: u64,
}

/// Which periods the constructor accepts: every nonzero one.
pub open spec fn sma_valid(period: usize) -> bool {
    1 <= period
}

/// The state of a freshly constructed instance.
pub open spec fn sma_initial(period: usize) -> SmaModel {
    SmaModel { period, window: Seq::empty(), sum: ZERO_BITS }
}

/// The state after consuming one input: the oldest input leaves a full
/// window (and leaves the sum), then the new one enters both.
pub open spec fn sma_step(m: SmaModel, input: u64) -> SmaModel {
    let (w, s) = if m.window.len() == m.period {
        (m.window.drop_first(), sub_bits(m.sum, m.window[0]))
    } else {
        (m.window, m.sum)
    };
    SmaModel { period: m.period, window: w.push(input), sum: add_bits(s, input) }
}

/// The value emitted when consuming one input: `+0.0` until the window is
/// full, the windowed average afterwards.
pub open spec fn sma_output(m: SmaModel, input: u64) -> u64 {
    let next = sma_step(m, input);
    if next.window.len() == m.period {
        div_bits(next.sum, of_usize_bits(m.period))
    } else {
        ZERO_BITS
    }
}

/// Plain moving average over the most recent `period` inputs.
#[derive(Debug)]
pub struct SimpleMovingAverage {
    period: usize,
    window: Vec<u64>,
    sum: u64,
}

impl SimpleMovingAverage {
    #[verifier::type_invariant]
    closed spec fn inv(self) -> bool {
        &&& 1 <= self.period
        &&& self.window@.len() <= self.period
    }

    /// Build an instance with the given window size. Fails with
    /// `InvalidParameter` exactly when the period is 0.
    pub fn new(period: usize) -> (r: Result<Self, TaError>)
        ensures
            r is Ok <==> sma_valid(period),
            r is Ok ==> r->Ok_0.model() == sma_initial(period),
            r is Err ==> r->Err_0 == TaError::InvalidParameter,
    {
        if period == 0 {
            Err(TaError::InvalidParameter)
        } else {
            let r = SimpleMovingAverage { period, window: Vec::new(), sum: ZERO_BITS };
            proof {
                assert(r.model() =~= sma_initial(period));
            }
            Ok(r)
        }
    }

    /// The state fields — period, window contents (oldest first) and running
    /// sum — so a suspended stream can be persisted and later resumed.
    pub fn into_state(self) -> (r: (usize, Vec<u64>, u64))
        ensures
            r.0 == self.model().period,
            r.1@ == self.model().window,
            r.2 == self.model().sum,
    {
        let SimpleMovingAverage { period, window, sum } = self;
        (period, window, sum)
    }

    /// Rebuild an instance from persisted state fields, so that its future
    /// outputs are exactly those the suspended instance would have produced.
    /// Fails with `InvalidParameter` on fields no stream can have reached.
    pub fn restore(period: usize, window: Vec<u64>, sum: u64) -> (r: Result<Self, TaError>)
        ensures
            r is Ok <==> sma_valid(period) && window@.len() <= period,
            r is Ok ==> r->Ok_0.model() == (SmaModel { period, window: window@, sum }),
            r is Err ==> r->Err_0 == TaError::InvalidParameter,
    {
        if period == 0 || window.len() > period {
            Err(TaError::InvalidParameter)
        } else {
            Ok(SimpleMovingAverage { period, window, sum })
        }
    }

    /// The identity string `SMA(<period>)`.
    pub fn display(&self) -> (r: String)
        ensures
            r@ == "SMA("@ + spec_digits(self.model().period as nat) + seq![')'],
    {
        period_label("SMA(", self.period)
    }
}

impl MovingAverage for SimpleMovingAverage {
    type Model = SmaModel;

    closed spec fn model(&self) -> SmaModel {
        SmaModel { period: self.period, window: self.window@, sum: self.sum }
    }

    open spec fn valid_period(period: usize) -> bool {
        sma_valid(period)
    }

    open spec fn initial(period: usize) -> SmaModel {
        sma_initial(period)
    }

    open spec fn period_of(m: SmaModel) -> usize {
        m.period
    }

    open spec fn step(m: SmaModel, input: u64) -> SmaModel {
        sma_step(m, input)
    }

    open spec fn output(m: SmaModel, input: u64) -> u64 {
        sma_output(m, input)
    }

    proof fn lemma_valid_ge_two(period: usize) {
    }

    proof fn lemma_initial_period(period: usize) {
    }

    proof fn lemma_step_period(m: SmaModel, input: u64) {
    }

    fn with_period(period: usize) -> (r: Result<Self, TaError>) {
        SimpleMovingAverage::new(period)
    }

    fn period(&self) -> (p: usize) {
        self.period
    }

    fn next(&mut self, input: u64) -> (r: u64) {
        proof {
            use_type_invariant(&*self);
        }
        // The window is swapped out while it is edited, so that the bound on
        // its length holds at every program point.
        let mut w: Vec<u64> = Vec::new();
        core::mem::swap(&mut w, &mut self.window);
        if w.len() == self.period {
            let oldest = w.remove(0);
            self.sum = fsub(self.sum, oldest);
        }
        w.push(input);
        self.sum = fadd(self.sum, input);
        core::mem::swap(&mut w, &mut self.window);
        proof {
            assert(self.model() =~= sma_step(old(self).model(), input));
        }
        if self.window.len() == self.period {
            fdiv(self.sum, fof_usize(self.period))
        } else {
            ZERO_BITS
        }
    }

    fn reset(&mut self) {
        proof {
            use_type_invariant(&*self);
        }
        self.window = Vec::new();
        self.sum = ZERO_BITS;
        proof {
            assert(self.model() =~= sma_initial(self.model().period));
        }
    }
}

} // verus!
