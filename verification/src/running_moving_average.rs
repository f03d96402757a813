//! Wilder's running moving average (RMA).
//!
//! The strategy warms up silently: each of the first `period - 1` inputs is
//! accumulated and answered with `+0.0`. The `period`-th input is answered
//! with `(sum of the first period inputs) / period`, and every later input
//! with `(previous output * (period - 1) + input) / period`.

use crate::float_bits::{
    add_bits, div_bits, fadd, fdiv, fmul, fof_usize, mul_bits, of_usize_bits, ZERO_BITS,
};
use crate::text::{period_label, spec_digits};
use crate::{ma_run, Bar, MovingAverage, TaError};
use vstd::prelude::*;

verus! {

/// Mathematical state of [`RunningMovingAverage`].
pub struct RmaModel {
    /// The configured window size.
    pub period: usize,
    /// How many inputs have been consumed, capped at `period`: beyond the
    /// warm-up the recurrence no longer depends on the count.
    pub count: usize,
    /// The last emitted value (`+0.0` during the warm-up).
    pub prev: u64,
    /// The warm-up accumulator.
    pub sum: u64,
}

/// Which periods the constructor accepts: the warm-up recurrence is
/// undefined for periods below 2.
pub open spec fn rma_valid(period: usize) -> bool {
    2 <= period
}

/// The state of a freshly constructed instance.
pub open spec fn rma_initial(period: usize) -> RmaModel {
    RmaModel { period, count: 0, prev: ZERO_BITS, sum: ZERO_BITS }
}

/// States reachable through the constructor and `next`.
pub open spec fn rma_wf(m: RmaModel) -> bool {
    &&& 2 <= m.period
    &&& m.count <= m.period
}

/// The value emitted by the final warm-up input: the plain average of the
/// first `period` inputs, in accumulation order.
pub open spec fn rma_warm_output(m: RmaModel, input: u64) -> u64 {
    div_bits(add_bits(m.sum, input), of_usize_bits(m.period))
}

/// The value emitted past the warm-up: the Wilder recurrence.
pub open spec fn rma_steady_output(m: RmaModel, input: u64) -> u64 {
    div_bits(
        add_bits(mul_bits(m.prev, of_usize_bits((m.period - 1) as usize)), input),
        of_usize_bits(m.period),
    )
}

/// The value emitted when consuming one input.
pub open spec fn rma_output(m: RmaModel, input: u64) -> u64 {
    if m.count + 1 < m.period {
        ZERO_BITS
    } else if m.count + 1 == m.period {
        rma_warm_output(m, input)
    } else {
        rma_steady_output(m, input)
    }
}

/// The state after consuming one input.
pub open spec fn rma_step(m: RmaModel, input: u64) -> RmaModel {
    if m.count + 1 < m.period {
        RmaModel {
            period: m.period,
            count: (m.count + 1) as usize,
            prev: ZERO_BITS,
            sum: add_bits(m.sum, input),
        }
    } else if m.count + 1 == m.period {
        RmaModel { period: m.period, count: m.period, prev: rma_warm_output(m, input), sum: m.sum }
    } else {
        RmaModel {
            period: m.period,
            count: m.count,
            prev: rma_steady_output(m, input),
            sum: m.sum,
        }
    }
}

/// Wilder-smoothed running moving average.
#[derive(Clone, Copy, Debug)]
pub struct RunningMovingAverage {
    period: usize,
    count: usize,
    prev: u64,
    sum: u64,
}

impl RunningMovingAverage {
    #[verifier::type_invariant]
    closed spec fn inv(self) -> bool {
        rma_wf(self.model())
    }

    /// Build an instance with the given window size. Fails with
    /// `InvalidParameter` exactly when the period is below 2.
    pub fn new(period: usize) -> (r: Result<Self, TaError>)
        ensures
            r is Ok <==> rma_valid(period),
            r is Ok ==> r->Ok_0.model() == rma_initial(period),
            r is Err ==> r->Err_0 == TaError::InvalidParameter,
    {
        if period <= 1 {
            Err(TaError::InvalidParameter)
        } else {
            Ok(RunningMovingAverage { period, count: 0, prev: ZERO_BITS, sum: ZERO_BITS })
        }
    }

    /// Consume one bar, reading only its close.
    pub fn next_bar(&mut self, bar: &Bar) -> (r: u64)
        ensures
            final(self).model() == rma_step(old(self).model(), bar.close),
            r == rma_output(old(self).model(), bar.close),
    {
        self.next(bar.close)
    }

    /// The state fields — period, count, last output, accumulator — so a
    /// suspended stream can be persisted and later resumed.
    pub fn state(&self) -> (r: (usize, usize, u64, u64))
        ensures
            r == (
                self.model().period,
                self.model().count,
                self.model().prev,
                self.model().sum,
            ),
    {
        (self.period, self.count, self.prev, self.sum)
    }

    /// Rebuild an instance from persisted state fields, so that its future
    /// outputs are exactly those the suspended instance would have produced.
    /// Fails with `InvalidParameter` on fields no stream can have reached.
    pub fn restore(period: usize, count: usize, prev: u64, sum: u64) -> (r: Result<
        Self,
        TaError,
    >)
        ensures
            r is Ok <==> rma_valid(period) && count <= period,
            r is Ok ==> r->Ok_0.model() == (RmaModel { period, count, prev, sum }),
            r is Err ==> r->Err_0 == TaError::InvalidParameter,
    {
        if period <= 1 || count > period {
            Err(TaError::InvalidParameter)
        } else {
            Ok(RunningMovingAverage { period, count, prev, sum })
        }
    }

    /// The identity string `RMA(<period>)`.
    pub fn display(&self) -> (r: String)
        ensures
            r@ == "RMA("@ + spec_digits(self.model().period as nat) + seq![')'],
    {
        period_label("RMA(", self.period)
    }
}

impl MovingAverage for RunningMovingAverage {
    type Model = RmaModel;

    closed spec fn model(&self) -> RmaModel {
        RmaModel { period: self.period, count: self.count, prev: self.prev, sum: self.sum }
    }

    open spec fn valid_period(period: usize) -> bool {
        rma_valid(period)
    }

    open spec fn initial(period: usize) -> RmaModel {
        rma_initial(period)
    }

    open spec fn period_of(m: RmaModel) -> usize {
        m.period
    }

    open spec fn step(m: RmaModel, input: u64) -> RmaModel {
        rma_step(m, input)
    }

    open spec fn output(m: RmaModel, input: u64) -> u64 {
        rma_output(m, input)
    }

    proof fn lemma_valid_ge_two(period: usize) {
    }

    proof fn lemma_initial_period(period: usize) {
    }

    proof fn lemma_step_period(m: RmaModel, input: u64) {
    }

    fn with_period(period: usize) -> (r: Result<Self, TaError>) {
        RunningMovingAverage::new(period)
    }

    fn period(&self) -> (p: usize) {
        self.period
    }

    fn next(&mut self, input: u64) -> (r: u64) {
        proof {
            use_type_invariant(&*self);
        }
        let res: u64;
        if self.count < self.period {
            if self.count + 1 < self.period {
                self.sum = fadd(self.sum, input);
                self.count = self.count + 1;
                self.prev = ZERO_BITS;
                res = ZERO_BITS;
            } else {
                res = fdiv(fadd(self.sum, input), fof_usize(self.period));
                self.count = self.period;
                self.prev = res;
            }
        } else {
            res = fdiv(
                fadd(fmul(self.prev, fof_usize(self.period - 1)), input),
                fof_usize(self.period),
            );
            self.prev = res;
        }
        res
    }

    fn reset(&mut self) {
        proof {
            use_type_invariant(&*self);
        }
        self.count = 0;
        self.sum = ZERO_BITS;
        self.prev = ZERO_BITS;
    }
}

/// The inputs of `q` added, in order, onto `acc`.
pub open spec fn add_fold(acc: u64, q: Seq<u64>) -> u64
    decreases q.len(),
{
    if q.len() == 0 {
        acc
    } else {
        add_fold(add_bits(acc, q[0]), q.drop_first())
    }
}

/// What one output of a run started in state `m` is, by its position: zero
/// while the warm-up lasts, the warm-up average when it ends, the Wilder
/// recurrence on the previous output afterwards.
pub open spec fn rma_expected(m: RmaModel, inputs: Seq<u64>, outs: Seq<u64>, i: int) -> u64 {
    if m.count + i + 1 < m.period {
        ZERO_BITS
    } else if m.count + i + 1 == m.period {
        div_bits(
            add_bits(add_fold(m.sum, inputs.take(i)), inputs[i]),
            of_usize_bits(m.period),
        )
    } else {
        div_bits(
            add_bits(
                mul_bits(
                    if i == 0 {
                        m.prev
                    } else {
                        outs[i - 1]
                    },
                    of_usize_bits((m.period - 1) as usize),
                ),
                inputs[i],
            ),
            of_usize_bits(m.period),
        )
    }
}

/// Every output of a run from any well-formed state follows the warm-up /
/// warm-up-average / recurrence schedule of [`rma_expected`].
pub proof fn lemma_rma_run(m: RmaModel, inputs: Seq<u64>)
    requires
        rma_wf(m),
    ensures
        ma_run::<RunningMovingAverage>(m, inputs).len() == inputs.len(),
        forall|i: int|
            0 <= i < inputs.len() ==> #[trigger] ma_run::<RunningMovingAverage>(m, inputs)[i]
                == rma_expected(m, inputs, ma_run::<RunningMovingAverage>(m, inputs), i),
    decreases inputs.len(),
{
    if inputs.len() != 0 {
        let x0 = inputs[0];
        let m1 = rma_step(m, x0);
        let rest = inputs.drop_first();
        let outs = ma_run::<RunningMovingAverage>(m, inputs);
        let outs1 = ma_run::<RunningMovingAverage>(m1, rest);
        lemma_rma_run(m1, rest);
        assert(outs == seq![rma_output(m, x0)] + outs1);
        assert forall|i: int| 0 <= i < inputs.len() implies #[trigger] outs[i] == rma_expected(
            m,
            inputs,
            outs,
            i,
        ) by {
            if i == 0 {
                assert(inputs.take(0) =~= Seq::<u64>::empty());
            } else {
                assert(outs[i] == outs1[i - 1]);
                assert(outs1[i - 1] == rma_expected(m1, rest, outs1, i - 1));
                assert(m1.count + i == m.count + i + 1 || (m.count + 1 >= m.period && m1.count
                    + i > m.period));
                if m.count + i + 1 == m.period {
                    // The warm-up average: the accumulator of the successor
                    // state already holds the first input.
                    assert(m1.sum == add_bits(m.sum, x0));
                    assert(rest.take(i - 1) =~= inputs.take(i).drop_first());
                    assert(inputs.take(i).len() != 0);
                    assert(inputs.take(i)[0] == x0);
                    assert(add_fold(m1.sum, rest.take(i - 1)) == add_fold(
                        m.sum,
                        inputs.take(i),
                    ));
                    assert(rest[i - 1] == inputs[i]);
                } else if m.count + i + 1 > m.period {
                    // The recurrence: the previous output seen by the
                    // successor run is this run's previous output.
                    if i == 1 {
                        assert(m1.prev == outs[0]);
                    } else {
                        assert(outs1[i - 2] == outs[i - 1]);
                    }
                    assert(rest[i - 1] == inputs[i]);
                } else {
                    assert(rest[i - 1] == inputs[i]);
                }
            }
        }
    }
}

/// Law: from a fresh state with period at least 2, the run over any input
/// sequence emits exactly `+0.0` for each of the first `period - 1` inputs,
/// the plain average of the first `period` inputs (in accumulation order)
/// for the `period`-th, and the Wilder recurrence on the previous output for
/// every later one.
pub proof fn lemma_rma_warmup_then_recurrence(period: usize, inputs: Seq<u64>)
    requires
        2 <= period,
    ensures
        ma_run::<RunningMovingAverage>(rma_initial(period), inputs).len() == inputs.len(),
        forall|i: int|
            0 <= i < inputs.len() && i + 1 < period ==> #[trigger] ma_run::<
                RunningMovingAverage,
            >(rma_initial(period), inputs)[i] == ZERO_BITS,
        forall|i: int|
            0 <= i < inputs.len() && i + 1 == period ==> #[trigger] ma_run::<
                RunningMovingAverage,
            >(rma_initial(period), inputs)[i] == div_bits(
                add_bits(add_fold(ZERO_BITS, inputs.take(i)), inputs[i]),
                of_usize_bits(period),
            ),
        forall|i: int|
            0 <= i < inputs.len() && i + 1 > period ==> #[trigger] ma_run::<
                RunningMovingAverage,
            >(rma_initial(period), inputs)[i] == div_bits(
                add_bits(
                    mul_bits(
                        ma_run::<RunningMovingAverage>(rma_initial(period), inputs)[i - 1],
                        of_usize_bits((period - 1) as usize),
                    ),
                    inputs[i],
                ),
                of_usize_bits(period),
            ),
{
    lemma_rma_run(rma_initial(period), inputs);
}

impl Default for RunningMovingAverage {
    /// The reference configuration: period 9.
    fn default() -> (r: Self)
        ensures
            r.model() == rma_initial(9),
    {
        match RunningMovingAverage::new(9) {
            Ok(r) => r,
            Err(_) => vstd::pervasive::unreached(),
        }
    }
}

} // verus!
