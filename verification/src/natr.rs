//! Normalized average true range (NATR): the ATR expressed as a percentage
//! of the current close, `atr * 100 / close`.
//!
//! Division by a zero or NaN close is not guarded: the quotient propagates
//! as an ordinary IEEE-754 result.

use crate::average_true_range::{atr_output, AverageTrueRange};
use crate::float_bits::{div_bits, mul_bits, HUNDRED_BITS};
use crate::text::{period_label, spec_digits};
use crate::true_range::spec_tr;
use crate::{Bar, MovingAverage, TaError};
use vstd::prelude::*;

verus! {

/// The value a NATR over strategy state `ma` emits for one observation.
pub open spec fn natr_output<MA: MovingAverage>(
    ma: MA::Model,
    prev_close: Option<u64>,
    high: u64,
    low: u64,
    close: u64,
) -> u64 {
    div_bits(mul_bits(atr_output::<MA>(ma, prev_close, high, low), HUNDRED_BITS), close)
}

/// Law: every normalized reading equals the plain ATR reading of the same
/// observation, multiplied by 100 and divided by the close — for every
/// strategy state and every observation.
pub proof fn lemma_natr_rescales_atr<MA: MovingAverage>(
    ma: MA::Model,
    prev_close: Option<u64>,
    high: u64,
    low: u64,
    close: u64,
)
    ensures
        natr_output::<MA>(ma, prev_close, high, low, close) == div_bits(
            mul_bits(atr_output::<MA>(ma, prev_close, high, low), HUNDRED_BITS),
            close,
        ),
{
}

/// Normalized average true range over an interchangeable smoothing
/// strategy.
#[derive(Clone, Debug)]
pub struct NormalizedAverageTrueRange<MA: MovingAverage> {
    atr: AverageTrueRange<MA>,
}

impl<MA: MovingAverage> NormalizedAverageTrueRange<MA> {
    /// The remembered previous close of the inner tracker.
    pub closed spec fn tr_model(&self) -> Option<u64> {
        self.atr.tr_model()
    }

    /// The state of the inner smoothing strategy.
    pub closed spec fn ma_model(&self) -> MA::Model {
        self.atr.ma_model()
    }

    /// Build an instance with the given window size; the strategy's error
    /// propagates.
    pub fn new(period: usize) -> (r: Result<Self, TaError>)
        requires
            period < usize::MAX,
        ensures
            r is Ok <==> MA::valid_period(period),
            r is Ok ==> r->Ok_0.tr_model() is None && r->Ok_0.ma_model() == MA::initial(period),
            r is Err ==> r->Err_0 == TaError::InvalidParameter,
    {
        match AverageTrueRange::<MA>::new(period) {
            Ok(atr) => Ok(NormalizedAverageTrueRange { atr }),
            Err(e) => Err(e),
        }
    }

    /// The configured window size of the inner strategy.
    pub fn period(&self) -> (p: usize)
        ensures
            p == MA::period_of(self.ma_model()),
    {
        self.atr.period()
    }

    /// Consume a lone scalar, which also serves as the close the reading is
    /// normalized by.
    pub fn next(&mut self, value: u64) -> (r: u64)
        ensures
            r == natr_output::<MA>(
                old(self).ma_model(),
                old(self).tr_model(),
                value,
                value,
                value,
            ),
            final(self).ma_model() == MA::step(
                old(self).ma_model(),
                spec_tr(value, value, old(self).tr_model()),
            ),
            final(self).tr_model() == Some(value),
    {
        let a = self.atr.next(value);
        crate::float_bits::fdiv(crate::float_bits::fmul(a, HUNDRED_BITS), value)
    }

    /// Consume one bar; the reading is normalized by the bar's close.
    pub fn next_bar(&mut self, bar: &Bar) -> (r: u64)
        ensures
            r == natr_output::<MA>(
                old(self).ma_model(),
                old(self).tr_model(),
                bar.high,
                bar.low,
                bar.close,
            ),
            final(self).ma_model() == MA::step(
                old(self).ma_model(),
                spec_tr(bar.high, bar.low, old(self).tr_model()),
            ),
            final(self).tr_model() == Some(bar.close),
    {
        let a = self.atr.next_bar(bar);
        crate::float_bits::fdiv(crate::float_bits::fmul(a, HUNDRED_BITS), bar.close)
    }

    /// Reset the inner indicator to its just-constructed state for the same
    /// period.
    pub fn reset(&mut self)
        ensures
            final(self).tr_model() is None,
            final(self).ma_model() == MA::initial(MA::period_of(old(self).ma_model())),
    {
        self.atr.reset();
    }

    /// Split the indicator into its parts — the remembered previous close
    /// and the strategy — so composed state can be persisted.
    pub fn into_parts(self) -> (r: (Option<u64>, MA))
        ensures
            r.0 == self.tr_model(),
            r.1.model() == self.ma_model(),
    {
        self.atr.into_parts()
    }

    /// Reassemble an indicator from persisted parts, so that its future
    /// outputs are exactly those the suspended indicator would have
    /// produced.
    pub fn from_parts(prev_close: Option<u64>, ma: MA) -> (r: Self)
        ensures
            r.tr_model() == prev_close,
            r.ma_model() == ma.model(),
    {
        NormalizedAverageTrueRange { atr: AverageTrueRange::from_parts(prev_close, ma) }
    }

    /// The identity string `NATR(<period>)`.
    pub fn display(&self) -> (r: String)
        ensures
            r@ == "NATR("@ + spec_digits(MA::period_of(self.ma_model()) as nat) + seq![')'],
    {
        let p = self.atr.period();
        period_label("NATR(", p)
    }
}

impl<MA: MovingAverage> Default for NormalizedAverageTrueRange<MA> {
    /// The reference configuration: period 14.
    fn default() -> (r: Self)
        ensures
            r.tr_model() is None,
            r.ma_model() == MA::initial(14),
    {
        proof {
            MA::lemma_valid_ge_two(14);
        }
        match NormalizedAverageTrueRange::<MA>::new(14) {
            Ok(r) => r,
            Err(_) => vstd::pervasive::unreached(),
        }
    }
}

} // verus!
