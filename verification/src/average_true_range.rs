//! Average true range (ATR): a moving average of true-range values.
//!
//! The indicator composes a [`TrueRange`] tracker with any
//! [`MovingAverage`] strategy: each observation's true range is fed into the
//! strategy, whose smoothed value is returned.

use crate::text::{period_label, spec_digits};
use crate::true_range::{spec_tr, TrueRange};
use crate::{Bar, MovingAverage, TaError};
use vstd::prelude::*;

verus! {

/// The value an ATR over strategy state `ma` emits for one observation.
pub open spec fn atr_output<MA: MovingAverage>(
    ma: MA::Model,
    prev_close: Option<u64>,
    high: u64,
    low: u64,
) -> u64 {
    MA::output(ma, spec_tr(high, low, prev_close))
}

/// Average true range over an interchangeable smoothing strategy.
#[derive(Clone, Debug)]
pub struct AverageTrueRange<MA: MovingAverage> {
    true_range: TrueRange,
    ma: MA,
}

impl<MA: MovingAverage> AverageTrueRange<MA> {
    /// The remembered previous close of the inner tracker.
    pub closed spec fn tr_model(&self) -> Option<u64> {
        self.true_range@
    }

    /// The state of the inner smoothing strategy.
    pub closed spec fn ma_model(&self) -> MA::Model {
        self.ma.model()
    }

    /// Build an instance with the given window size; the single point of
    /// validation is the strategy's constructor, whose error propagates.
    pub fn new(period: usize) -> (r: Result<Self, TaError>)
        requires
            period < usize::MAX,
        ensures
            r is Ok <==> MA::valid_period(period),
            r is Ok ==> r->Ok_0.tr_model() is None && r->Ok_0.ma_model() == MA::initial(period),
            r is Err ==> r->Err_0 == TaError::InvalidParameter,
    {
        match MA::with_period(period) {
            Ok(ma) => Ok(AverageTrueRange { true_range: TrueRange::new(), ma }),
            Err(e) => Err(e),
        }
    }

    /// The configured window size of the inner strategy.
    pub fn period(&self) -> (p: usize)
        ensures
            p == MA::period_of(self.ma_model()),
    {
        self.ma.period()
    }

    /// Consume a lone scalar (an observation whose high, low and close all
    /// equal it) and return the smoothed true range.
    pub fn next(&mut self, value: u64) -> (r: u64)
        ensures
            r == atr_output::<MA>(old(self).ma_model(), old(self).tr_model(), value, value),
            final(self).ma_model() == MA::step(
                old(self).ma_model(),
                spec_tr(value, value, old(self).tr_model()),
            ),
            final(self).tr_model() == Some(value),
    {
        let tr = self.true_range.next(value);
        self.ma.next(tr)
    }

    /// Consume one bar and return the smoothed true range.
    pub fn next_bar(&mut self, bar: &Bar) -> (r: u64)
        ensures
            r == atr_output::<MA>(old(self).ma_model(), old(self).tr_model(), bar.high, bar.low),
            final(self).ma_model() == MA::step(
                old(self).ma_model(),
                spec_tr(bar.high, bar.low, old(self).tr_model()),
            ),
            final(self).tr_model() == Some(bar.close),
    {
        let tr = self.true_range.next_bar(bar);
        self.ma.next(tr)
    }

    /// Reset both the tracker and the strategy to their just-constructed
    /// state for the same period.
    pub fn reset(&mut self)
        ensures
            final(self).tr_model() is None,
            final(self).ma_model() == MA::initial(MA::period_of(old(self).ma_model())),
    {
        self.true_range.reset();
        self.ma.reset();
    }

    /// Split the indicator into its parts — the remembered previous close
    /// and the strategy — so composed state can be persisted.
    pub fn into_parts(self) -> (r: (Option<u64>, MA))
        ensures
            r.0 == self.tr_model(),
            r.1.model() == self.ma_model(),
    {
        let AverageTrueRange { true_range, ma } = self;
        (true_range.state(), ma)
    }

    /// Reassemble an indicator from persisted parts, so that its future
    /// outputs are exactly those the suspended indicator would have
    /// produced.
    pub fn from_parts(prev_close: Option<u64>, ma: MA) -> (r: Self)
        ensures
            r.tr_model() == prev_close,
            r.ma_model() == ma.model(),
    {
        AverageTrueRange { true_range: TrueRange::restore(prev_close), ma }
    }

    /// The identity string `ATR(<period>)`.
    pub fn display(&self) -> (r: String)
        ensures
            r@ == "ATR("@ + spec_digits(MA::period_of(self.ma_model()) as nat) + seq![')'],
    {
        let p = self.ma.period();
        period_label("ATR(", p)
    }
}

impl<MA: MovingAverage> Default for AverageTrueRange<MA> {
    /// The reference configuration: period 14, Wilder's canonical choice.
    fn default() -> (r: Self)
        ensures
            r.tr_model() is None,
            r.ma_model() == MA::initial(14),
    {
        proof {
            MA::lemma_valid_ge_two(14);
        }
        match AverageTrueRange::<MA>::new(14) {
            Ok(r) => r,
            Err(_) => vstd::pervasive::unreached(),
        }
    }
}

} // verus!
