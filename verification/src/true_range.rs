//! The true-range metric: the greatest of `high - low`, `|high - previous
//! close|` and `|low - previous close|`, falling back to `high - low` before
//! any close has been seen.

use crate::float_bits::{abs_bits, fabs, fmax, fsub, max_bits, sub_bits};
use crate::Bar;
use vstd::prelude::*;

verus! {

/// The true range of one observation, given the previous close (if any).
pub open spec fn spec_tr(high: u64, low: u64, prev_close: Option<u64>) -> u64 {
    match prev_close {
        None => sub_bits(high, low),
        Some(pc) => max_bits(
            max_bits(sub_bits(high, low), abs_bits(sub_bits(high, pc))),
            abs_bits(sub_bits(low, pc)),
        ),
    }
}

/// Law: the true range of the very first observation is exactly
/// `high - low`, ignoring the close entirely.
pub proof fn lemma_first_true_range(high: u64, low: u64)
    ensures
        spec_tr(high, low, None) == sub_bits(high, low),
{
}

/// Streaming true-range tracker. Remembers only the previous close.
#[derive(Clone, Copy, Debug)]
pub struct TrueRange {
    prev_close: Option<u64>,
}

impl View for TrueRange {
    type V = Option<u64>;

    closed spec fn view(&self) -> Option<u64> {
        self.prev_close
    }
}

impl TrueRange {
    /// A tracker that has seen no observation yet.
    pub fn new() -> (r: Self)
        ensures
            r@ is None,
    {
        TrueRange { prev_close: None }
    }

    /// A tracker that remembers the given previous close, so a suspended
    /// stream can resume where it left off.
    pub fn restore(prev_close: Option<u64>) -> (r: Self)
        ensures
            r@ == prev_close,
    {
        TrueRange { prev_close }
    }

    /// The remembered previous close.
    pub fn state(&self) -> (r: Option<u64>)
        ensures
            r == self@,
    {
        self.prev_close
    }

    /// Consume one observation given by its fields and return its true
    /// range; the close becomes the remembered previous close.
    pub fn next_hlc(&mut self, high: u64, low: u64, close: u64) -> (r: u64)
        ensures
            r == spec_tr(high, low, old(self)@),
            final(self)@ == Some(close),
    {
        let r = match self.prev_close {
            None => fsub(high, low),
            Some(pc) => fmax(
                fmax(fsub(high, low), fabs(fsub(high, pc))),
                fabs(fsub(low, pc)),
            ),
        };
        self.prev_close = Some(close);
        r
    }

    /// Consume a lone scalar, standing for an observation whose high, low
    /// and close all equal it.
    pub fn next(&mut self, value: u64) -> (r: u64)
        ensures
            r == spec_tr(value, value, old(self)@),
            final(self)@ == Some(value),
    {
        self.next_hlc(value, value, value)
    }

    /// Consume one bar and return its true range.
    pub fn next_bar(&mut self, bar: &Bar) -> (r: u64)
        ensures
            r == spec_tr(bar.high, bar.low, old(self)@),
            final(self)@ == Some(bar.close),
    {
        self.next_hlc(bar.high, bar.low, bar.close)
    }

    /// Forget the previous close: the next observation is treated as the
    /// first ever seen.
    pub fn reset(&mut self)
        ensures
            final(self)@ is None,
    {
        self.prev_close = None;
    }
}

} // verus!
