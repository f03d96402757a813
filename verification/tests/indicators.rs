use ta::{
    AverageTrueRange, Bar, ExponentialMovingAverage, MovingAverage, NormalizedAverageTrueRange,
    RunningMovingAverage, SimpleMovingAverage, TaError, TrueRange,
};

fn bar(high: f64, low: f64, close: f64) -> Bar {
    Bar { high: high.to_bits(), low: low.to_bits(), close: close.to_bits() }
}

fn close_bar(close: f64) -> Bar {
    bar(0.0, 0.0, close)
}

#[test]
fn running_moving_average_test_new() {
    assert!(RunningMovingAverage::new(0).is_err());
    assert!(RunningMovingAverage::new(1).is_err());
    assert!(RunningMovingAverage::new(2).is_ok());
}

#[test]
fn running_moving_average_test_next() {
    let mut rma = RunningMovingAverage::new(4).unwrap();
    assert_eq!(f64::from_bits(rma.next(4.0f64.to_bits())), 0.0);
    assert_eq!(f64::from_bits(rma.next(5.0f64.to_bits())), 0.0);
    assert_eq!(f64::from_bits(rma.next(6.0f64.to_bits())), 0.0);
    assert_eq!(f64::from_bits(rma.next(6.0f64.to_bits())), 5.25); // 21 / 4
    assert_eq!(f64::from_bits(rma.next(6.0f64.to_bits())), 5.4375); // (21 / 4 * 3 + 6) / 4
    assert_eq!(f64::from_bits(rma.next(6.0f64.to_bits())), 5.578125);
    assert_eq!(f64::from_bits(rma.next(2.0f64.to_bits())), 4.68359375);
}

#[test]
fn test_next_with_bars() {
    let mut rma = RunningMovingAverage::new(3).unwrap();
    assert_eq!(f64::from_bits(rma.next_bar(&close_bar(4.0))), 0.0);
    assert_eq!(f64::from_bits(rma.next_bar(&close_bar(4.0))), 0.0);
    assert_eq!(f64::from_bits(rma.next_bar(&close_bar(7.0))), 5.0);
    assert_eq!(f64::from_bits(rma.next_bar(&close_bar(1.0))), 11.0 / 3.0);
}

#[test]
fn running_moving_average_test_reset() {
    let mut rma = RunningMovingAverage::new(4).unwrap();
    assert_eq!(f64::from_bits(rma.next(4.0f64.to_bits())), 0.0);
    assert_eq!(f64::from_bits(rma.next(5.0f64.to_bits())), 0.0);
    assert_eq!(f64::from_bits(rma.next(6.0f64.to_bits())), 0.0);

    rma.reset();
    assert_eq!(f64::from_bits(rma.next(99.0f64.to_bits())), 0.0);
}

#[test]
fn running_moving_average_test_default() {
    RunningMovingAverage::default();
}

#[test]
fn running_moving_average_test_display() {
    let rma = RunningMovingAverage::new(5).unwrap();
    assert_eq!(rma.display(), "RMA(5)");
}

#[test]
fn average_true_range_test_new() {
    assert!(AverageTrueRange::<ExponentialMovingAverage>::new(0).is_err());
    assert!(AverageTrueRange::<ExponentialMovingAverage>::new(1).is_ok());
}

#[test]
fn average_true_range_test_next() {
    let mut atr = AverageTrueRange::<ExponentialMovingAverage>::new(3).unwrap();

    let bar1 = bar(10.0, 7.5, 9.0);
    let bar2 = bar(11.0, 9.0, 9.5);
    let bar3 = bar(9.0, 5.0, 8.0);

    assert_eq!(f64::from_bits(atr.next_bar(&bar1)), 2.5);
    assert_eq!(f64::from_bits(atr.next_bar(&bar2)), 2.25);
    assert_eq!(f64::from_bits(atr.next_bar(&bar3)), 3.375);
}

#[test]
fn average_true_range_test_reset() {
    let mut atr = AverageTrueRange::<ExponentialMovingAverage>::new(9).unwrap();

    let bar1 = bar(10.0, 7.5, 9.0);
    let bar2 = bar(11.0, 9.0, 9.5);

    atr.next_bar(&bar1);
    atr.next_bar(&bar2);

    atr.reset();
    let bar3 = bar(60.0, 15.0, 51.0);
    assert_eq!(f64::from_bits(atr.next_bar(&bar3)), 45.0);
}

#[test]
fn average_true_range_test_default() {
    AverageTrueRange::<ExponentialMovingAverage>::default();
}

#[test]
fn average_true_range_test_display() {
    let indicator = AverageTrueRange::<ExponentialMovingAverage>::new(8).unwrap();
    assert_eq!(indicator.display(), "ATR(8)");
}

#[test]
fn natr_test_new() {
    assert!(NormalizedAverageTrueRange::<SimpleMovingAverage>::new(0).is_err());
    assert!(NormalizedAverageTrueRange::<SimpleMovingAverage>::new(1).is_ok());
    assert!(NormalizedAverageTrueRange::<ExponentialMovingAverage>::new(0).is_err());
    assert!(NormalizedAverageTrueRange::<ExponentialMovingAverage>::new(1).is_ok());
    assert!(NormalizedAverageTrueRange::<RunningMovingAverage>::new(0).is_err());
    assert!(NormalizedAverageTrueRange::<RunningMovingAverage>::new(1).is_err());
    assert!(NormalizedAverageTrueRange::<RunningMovingAverage>::new(2).is_ok());
}

#[test]
fn natr_test_next() {
    let mut natr = NormalizedAverageTrueRange::<RunningMovingAverage>::new(3).unwrap();

    let bar1 = bar(10.0, 7.5, 9.0);
    let bar2 = bar(11.0, 9.0, 9.5);
    let bar3 = bar(9.0, 5.0, 8.0);

    // The running strategy warms up silently: the first two readings are 0.
    assert_eq!(f64::from_bits(natr.next_bar(&bar1)), 0.0);
    assert_eq!(f64::from_bits(natr.next_bar(&bar2)), 0.0);
    assert_eq!(f64::from_bits(natr.next_bar(&bar3)), 37.5);
}

#[test]
fn natr_test_reset() {
    let mut natr = NormalizedAverageTrueRange::<RunningMovingAverage>::new(9).unwrap();

    let bar1 = bar(10.0, 7.5, 9.0);
    let bar2 = bar(11.0, 9.0, 9.5);

    natr.next_bar(&bar1);
    natr.next_bar(&bar2);

    natr.reset();
    // A reset instance warms up silently again, like a fresh one.
    let bar3 = bar(60.0, 15.0, 51.0);
    assert_eq!(f64::from_bits(natr.next_bar(&bar3)), 0.0);
}

#[test]
fn natr_test_default() {
    NormalizedAverageTrueRange::<RunningMovingAverage>::default();
}

#[test]
fn natr_test_display() {
    let indicator = NormalizedAverageTrueRange::<RunningMovingAverage>::new(8).unwrap();
    assert_eq!(indicator.display(), "NATR(8)");
}

#[test]
fn strategy_period_validation() {
    assert!(matches!(SimpleMovingAverage::new(0), Err(TaError::InvalidParameter)));
    assert!(SimpleMovingAverage::new(1).is_ok());
    assert!(matches!(ExponentialMovingAverage::new(0), Err(TaError::InvalidParameter)));
    assert!(ExponentialMovingAverage::new(1).is_ok());
    assert!(matches!(RunningMovingAverage::new(0), Err(TaError::InvalidParameter)));
    assert!(matches!(RunningMovingAverage::new(1), Err(TaError::InvalidParameter)));
    assert!(RunningMovingAverage::new(2).is_ok());
}

#[test]
fn true_range_first_is_high_minus_low() {
    let mut tr = TrueRange::new();
    // The close plays no part in the very first observation.
    assert_eq!(f64::from_bits(tr.next_bar(&bar(10.0, 7.5, 1000.0))), 2.5);

    let mut tr2 = TrueRange::new();
    assert_eq!(f64::from_bits(tr2.next_bar(&bar(10.0, 7.5, 10.0))), 2.5);
    // Afterwards the previous close competes with the plain range.
    assert_eq!(f64::from_bits(tr2.next_bar(&bar(9.0, 5.0, 8.0))), 5.0);
}

#[test]
fn reset_replays_fresh_outputs() {
    let inputs = [4.0f64, 5.0, 6.0, 6.0, 6.0, 2.0, 7.0];

    let mut fresh = RunningMovingAverage::new(4).unwrap();
    let expected: Vec<u64> = inputs.iter().map(|v| fresh.next(v.to_bits())).collect();

    let mut reused = RunningMovingAverage::new(4).unwrap();
    for v in &inputs {
        reused.next(v.to_bits());
    }
    reused.next(42.0f64.to_bits());
    reused.reset();
    let replayed: Vec<u64> = inputs.iter().map(|v| reused.next(v.to_bits())).collect();

    assert_eq!(expected, replayed);
}

#[test]
fn natr_matches_rescaled_atr() {
    let bars = [
        bar(10.0, 7.5, 9.0),
        bar(11.0, 9.0, 9.5),
        bar(9.0, 5.0, 8.0),
        bar(12.5, 8.0, 12.0),
        bar(12.25, 11.0, 11.5),
    ];

    for period in 2..5usize {
        let mut atr = AverageTrueRange::<RunningMovingAverage>::new(period).unwrap();
        let mut natr = NormalizedAverageTrueRange::<RunningMovingAverage>::new(period).unwrap();
        for b in &bars {
            let a = f64::from_bits(atr.next_bar(b));
            let n = f64::from_bits(natr.next_bar(b));
            assert_eq!(n, a * 100.0 / f64::from_bits(b.close));
        }

        let mut atr = AverageTrueRange::<ExponentialMovingAverage>::new(period).unwrap();
        let mut natr =
            NormalizedAverageTrueRange::<ExponentialMovingAverage>::new(period).unwrap();
        for b in &bars {
            let a = f64::from_bits(atr.next_bar(b));
            let n = f64::from_bits(natr.next_bar(b));
            assert_eq!(n, a * 100.0 / f64::from_bits(b.close));
        }

        let mut atr = AverageTrueRange::<SimpleMovingAverage>::new(period).unwrap();
        let mut natr = NormalizedAverageTrueRange::<SimpleMovingAverage>::new(period).unwrap();
        for b in &bars {
            let a = f64::from_bits(atr.next_bar(b));
            let n = f64::from_bits(natr.next_bar(b));
            assert_eq!(n, a * 100.0 / f64::from_bits(b.close));
        }
    }
}

#[test]
fn sma_window_average() {
    let mut sma = SimpleMovingAverage::new(3).unwrap();
    assert_eq!(f64::from_bits(sma.next(4.0f64.to_bits())), 0.0);
    assert_eq!(f64::from_bits(sma.next(5.0f64.to_bits())), 0.0);
    assert_eq!(f64::from_bits(sma.next(6.0f64.to_bits())), 5.0);
    assert_eq!(f64::from_bits(sma.next(7.0f64.to_bits())), 6.0);
    assert_eq!(sma.display(), "SMA(3)");
}

#[test]
fn ema_first_input_initializes() {
    let mut ema = ExponentialMovingAverage::new(3).unwrap();
    assert_eq!(f64::from_bits(ema.next(2.0f64.to_bits())), 2.0);
    assert_eq!(f64::from_bits(ema.next(5.0f64.to_bits())), 3.5);
    assert_eq!(ema.display(), "EMA(3)");
}

#[test]
fn atr_scalar_tracks_absolute_change() {
    // With period 1 the exponential strategy echoes its input, so the
    // scalar ATR is the absolute change between consecutive values.
    let mut atr = AverageTrueRange::<ExponentialMovingAverage>::new(1).unwrap();
    assert_eq!(f64::from_bits(atr.next(10.0f64.to_bits())), 0.0);
    assert_eq!(f64::from_bits(atr.next(13.0f64.to_bits())), 3.0);
    assert_eq!(f64::from_bits(atr.next(11.5f64.to_bits())), 1.5);
}

#[test]
fn rma_state_round_trips() {
    let mut rma = RunningMovingAverage::new(4).unwrap();
    for v in [4.0f64, 5.0, 6.0, 6.0] {
        rma.next(v.to_bits());
    }
    let (p, c, prev, sum) = rma.state();
    let mut resumed = RunningMovingAverage::restore(p, c, prev, sum).unwrap();
    for v in [6.0f64, 6.0, 2.0] {
        assert_eq!(rma.next(v.to_bits()), resumed.next(v.to_bits()));
    }
    assert!(matches!(
        RunningMovingAverage::restore(4, 5, 0, 0),
        Err(TaError::InvalidParameter)
    ));
    assert!(RunningMovingAverage::restore(1, 0, 0, 0).is_err());
}

#[test]
fn ema_state_round_trips() {
    let mut ema = ExponentialMovingAverage::new(3).unwrap();
    ema.next(2.0f64.to_bits());
    let (p, cur) = ema.state();
    let mut resumed = ExponentialMovingAverage::restore(p, cur).unwrap();
    for v in [5.0f64, 7.0] {
        assert_eq!(ema.next(v.to_bits()), resumed.next(v.to_bits()));
    }
    assert!(matches!(
        ExponentialMovingAverage::restore(0, None),
        Err(TaError::InvalidParameter)
    ));
}

#[test]
fn sma_state_round_trips() {
    let inputs = [4.0f64, 5.0, 6.0, 7.0];
    let mut reference = SimpleMovingAverage::new(3).unwrap();
    let expected: Vec<u64> = inputs.iter().map(|v| reference.next(v.to_bits())).collect();

    let mut sma = SimpleMovingAverage::new(3).unwrap();
    sma.next(inputs[0].to_bits());
    sma.next(inputs[1].to_bits());
    let (p, w, s) = sma.into_state();
    let mut resumed = SimpleMovingAverage::restore(p, w, s).unwrap();
    assert_eq!(resumed.next(inputs[2].to_bits()), expected[2]);
    assert_eq!(resumed.next(inputs[3].to_bits()), expected[3]);

    assert!(matches!(
        SimpleMovingAverage::restore(1, vec![1, 2], 0),
        Err(TaError::InvalidParameter)
    ));
}

#[test]
fn atr_parts_round_trip() {
    let bars = [bar(10.0, 7.5, 9.0), bar(11.0, 9.0, 9.5), bar(9.0, 5.0, 8.0)];

    let mut reference = AverageTrueRange::<RunningMovingAverage>::new(2).unwrap();
    let expected: Vec<u64> = bars.iter().map(|b| reference.next_bar(b)).collect();

    let mut atr = AverageTrueRange::<RunningMovingAverage>::new(2).unwrap();
    atr.next_bar(&bars[0]);
    atr.next_bar(&bars[1]);
    let (pc, ma) = atr.into_parts();
    let mut resumed = AverageTrueRange::from_parts(pc, ma);
    assert_eq!(resumed.next_bar(&bars[2]), expected[2]);
}

#[test]
fn period_is_remembered() {
    let rma = RunningMovingAverage::new(7).unwrap();
    assert_eq!(rma.period(), 7);
    let atr = AverageTrueRange::<SimpleMovingAverage>::new(11).unwrap();
    assert_eq!(atr.period(), 11);
    let natr = NormalizedAverageTrueRange::<ExponentialMovingAverage>::new(13).unwrap();
    assert_eq!(natr.period(), 13);
    assert_eq!(natr.display(), "NATR(13)");
}
