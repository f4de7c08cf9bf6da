use trading_engine::dispersion::Range;
use trading_engine::drawdown::{AvgDrawdown, Drawdown, MaxDrawdown, StatisticError};
use trading_engine::position::EquityPoint;
use trading_engine::ratio::Ratio;

const DAY_MS: i64 = 86_400_000;
const BASE_MS: i64 = 1_600_000_000_000;

fn day(n: i64) -> i64 {
    BASE_MS + n * DAY_MS
}

#[test]
fn drawdown_update() {
    struct TestCase {
        input_equity: EquityPoint,
        expected_drawdown: Drawdown,
    }
    // Equity in fixed-point hundredths.
    let starting_equity: u64 = 10000;

    let mut drawdown = Drawdown {
        equity_range: Range { activated: true, high: starting_equity, low: starting_equity },
        drawdown: Ratio::zero(),
        start_timestamp: BASE_MS,
        duration: 0,
    };

    let test_cases = vec![
        TestCase {
            // Test case 0: No current drawdown
            input_equity: EquityPoint { equity: 11000, timestamp_ms: day(1) },
            expected_drawdown: Drawdown {
                equity_range: Range { activated: true, high: 11000, low: 10000 },
                drawdown: Ratio::zero(),
                start_timestamp: BASE_MS,
                duration: 0,
            },
        },
        TestCase {
            // Test case 1: Start of new drawdown w/ lower equity than peak
            input_equity: EquityPoint { equity: 10000, timestamp_ms: day(2) },
            expected_drawdown: Drawdown {
                equity_range: Range { activated: true, high: 11000, low: 10000 },
                drawdown: Ratio::new(-1000, 11000),
                start_timestamp: day(2),
                duration: 0,
            },
        },
        TestCase {
            // Test case 2: Continuation of drawdown w/ lower equity than previous
            input_equity: EquityPoint { equity: 9000, timestamp_ms: day(3) },
            expected_drawdown: Drawdown {
                equity_range: Range { activated: true, high: 11000, low: 9000 },
                drawdown: Ratio::new(-2000, 11000),
                start_timestamp: day(2),
                duration: DAY_MS,
            },
        },
        TestCase {
            // Test case 3: Continuation of drawdown w/ higher equity than previous
            // but not higher than peak
            input_equity: EquityPoint { equity: 9500, timestamp_ms: day(4) },
            expected_drawdown: Drawdown {
                equity_range: Range { activated: true, high: 11000, low: 9000 },
                drawdown: Ratio::new(-2000, 11000),
                start_timestamp: day(2),
                duration: 2 * DAY_MS,
            },
        },
        TestCase {
            // Test case 4: End of drawdown w/ equity higher than peak
            input_equity: EquityPoint { equity: 12000, timestamp_ms: day(5) },
            expected_drawdown: Drawdown {
                equity_range: Range { activated: true, high: 12000, low: 9000 },
                drawdown: Ratio::zero(),
                start_timestamp: day(2),
                duration: 0,
            },
        },
        TestCase {
            // Test case 5: No current drawdown w/ residual start_timestamp from previous
            input_equity: EquityPoint { equity: 20000, timestamp_ms: day(6) },
            expected_drawdown: Drawdown {
                equity_range: Range { activated: true, high: 20000, low: 9000 },
                drawdown: Ratio::zero(),
                start_timestamp: day(2),
                duration: 0,
            },
        },
        TestCase {
            // Test case 6: Start of new drawdown w/ lower equity than peak & residual
            // fields from previous drawdown
            input_equity: EquityPoint { equity: 18000, timestamp_ms: day(7) },
            expected_drawdown: Drawdown {
                equity_range: Range { activated: true, high: 20000, low: 18000 },
                drawdown: Ratio::new(-2000, 20000),
                start_timestamp: day(7),
                duration: 0,
            },
        },
        TestCase {
            // Test case 7: Continuation of drawdown w/ equity equal to peak
            input_equity: EquityPoint { equity: 20000, timestamp_ms: day(8) },
            expected_drawdown: Drawdown {
                equity_range: Range { activated: true, high: 20000, low: 18000 },
                drawdown: Ratio::new(-2000, 20000),
                start_timestamp: day(7),
                duration: DAY_MS,
            },
        },
        TestCase {
            // Test case 8: End of drawdown w/ equity higher than peak
            input_equity: EquityPoint { equity: 20001, timestamp_ms: day(9) },
            expected_drawdown: Drawdown {
                equity_range: Range { activated: true, high: 20001, low: 18000 },
                drawdown: Ratio::zero(),
                start_timestamp: day(7),
                duration: 0,
            },
        },
    ];

    for (index, test) in test_cases.into_iter().enumerate() {
        drawdown.update(&test.input_equity);
        assert_eq!(drawdown, test.expected_drawdown, "Test case: {:?}", index)
    }
}

#[test]
fn max_drawdown_update() {
    struct TestCase {
        input_drawdown: Drawdown,
        expected_drawdown: Drawdown,
    }

    let mut max_drawdown = MaxDrawdown::init();

    let test_cases = vec![
        TestCase {
            // Test case 0: First ever drawdown
            input_drawdown: Drawdown {
                equity_range: Range { activated: true, high: 115, low: 90 },
                drawdown: Ratio::new(-25, 110),
                start_timestamp: BASE_MS,
                duration: 2 * DAY_MS,
            },
            expected_drawdown: Drawdown {
                equity_range: Range { activated: true, high: 115, low: 90 },
                drawdown: Ratio::new(-25, 110),
                start_timestamp: BASE_MS,
                duration: 2 * DAY_MS,
            },
        },
        TestCase {
            // Test case 1: Larger drawdown
            input_drawdown: Drawdown {
                equity_range: Range { activated: true, high: 200, low: 90 },
                drawdown: Ratio::new(-110, 200),
                start_timestamp: day(3),
                duration: DAY_MS,
            },
            expected_drawdown: Drawdown {
                equity_range: Range { activated: true, high: 200, low: 90 },
                drawdown: Ratio::new(-110, 200),
                start_timestamp: day(3),
                duration: DAY_MS,
            },
        },
        TestCase {
            // Test case 2: Smaller drawdown
            input_drawdown: Drawdown {
                equity_range: Range { activated: true, high: 300, low: 290 },
                drawdown: Ratio::new(-10, 300),
                start_timestamp: day(8),
                duration: DAY_MS,
            },
            expected_drawdown: Drawdown {
                equity_range: Range { activated: true, high: 200, low: 90 },
                drawdown: Ratio::new(-110, 200),
                start_timestamp: day(3),
                duration: DAY_MS,
            },
        },
        TestCase {
            // Test case 3: Largest drawdown, equity in fixed-point tenths
            input_drawdown: Drawdown {
                equity_range: Range { activated: true, high: 100000, low: 1 },
                drawdown: Ratio::new(-99999, 100000),
                start_timestamp: day(12),
                duration: 20 * DAY_MS,
            },
            expected_drawdown: Drawdown {
                equity_range: Range { activated: true, high: 100000, low: 1 },
                drawdown: Ratio::new(-99999, 100000),
                start_timestamp: day(12),
                duration: 20 * DAY_MS,
            },
        },
    ];

    for (index, test) in test_cases.into_iter().enumerate() {
        max_drawdown.update(&test.input_drawdown);
        assert_eq!(max_drawdown.drawdown, test.expected_drawdown, "Test case: {:?}", index)
    }
}

#[test]
fn avg_drawdown_update() {
    struct TestCase {
        input_drawdown: Drawdown,
        expected_avg_drawdown: AvgDrawdown,
    }

    let mut avg_drawdown = AvgDrawdown::init();

    let test_cases = vec![
        TestCase {
            // Test case 0: First ever drawdown
            input_drawdown: Drawdown {
                equity_range: Range { activated: true, high: 100, low: 50 },
                drawdown: Ratio::new(-50, 100),
                start_timestamp: BASE_MS,
                duration: 2 * DAY_MS,
            },
            expected_avg_drawdown: AvgDrawdown {
                count: 1,
                mean_drawdown: Ratio::new(-50, 100),
                mean_duration: 2 * DAY_MS,
            },
        },
        TestCase {
            // Test case 1
            input_drawdown: Drawdown {
                equity_range: Range { activated: true, high: 200, low: 100 },
                drawdown: Ratio::new(-100, 200),
                start_timestamp: BASE_MS,
                duration: 2 * DAY_MS,
            },
            expected_avg_drawdown: AvgDrawdown {
                count: 2,
                mean_drawdown: Ratio::new(-50, 100),
                mean_duration: 2 * DAY_MS,
            },
        },
        TestCase {
            // Test case 2
            input_drawdown: Drawdown {
                equity_range: Range { activated: true, high: 1000, low: 820 },
                drawdown: Ratio::new(-180, 1000),
                start_timestamp: BASE_MS,
                duration: 5 * DAY_MS,
            },
            expected_avg_drawdown: AvgDrawdown {
                count: 3,
                mean_drawdown: Ratio::new(-59, 150),
                mean_duration: 3 * DAY_MS,
            },
        },
    ];

    for (index, test) in test_cases.into_iter().enumerate() {
        avg_drawdown.update(&test.input_drawdown).unwrap();
        assert_eq!(avg_drawdown, test.expected_avg_drawdown, "Test case: {:?}", index)
    }
}

#[test]
fn drawdown_episode_lifecycle() {
    // Starting equity 100, then 110, 100, 90, 95, 120: the episode opens at
    // 100, deepens at 90, holds its value at 95 while its duration grows, and
    // closes at 120, returning the completed episode; the live state resets
    // to the new peak.
    let mut drawdown = Drawdown::init(100);
    assert!(drawdown.start_timestamp >= 0);

    assert_eq!(drawdown.update(&EquityPoint { equity: 110, timestamp_ms: day(1) }), None);
    assert_eq!(drawdown.update(&EquityPoint { equity: 100, timestamp_ms: day(2) }), None);
    assert_eq!(drawdown.drawdown, Ratio::new(-10, 110));
    assert_eq!(drawdown.update(&EquityPoint { equity: 90, timestamp_ms: day(3) }), None);
    assert_eq!(drawdown.drawdown, Ratio::new(-20, 110));
    assert_eq!(drawdown.update(&EquityPoint { equity: 95, timestamp_ms: day(4) }), None);
    assert_eq!(drawdown.drawdown, Ratio::new(-20, 110));
    assert_eq!(drawdown.duration, 2 * DAY_MS);

    let completed = drawdown.update(&EquityPoint { equity: 120, timestamp_ms: day(5) });
    assert_eq!(
        completed,
        Some(Drawdown {
            equity_range: Range { activated: true, high: 110, low: 90 },
            drawdown: Ratio::new(-20, 110),
            start_timestamp: day(2),
            duration: 2 * DAY_MS,
        })
    );
    assert_eq!(drawdown.equity_range.high, 120);
    assert_eq!(drawdown.drawdown, Ratio::zero());
    assert_eq!(drawdown.duration, 0);
}

#[test]
fn monotonic_equity_completes_no_episode() {
    // Strictly rising equity never produces a completed episode, so the
    // aggregators stay at their initial zero state.
    let mut drawdown = Drawdown::init(100);
    let mut max_drawdown = MaxDrawdown::init();
    let mut avg_drawdown = AvgDrawdown::init();
    let initial_max = max_drawdown;
    let initial_avg = avg_drawdown;

    for (i, equity) in [101u64, 150, 151, 1000, 5000].into_iter().enumerate() {
        let completed = drawdown.update(&EquityPoint {
            equity,
            timestamp_ms: day(i as i64),
        });
        assert_eq!(completed, None);
        if let Some(episode) = completed {
            max_drawdown.update(&episode);
            avg_drawdown.update(&episode).unwrap();
        }
    }
    assert_eq!(max_drawdown, initial_max);
    assert_eq!(avg_drawdown, initial_avg);
}

#[test]
fn max_drawdown_ignores_equal_resubmission() {
    let episode = Drawdown {
        equity_range: Range { activated: true, high: 200, low: 100 },
        drawdown: Ratio::new(-100, 200),
        start_timestamp: BASE_MS,
        duration: DAY_MS,
    };
    let mut max_drawdown = MaxDrawdown::init();
    max_drawdown.update(&episode);
    let stored = max_drawdown;

    // Re-submitting the same episode, a rescaled equal value, and a smaller
    // one all leave the stored maximum untouched.
    max_drawdown.update(&episode);
    assert_eq!(max_drawdown, stored);
    let rescaled = Drawdown { drawdown: Ratio::new(-500, 1000), ..episode };
    max_drawdown.update(&rescaled);
    assert_eq!(max_drawdown, stored);
    let smaller = Drawdown { drawdown: Ratio::new(-99, 200), ..episode };
    max_drawdown.update(&smaller);
    assert_eq!(max_drawdown, stored);
}

#[test]
fn avg_drawdown_overflow_reported() {
    // Force the exact mean past its machine bounds: two denominators near
    // u64::MAX make the 128-bit common denominator overflow.
    let huge = u64::MAX as u128;
    let mut avg = AvgDrawdown {
        count: 1,
        mean_drawdown: Ratio::new(-1, huge),
        mean_duration: 0,
    };
    let before = avg;
    let episode = Drawdown {
        equity_range: Range { activated: true, high: u64::MAX, low: u64::MAX - 1 },
        drawdown: Ratio::new(-1, huge - 2),
        start_timestamp: BASE_MS,
        duration: DAY_MS,
    };
    assert_eq!(avg.update(&episode), Err(StatisticError::MeanOverflow));
    assert_eq!(avg, before);

    // A saturated counter is reported too.
    let mut saturated = AvgDrawdown {
        count: u64::MAX,
        mean_drawdown: Ratio::new(-1, 2),
        mean_duration: 0,
    };
    assert_eq!(saturated.update(&episode), Err(StatisticError::MeanOverflow));
}

#[test]
fn ratio_reduces_and_compares_by_magnitude() {
    assert_eq!(Ratio::new(-2000, 11000), Ratio::new(-2, 11));
    assert_eq!(Ratio::new(0, 7), Ratio::zero());
    assert!(Ratio::new(-1, 2).abs_greater(&Ratio::new(-1, 3)));
    assert!(!Ratio::new(-50, 100).abs_greater(&Ratio::new(-1, 2)));
}
