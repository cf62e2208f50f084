use candlesticks::{
    AssetPair, Candlestick, CandlestickData, CandlestickGenerator, CandlestickGeneratorInput,
    GeneratorStep, Interval, OrderFilled, Price, Quantity, Time, Violation, Volume,
};

const T: i64 = 1_000_000_020; // a minute boundary

fn pair() -> AssetPair {
    AssetPair { base: 7, quote: 9 }
}

fn fill(price: u64, qty: u64) -> OrderFilled {
    OrderFilled {
        asset_pair: pair(),
        price: Price { num: price, scale: 2 },
        quantity: Quantity { num: qty, scale: 3 },
    }
}

fn order(t: i64, price: u64, qty: u64) -> CandlestickGeneratorInput {
    CandlestickGeneratorInput::OrderFilled {
        open_time: Time::new(t),
        order_filled: fill(price, qty),
    }
}

fn tick(t: i64) -> CandlestickGeneratorInput {
    CandlestickGeneratorInput::Tick { open_time: Time::new(t) }
}

fn candle(t: i64, open: u64, high: u64, low: u64, close: u64, volume: u64) -> Candlestick {
    Candlestick {
        asset_pair: pair(),
        open_time: Time::new(t),
        interval: Interval::OneMinute,
        data: Some(CandlestickData {
            open: Price { num: open, scale: 2 },
            high: Price { num: high, scale: 2 },
            low: Price { num: low, scale: 2 },
            close: Price { num: close, scale: 2 },
            volume: Volume { num: volume, scale: 3 },
        }),
    }
}

fn empty_candle(t: i64) -> Candlestick {
    Candlestick {
        asset_pair: pair(),
        open_time: Time::new(t),
        interval: Interval::OneMinute,
        data: None,
    }
}

#[test]
fn two_fills_aggregate_in_place() {
    let mut generator = CandlestickGenerator::new(pair(), Interval::OneMinute);
    assert_eq!(generator.process(order(T, 10, 1)), Ok(GeneratorStep::Quiet));
    assert_eq!(generator.process(order(T, 12, 2)), Ok(GeneratorStep::Quiet));
    assert_eq!(generator.current(), Some(candle(T, 10, 12, 10, 12, 3)));
}

#[test]
fn rollover_emits_the_closed_bucket() {
    let mut generator = CandlestickGenerator::new(pair(), Interval::OneMinute);
    assert_eq!(generator.process(order(T, 10, 1)), Ok(GeneratorStep::Quiet));
    assert_eq!(generator.process(order(T, 12, 2)), Ok(GeneratorStep::Quiet));
    let step = generator.process(order(T + 60, 9, 1));
    assert_eq!(step, Ok(GeneratorStep::Emit(vec![candle(T, 10, 12, 10, 12, 3)])));
    assert_eq!(generator.current(), Some(candle(T + 60, 9, 9, 9, 9, 1)));
}

#[test]
fn gaps_are_backfilled_with_empty_buckets() {
    let mut generator = CandlestickGenerator::new(pair(), Interval::OneMinute);
    assert_eq!(generator.process(order(T, 10, 1)), Ok(GeneratorStep::Quiet));
    let step = generator.process(order(T + 180, 11, 2));
    assert_eq!(
        step,
        Ok(GeneratorStep::Emit(vec![
            candle(T, 10, 10, 10, 10, 1),
            empty_candle(T + 60),
            empty_candle(T + 120),
        ]))
    );
    assert_eq!(generator.current(), Some(candle(T + 180, 11, 11, 11, 11, 2)));
}

#[test]
fn ticks_open_and_flush_empty_buckets() {
    let mut generator = CandlestickGenerator::new(pair(), Interval::OneMinute);
    assert_eq!(generator.process(tick(T)), Ok(GeneratorStep::Quiet));
    assert_eq!(generator.current(), Some(empty_candle(T)));
    let step = generator.process(tick(T + 60));
    assert_eq!(step, Ok(GeneratorStep::Emit(vec![empty_candle(T)])));
    assert_eq!(generator.current(), Some(empty_candle(T + 60)));
}

#[test]
fn out_of_order_fill_is_fatal_before_any_output() {
    let mut generator = CandlestickGenerator::new(pair(), Interval::OneMinute);
    assert_eq!(generator.process(order(T, 10, 1)), Ok(GeneratorStep::Quiet));
    assert_eq!(
        generator.process(order(T - 60, 9, 1)),
        Err(Violation::OutOfOrderOpenTime)
    );
    // The generator itself is left as it was.
    assert_eq!(generator.current(), Some(candle(T, 10, 10, 10, 10, 1)));

    let inputs = vec![order(T, 10, 1), order(T - 60, 9, 1), order(T + 60, 9, 1)];
    let run = CandlestickGenerator::new(pair(), Interval::OneMinute).start(inputs);
    assert_eq!(run, Err(Violation::OutOfOrderOpenTime));
}

#[test]
fn stale_tick_is_fatal() {
    let mut generator = CandlestickGenerator::new(pair(), Interval::OneMinute);
    assert_eq!(generator.process(tick(T)), Ok(GeneratorStep::Quiet));
    assert_eq!(generator.process(tick(T)), Err(Violation::OutOfOrderOpenTime));
}

#[test]
fn misaligned_open_time_is_fatal() {
    let mut generator = CandlestickGenerator::new(pair(), Interval::OneMinute);
    assert_eq!(
        generator.process(tick(T + 30)),
        Err(Violation::MisalignedOpenTime)
    );
    assert_eq!(
        generator.process(order(T + 30, 10, 1)),
        Err(Violation::MisalignedOpenTime)
    );
    assert_eq!(generator.current(), None);
}

#[test]
fn foreign_instrument_is_fatal() {
    let mut generator = CandlestickGenerator::new(pair(), Interval::OneMinute);
    let stray = CandlestickGeneratorInput::OrderFilled {
        open_time: Time::new(T),
        order_filled: OrderFilled {
            asset_pair: AssetPair { base: 7, quote: 10 },
            price: Price { num: 10, scale: 2 },
            quantity: Quantity { num: 1, scale: 3 },
        },
    };
    assert_eq!(generator.process(stray), Err(Violation::AssetPairMismatch));
}

#[test]
fn mismatched_scale_is_fatal() {
    let mut generator = CandlestickGenerator::new(pair(), Interval::OneMinute);
    assert_eq!(generator.process(order(T, 10, 1)), Ok(GeneratorStep::Quiet));
    let odd_scale = CandlestickGeneratorInput::OrderFilled {
        open_time: Time::new(T),
        order_filled: OrderFilled {
            asset_pair: pair(),
            price: Price { num: 10, scale: 4 },
            quantity: Quantity { num: 1, scale: 3 },
        },
    };
    assert_eq!(generator.process(odd_scale), Err(Violation::ScaleMismatch));
}

#[test]
fn volume_overflow_is_fatal() {
    let mut generator = CandlestickGenerator::new(pair(), Interval::OneMinute);
    assert_eq!(
        generator.process(order(T, 10, u64::MAX)),
        Ok(GeneratorStep::Quiet)
    );
    assert_eq!(
        generator.process(order(T, 10, 1)),
        Err(Violation::VolumeOverflow)
    );
}

#[test]
fn far_future_open_time_is_fatal() {
    let mut generator = CandlestickGenerator::new(pair(), Interval::OneMinute);
    assert_eq!(
        generator.process(tick(4_000_000_000_060)),
        Err(Violation::TimeOutOfRange)
    );
}

#[test]
fn terminate_stops_without_flushing() {
    let mut generator = CandlestickGenerator::new(pair(), Interval::OneMinute);
    assert_eq!(generator.process(order(T, 10, 1)), Ok(GeneratorStep::Quiet));
    assert_eq!(
        generator.process(CandlestickGeneratorInput::Terminate),
        Ok(GeneratorStep::Stopped)
    );
    // The in-progress bucket stays unemitted.
    assert_eq!(generator.current(), Some(candle(T, 10, 10, 10, 10, 1)));
}

#[test]
fn a_whole_run_emits_ordered_batches() {
    let inputs = vec![
        order(T, 10, 1),
        order(T, 12, 2),
        order(T + 60, 9, 1),
        tick(T + 240),
        CandlestickGeneratorInput::Terminate,
        order(T + 300, 1, 1),
    ];
    let generator = CandlestickGenerator::new(pair(), Interval::OneMinute);
    let batches = generator.start(inputs).unwrap();
    assert_eq!(
        batches,
        vec![
            vec![candle(T, 10, 12, 10, 12, 3)],
            vec![candle(T + 60, 9, 9, 9, 9, 1)],
        ]
    );
    let mut last: Option<i64> = None;
    for batch in &batches {
        assert!(!batch.is_empty());
        for c in batch {
            assert!(last.map_or(true, |l| l < c.open_time.value()));
            last = Some(c.open_time.value());
        }
    }
}

#[test]
fn a_fresh_generator_keeps_its_configuration() {
    let generator = CandlestickGenerator::new(pair(), Interval::FourHours);
    assert_eq!(generator.asset_pair(), pair());
    assert_eq!(generator.interval(), Interval::FourHours);
    assert_eq!(generator.current(), None);
}

#[test]
fn an_immediately_terminated_run_emits_nothing() {
    let generator = CandlestickGenerator::new(pair(), Interval::OneMinute);
    let run = generator.start(vec![CandlestickGeneratorInput::Terminate, order(T, 10, 1)]);
    assert_eq!(run, Ok(vec![]));
}

#[test]
fn a_clean_run_never_fails() {
    let inputs = vec![tick(T), order(T, 10, 1), order(T + 60, 9, 2)];
    let generator = CandlestickGenerator::new(pair(), Interval::OneMinute);
    let batches = generator.start(inputs).unwrap();
    assert_eq!(batches, vec![vec![candle(T, 10, 10, 10, 10, 1)]]);
}

#[test]
fn month_buckets_roll_with_the_calendar() {
    // 2024-01-01T00:00:00 and 2024-03-01T00:00:00: the gap spans February.
    let jan: i64 = 1_704_067_200;
    let feb: i64 = jan + 31 * 86400;
    let mar: i64 = feb + 29 * 86400;
    let mut generator = CandlestickGenerator::new(pair(), Interval::OneMonth);
    let first = CandlestickGeneratorInput::OrderFilled {
        open_time: Time::new(jan),
        order_filled: fill(10, 1),
    };
    assert_eq!(generator.process(first), Ok(GeneratorStep::Quiet));
    let second = CandlestickGeneratorInput::OrderFilled {
        open_time: Time::new(mar),
        order_filled: fill(11, 1),
    };
    let step = generator.process(second);
    let expected_closed = Candlestick {
        asset_pair: pair(),
        open_time: Time::new(jan),
        interval: Interval::OneMonth,
        data: Some(CandlestickData {
            open: Price { num: 10, scale: 2 },
            high: Price { num: 10, scale: 2 },
            low: Price { num: 10, scale: 2 },
            close: Price { num: 10, scale: 2 },
            volume: Volume { num: 1, scale: 3 },
        }),
    };
    let expected_gap = Candlestick {
        asset_pair: pair(),
        open_time: Time::new(feb),
        interval: Interval::OneMonth,
        data: None,
    };
    assert_eq!(step, Ok(GeneratorStep::Emit(vec![expected_closed, expected_gap])));
}
