pub mod input;

use vstd::prelude::*;
use crate::models::asset_pair::AssetPair;
use crate::models::candlestick::{filled_data, seeded_data, Candlestick, CandlestickData};
use crate::models::interval::{in_time_range, Interval, TIME_RANGE_LIMIT};
use crate::models::order_filled::OrderFilled;
use crate::models::time::Time;
use input::CandlestickGeneratorInput;

verus! {

/// An unrecoverable break of the engine's invariants. The stream cannot be
/// trusted past one of these: the generator's supervisor must stop it, never
/// retry locally.
#[derive(Debug, Copy, Clone, PartialEq, Eq, Structural)]
pub enum Violation {
    /// The event's open time lies outside the supported calendar range.
    TimeOutOfRange,
    /// The event's open time is no boundary of the configured interval.
    MisalignedOpenTime,
    /// A fill for some other instrument reached this generator.
    AssetPairMismatch,
    /// The event's open time runs behind the current bucket.
    OutOfOrderOpenTime,
    /// A fill's fixed-point scale differs from the current bucket's.
    ScaleMismatch,
    /// Accumulating the fill's quantity would overflow the volume.
    VolumeOverflow,
}

/// What consuming one event produced.
#[derive(Debug, Clone, PartialEq, Eq)]
pub enum GeneratorStep {
    /// Consumed with nothing to emit.
    Quiet,
    /// A finalized, never-empty batch to hand downstream, ordered by
    /// increasing open time.
    Emit(Vec<Candlestick>),
    /// A terminate event was consumed; the generator is done.
    Stopped,
}

/// Why a tick would be rejected, or nothing if it is acceptable.
pub open spec fn tick_violation(interval: Interval, current: Option<Candlestick>, open_time: Time) -> Option<Violation> {
    if !in_time_range(open_time@) {
        Some(Violation::TimeOutOfRange)
    } else if !interval.spec_is_valid_time(open_time) {
        Some(Violation::MisalignedOpenTime)
    } else if current matches Some(c) && c.open_time@ >= open_time@ {
        Some(Violation::OutOfOrderOpenTime)
    } else {
        None
    }
}

/// Why a fill would be rejected, or nothing if it is acceptable.
pub open spec fn fill_violation(
    asset_pair: AssetPair,
    interval: Interval,
    current: Option<Candlestick>,
    open_time: Time,
    order_filled: OrderFilled,
) -> Option<Violation> {
    if !in_time_range(open_time@) {
        Some(Violation::TimeOutOfRange)
    } else if !interval.spec_is_valid_time(open_time) {
        Some(Violation::MisalignedOpenTime)
    } else if order_filled.asset_pair != asset_pair {
        Some(Violation::AssetPairMismatch)
    } else {
        match current {
            None => None,
            Some(c) => {
                if open_time@ < c.open_time@ {
                    Some(Violation::OutOfOrderOpenTime)
                } else if open_time@ == c.open_time@ {
                    match c.data {
                        Some(d) => {
                            if d.open.scale != order_filled.price.scale
                                || d.volume.scale != order_filled.quantity.scale {
                                Some(Violation::ScaleMismatch)
                            } else if d.volume.num + order_filled.quantity.num > u64::MAX {
                                Some(Violation::VolumeOverflow)
                            } else {
                                None
                            }
                        }
                        None => None,
                    }
                } else {
                    None
                }
            }
        }
    }
}

/// The batch a rollover emits: the closed bucket first, then one synthetic
/// empty bucket on every boundary strictly between it and the new open time,
/// in strictly increasing order, stopping just short of the new open time.
pub open spec fn gap_batch(interval: Interval, closed: Candlestick, open_time: Time, b: Seq<Candlestick>) -> bool {
    &&& b.len() >= 1
    &&& b[0] == closed
    &&& forall|k: int|
        #![trigger b[k]]
        1 <= k < b.len() ==> {
        &&& b[k].asset_pair == closed.asset_pair
        &&& b[k].interval == interval
        &&& b[k].data is None
        &&& interval.spec_is_valid_time(b[k].open_time)
    }
    &&& forall|k: int, j: int|
        #![trigger b[k], b[j]]
        1 <= k < b.len() && j == k - 1 ==> {
        &&& b[k].open_time@ == interval.spec_next(b[j].open_time)
        &&& b[j].open_time@ < b[k].open_time@
    }
    &&& forall|k: int| 0 <= k < b.len() ==> (#[trigger] b[k]).open_time@ < open_time@
    &&& interval.spec_next(b[b.len() - 1].open_time) >= open_time@
}

/// In a chain where every bucket opens after the one before it, any earlier
/// bucket opens before any later one.
proof fn lemma_chain_increasing(b: Seq<Candlestick>, k: int, l: int)
    requires
        forall|m: int, j: int|
            #![trigger b[m], b[j]]
            1 <= m < b.len() && j == m - 1 ==> b[j].open_time@ < b[m].open_time@,
        0 <= k < l < b.len(),
    ensures
        b[k].open_time@ < b[l].open_time@,
    decreases l - k,
{
    if k + 1 < l {
        lemma_chain_increasing(b, k, l - 1);
    }
}

/// A rollover batch is strictly sorted by open time, not only from each
/// bucket to the next.
pub proof fn lemma_gap_batch_sorted(interval: Interval, closed: Candlestick, open_time: Time, b: Seq<Candlestick>)
    requires
        gap_batch(interval, closed, open_time, b),
    ensures
        forall|k: int, l: int|
            #![trigger b[k], b[l]]
            0 <= k < l < b.len() ==> b[k].open_time@ < b[l].open_time@,
{
    assert forall|k: int, l: int|
        #![trigger b[k], b[l]]
        0 <= k < l < b.len() implies b[k].open_time@ < b[l].open_time@ by {
        lemma_chain_increasing(b, k, l);
    }
}

/// The current bucket after one accepted tick or fill: a tick always opens
/// an empty bucket, a fill lands in the bucket of its open time or seeds a
/// new one there; a terminate event changes nothing.
pub open spec fn next_bucket(
    asset_pair: AssetPair,
    interval: Interval,
    current: Option<Candlestick>,
    event: CandlestickGeneratorInput,
) -> Option<Candlestick> {
    match event {
        CandlestickGeneratorInput::Terminate => current,
        CandlestickGeneratorInput::Tick { open_time } => Some(Candlestick {
            asset_pair,
            open_time,
            interval,
            data: None::<CandlestickData>,
        }),
        CandlestickGeneratorInput::OrderFilled { open_time, order_filled } => {
            match current {
                Some(c0) => {
                    if c0.open_time@ == open_time@ {
                        Some(Candlestick {
                            data: Some(filled_data(c0.data, order_filled.price, order_filled.quantity)),
                            ..c0
                        })
                    } else {
                        Some(Candlestick {
                            asset_pair,
                            open_time,
                            interval,
                            data: Some(seeded_data(order_filled.price, order_filled.quantity)),
                        })
                    }
                },
                None => Some(Candlestick {
                    asset_pair,
                    open_time,
                    interval,
                    data: Some(seeded_data(order_filled.price, order_filled.quantity)),
                }),
            }
        },
    }
}

/// The first invariant a run over `inputs` breaks, if any, begun with
/// `current` as the current bucket; a terminate event ends the run cleanly,
/// whatever follows it.
pub open spec fn run_violation(
    asset_pair: AssetPair,
    interval: Interval,
    current: Option<Candlestick>,
    inputs: Seq<CandlestickGeneratorInput>,
) -> Option<Violation>
    decreases inputs.len(),
{
    if inputs.len() == 0 {
        None
    } else {
        let stepped = next_bucket(asset_pair, interval, current, inputs[0]);
        let rest = inputs.drop_first();
        match inputs[0] {
            CandlestickGeneratorInput::Terminate => None,
            CandlestickGeneratorInput::Tick { open_time } => {
                match tick_violation(interval, current, open_time) {
                    Some(v) => Some(v),
                    None => run_violation(asset_pair, interval, stepped, rest),
                }
            },
            CandlestickGeneratorInput::OrderFilled { open_time, order_filled } => {
                match fill_violation(asset_pair, interval, current, open_time, order_filled) {
                    Some(v) => Some(v),
                    None => run_violation(asset_pair, interval, stepped, rest),
                }
            },
        }
    }
}

/// What a violation-free run over `inputs`, begun with `current` as the
/// current bucket, must emit. Each event either stops the run at a
/// terminate event or hands one batch or none to the front of `batches`
/// exactly as the transitions prescribe.
pub open spec fn run_output(
    asset_pair: AssetPair,
    interval: Interval,
    current: Option<Candlestick>,
    inputs: Seq<CandlestickGeneratorInput>,
    batches: Seq<Vec<Candlestick>>,
) -> bool
    decreases inputs.len(),
{
    if inputs.len() == 0 {
        batches.len() == 0
    } else {
        let stepped = next_bucket(asset_pair, interval, current, inputs[0]);
        let rest = inputs.drop_first();
        match inputs[0] {
            CandlestickGeneratorInput::Terminate => batches.len() == 0,
            CandlestickGeneratorInput::Tick { open_time } => {
                &&& tick_violation(interval, current, open_time) is None
                &&& match current {
                    None => run_output(asset_pair, interval, stepped, rest, batches),
                    Some(c0) => {
                        &&& batches.len() >= 1
                        &&& batches[0]@ == seq![c0]
                        &&& run_output(asset_pair, interval, stepped, rest, batches.drop_first())
                    },
                }
            },
            CandlestickGeneratorInput::OrderFilled { open_time, order_filled } => {
                &&& fill_violation(asset_pair, interval, current, open_time, order_filled) is None
                &&& match current {
                    None => run_output(asset_pair, interval, stepped, rest, batches),
                    Some(c0) => {
                        if c0.open_time@ == open_time@ {
                            run_output(asset_pair, interval, stepped, rest, batches)
                        } else {
                            &&& batches.len() >= 1
                            &&& gap_batch(interval, c0, open_time, batches[0]@)
                            &&& run_output(asset_pair, interval, stepped, rest, batches.drop_first())
                        }
                    },
                }
            },
        }
    }
}

/// The outbound contract of a whole run: every batch is non-empty, and open
/// times increase strictly, within each batch and from each batch to the
/// next.
pub open spec fn batches_ordered(batches: Seq<Vec<Candlestick>>) -> bool {
    &&& forall|i: int| 0 <= i < batches.len() ==> (#[trigger] batches[i])@.len() >= 1
    &&& forall|i: int, k: int, l: int|
        #![trigger batches[i]@[k], batches[i]@[l]]
        0 <= i < batches.len() && 0 <= k < l < batches[i]@.len()
            ==> batches[i]@[k].open_time@ < batches[i]@[l].open_time@
    &&& forall|i: int, j: int|
        #![trigger batches[i], batches[j]]
        0 <= i && j == i + 1 && j < batches.len()
            ==> batches[i]@.last().open_time@ < batches[j]@[0].open_time@
}

/// Closes `closed` and synthesizes an empty bucket on every boundary
/// strictly between it and `open_time`, in increasing order.
fn synthesize_gap(asset_pair: AssetPair, interval: Interval, closed: Candlestick, open_time: Time) -> (batch: Vec<Candlestick>)
    requires
        closed.asset_pair == asset_pair,
        interval.spec_is_valid_time(closed.open_time),
        in_time_range(closed.open_time@),
        in_time_range(open_time@),
        closed.open_time@ < open_time@,
    ensures
        gap_batch(interval, closed, open_time, batch@),
{
    let mut batch: Vec<Candlestick> = Vec::new();
    batch.push(closed);
    let mut boundary = interval.next(closed.open_time);
    while boundary.value() < open_time.value()
        invariant
            closed.asset_pair == asset_pair,
            interval.spec_is_valid_time(closed.open_time),
            in_time_range(closed.open_time@),
            in_time_range(open_time@),
            batch@.len() >= 1,
            batch@[0] == closed,
            forall|k: int|
                #![trigger batch@[k]]
                1 <= k < batch@.len() ==> {
                &&& batch@[k].asset_pair == closed.asset_pair
                &&& batch@[k].interval == interval
                &&& batch@[k].data is None
                &&& interval.spec_is_valid_time(batch@[k].open_time)
            },
            forall|k: int, j: int|
                #![trigger batch@[k], batch@[j]]
                1 <= k < batch@.len() && j == k - 1 ==> {
                &&& batch@[k].open_time@ == interval.spec_next(batch@[j].open_time)
                &&& batch@[j].open_time@ < batch@[k].open_time@
            },
            forall|k: int| 0 <= k < batch@.len() ==> (#[trigger] batch@[k]).open_time@ < open_time@,
            boundary@ == interval.spec_next(batch@[batch@.len() - 1].open_time),
            interval.spec_is_valid_time(boundary),
            batch@[batch@.len() - 1].open_time@ < boundary@,
            closed.open_time@ < boundary@,
        decreases open_time@ - batch@[batch@.len() - 1].open_time@,
    {
        batch.push(Candlestick::new(asset_pair, boundary, interval));
        boundary = interval.next(boundary);
    }
    batch
}

/// The aggregation engine for one instrument pair at one granularity. It
/// owns at most one current bucket; everything it ever emitted is fixed.
pub struct CandlestickGenerator {
    asset_pair: AssetPair,
    interval: Interval,
    current: Option<Candlestick>,
}

impl CandlestickGenerator {
    /// The current bucket, if any, belongs to this generator's instrument
    /// and granularity, sits on a boundary inside the supported range, and
    /// carries a consistent payload.
    #[verifier::type_invariant]
    spec fn wf(self) -> bool {
        match self.current {
            Some(c) => {
                &&& c.asset_pair == self.asset_pair
                &&& c.interval == self.interval
                &&& self.interval.spec_is_valid_time(c.open_time)
                &&& in_time_range(c.open_time@)
                &&& c.wf_data()
            }
            None => true,
        }
    }

    pub closed spec fn spec_asset_pair(self) -> AssetPair {
        self.asset_pair
    }

    pub closed spec fn spec_interval(self) -> Interval {
        self.interval
    }

    pub closed spec fn spec_current(self) -> Option<Candlestick> {
        self.current
    }

    pub fn new(asset_pair: AssetPair, interval: Interval) -> (r: Self)
        ensures
            r.spec_asset_pair() == asset_pair,
            r.spec_interval() == interval,
            r.spec_current() is None,
    {
        Self { asset_pair, interval, current: None }
    }

    pub fn asset_pair(&self) -> (r: AssetPair)
        ensures
            r == self.spec_asset_pair(),
    {
        self.asset_pair
    }

    pub fn interval(&self) -> (r: Interval)
        ensures
            r == self.spec_interval(),
    {
        self.interval
    }

    pub fn current(&self) -> (r: Option<Candlestick>)
        ensures
            r == self.spec_current(),
    {
        self.current
    }

    /// Consumes one event and says what it produced, or which invariant it
    /// broke; a broken one leaves the generator untouched, and the caller
    /// must stop feeding it.
    pub fn process(&mut self, event: CandlestickGeneratorInput) -> (r: Result<GeneratorStep, Violation>)
        ensures
            final(self).spec_asset_pair() == old(self).spec_asset_pair(),
            final(self).spec_interval() == old(self).spec_interval(),
            match event {
                CandlestickGeneratorInput::Terminate => {
                    &&& r == Ok::<GeneratorStep, Violation>(GeneratorStep::Stopped)
                    &&& *final(self) == *old(self)
                },
                CandlestickGeneratorInput::Tick { open_time } => {
                    match tick_violation(old(self).spec_interval(), old(self).spec_current(), open_time) {
                        Some(v) => r == Err::<GeneratorStep, Violation>(v) && *final(self) == *old(self),
                        None => {
                            &&& final(self).spec_current() == Some(Candlestick {
                                asset_pair: old(self).spec_asset_pair(),
                                open_time,
                                interval: old(self).spec_interval(),
                                data: None::<CandlestickData>,
                            })
                            &&& match old(self).spec_current() {
                                None => r == Ok::<GeneratorStep, Violation>(GeneratorStep::Quiet),
                                Some(c0) => r matches Ok(step) && step matches GeneratorStep::Emit(batch)
                                    && batch@ =~= seq![c0],
                            }
                        },
                    }
                },
                CandlestickGeneratorInput::OrderFilled { open_time, order_filled } => {
                    match fill_violation(
                        old(self).spec_asset_pair(),
                        old(self).spec_interval(),
                        old(self).spec_current(),
                        open_time,
                        order_filled,
                    ) {
                        Some(v) => r == Err::<GeneratorStep, Violation>(v) && *final(self) == *old(self),
                        None => match old(self).spec_current() {
                            None => {
                                &&& r == Ok::<GeneratorStep, Violation>(GeneratorStep::Quiet)
                                &&& final(self).spec_current() == Some(Candlestick {
                                    asset_pair: old(self).spec_asset_pair(),
                                    open_time,
                                    interval: old(self).spec_interval(),
                                    data: Some(seeded_data(order_filled.price, order_filled.quantity)),
                                })
                            },
                            Some(c0) => {
                                if c0.open_time@ == open_time@ {
                                    &&& r == Ok::<GeneratorStep, Violation>(GeneratorStep::Quiet)
                                    &&& final(self).spec_current() == Some(Candlestick {
                                        data: Some(filled_data(c0.data, order_filled.price, order_filled.quantity)),
                                        ..c0
                                    })
                                } else {
                                    &&& final(self).spec_current() == Some(Candlestick {
                                        asset_pair: old(self).spec_asset_pair(),
                                        open_time,
                                        interval: old(self).spec_interval(),
                                        data: Some(seeded_data(order_filled.price, order_filled.quantity)),
                                    })
                                    &&& r matches Ok(step) && step matches GeneratorStep::Emit(batch)
                                        && gap_batch(old(self).spec_interval(), c0, open_time, batch@)
                                }
                            },
                        },
                    }
                },
            },
    {
        match event {
            CandlestickGeneratorInput::Terminate => Ok(GeneratorStep::Stopped),
            CandlestickGeneratorInput::Tick { open_time } => self.handle_tick(open_time),
            CandlestickGeneratorInput::OrderFilled { open_time, order_filled } => {
                self.handle_fill(open_time, order_filled)
            }
        }
    }

    /// Runs the generator over a whole inbound sequence, collecting every
    /// emitted batch, stopping at a terminate event or at the end. A
    /// violation-free stream always comes back `Ok`; the first violation
    /// stops the run with exactly that error and nothing further produced.
    /// Whatever comes back is ordered: batches are never empty, and open
    /// times rise strictly within and across them, all for this generator's
    /// instrument and granularity.
    pub fn start(self, inputs: Vec<CandlestickGeneratorInput>) -> (r: Result<Vec<Vec<Candlestick>>, Violation>)
        ensures
            match run_violation(
                self.spec_asset_pair(),
                self.spec_interval(),
                self.spec_current(),
                inputs@,
            ) {
                Some(v) => r == Err::<Vec<Vec<Candlestick>>, Violation>(v),
                None => r matches Ok(batches) && {
                    &&& run_output(
                        self.spec_asset_pair(),
                        self.spec_interval(),
                        self.spec_current(),
                        inputs@,
                        batches@,
                    )
                    &&& batches_ordered(batches@)
                    &&& forall|i: int, k: int|
                        #![trigger batches@[i]@[k]]
                        0 <= i < batches@.len() && 0 <= k < batches@[i]@.len() ==> {
                            &&& batches@[i]@[k].asset_pair == self.spec_asset_pair()
                            &&& batches@[i]@[k].interval == self.spec_interval()
                        }
                },
            },
    {
        let ghost pair = self.spec_asset_pair();
        let ghost granularity = self.spec_interval();
        let ghost first_bucket = self.spec_current();
        let mut generator = self;
        let mut out: Vec<Vec<Candlestick>> = Vec::new();
        let mut i: usize = 0;
        proof {
            assert(inputs@.skip(0) =~= inputs@);
        }
        while i < inputs.len()
            invariant
                i <= inputs@.len(),
                pair == self.spec_asset_pair(),
                granularity == self.spec_interval(),
                first_bucket == self.spec_current(),
                generator.spec_asset_pair() == pair,
                generator.spec_interval() == granularity,
                batches_ordered(out@),
                out@.len() > 0 ==> (generator.spec_current() matches Some(c)
                    && out@.last()@.last().open_time@ < c.open_time@),
                forall|j: int, k: int|
                    #![trigger out@[j]@[k]]
                    0 <= j < out@.len() && 0 <= k < out@[j]@.len() ==> {
                        &&& out@[j]@[k].asset_pair == pair
                        &&& out@[j]@[k].interval == granularity
                    },
                run_violation(pair, granularity, first_bucket, inputs@)
                    == run_violation(pair, granularity, generator.spec_current(), inputs@.skip(i as int)),
                forall|rest: Seq<Vec<Candlestick>>|
                    run_output(pair, granularity, generator.spec_current(), inputs@.skip(i as int), rest)
                        ==> #[trigger] run_output(pair, granularity, first_bucket, inputs@, out@ + rest),
            decreases inputs@.len() - i,
        {
            proof {
                use_type_invariant(&generator);
            }
            let event = inputs[i];
            let ghost pre = generator;
            let ghost consumed = inputs@.skip(i as int);
            proof {
                assert(consumed[0] == inputs@[i as int]);
                assert(consumed.drop_first() =~= inputs@.skip(i as int + 1));
            }
            match generator.process(event) {
                Ok(GeneratorStep::Quiet) => {
                    proof {
                        assert(run_violation(pair, granularity, pre.spec_current(), consumed)
                            == run_violation(pair, granularity, generator.spec_current(), inputs@.skip(i as int + 1)));
                        assert forall|rest: Seq<Vec<Candlestick>>|
                            run_output(pair, granularity, generator.spec_current(), inputs@.skip(i as int + 1), rest)
                                implies #[trigger] run_output(pair, granularity, first_bucket, inputs@, out@ + rest) by {
                            assert(run_output(pair, granularity, pre.spec_current(), consumed, rest));
                        }
                    }
                }
                Ok(GeneratorStep::Emit(batch)) => {
                    proof {
                        if let CandlestickGeneratorInput::OrderFilled { open_time, order_filled } = event {
                            if let Some(c0) = pre.spec_current() {
                                if c0.open_time@ != open_time@ {
                                    lemma_gap_batch_sorted(granularity, c0, open_time, batch@);
                                }
                            }
                        }
                        assert(run_violation(pair, granularity, pre.spec_current(), consumed)
                            == run_violation(pair, granularity, generator.spec_current(), inputs@.skip(i as int + 1)));
                        assert forall|rest: Seq<Vec<Candlestick>>|
                            run_output(pair, granularity, generator.spec_current(), inputs@.skip(i as int + 1), rest)
                                implies #[trigger] run_output(pair, granularity, first_bucket, inputs@, out@.push(batch) + rest) by {
                            let with_batch = seq![batch] + rest;
                            assert(with_batch.drop_first() =~= rest);
                            assert(run_output(pair, granularity, pre.spec_current(), consumed, with_batch));
                            assert(out@ + with_batch =~= out@.push(batch) + rest);
                        }
                    }
                    out.push(batch);
                }
                Ok(GeneratorStep::Stopped) => {
                    proof {
                        let empty = Seq::<Vec<Candlestick>>::empty();
                        assert(run_violation(pair, granularity, generator.spec_current(), consumed) is None);
                        assert(run_output(pair, granularity, generator.spec_current(), consumed, empty));
                        assert(out@ + empty =~= out@);
                    }
                    return Ok(out);
                }
                Err(v) => {
                    proof {
                        assert(run_violation(pair, granularity, generator.spec_current(), consumed) == Some(v));
                    }
                    return Err(v);
                }
            }
            i = i + 1;
        }
        proof {
            let empty = Seq::<Vec<Candlestick>>::empty();
            assert(inputs@.skip(i as int) =~= Seq::<CandlestickGeneratorInput>::empty());
            assert(run_violation(pair, granularity, generator.spec_current(), inputs@.skip(i as int)) is None);
            assert(run_output(pair, granularity, generator.spec_current(), inputs@.skip(i as int), empty));
            assert(out@ + empty =~= out@);
        }
        Ok(out)
    }

    fn handle_tick(&mut self, open_time: Time) -> (r: Result<GeneratorStep, Violation>)
        ensures
            final(self).asset_pair == old(self).asset_pair,
            final(self).interval == old(self).interval,
            match tick_violation(old(self).interval, old(self).current, open_time) {
                Some(v) => r == Err::<GeneratorStep, Violation>(v) && *final(self) == *old(self),
                None => {
                    &&& final(self).current == Some(Candlestick {
                        asset_pair: old(self).asset_pair,
                        open_time,
                        interval: old(self).interval,
                        data: None::<CandlestickData>,
                    })
                    &&& match old(self).current {
                        None => r == Ok::<GeneratorStep, Violation>(GeneratorStep::Quiet),
                        Some(c0) => r matches Ok(step) && step matches GeneratorStep::Emit(batch)
                            && batch@ =~= seq![c0],
                    }
                },
            },
    {
        proof {
            use_type_invariant(&*self);
        }
        let t = open_time.value();
        if t < -TIME_RANGE_LIMIT || t > TIME_RANGE_LIMIT {
            return Err(Violation::TimeOutOfRange);
        }
        if !self.interval.is_valid_time(&open_time) {
            return Err(Violation::MisalignedOpenTime);
        }
        match self.current {
            None => {
                self.current = Some(Candlestick::new(self.asset_pair, open_time, self.interval));
                Ok(GeneratorStep::Quiet)
            }
            Some(c) => {
                if c.open_time.value() >= open_time.value() {
                    return Err(Violation::OutOfOrderOpenTime);
                }
                let mut batch: Vec<Candlestick> = Vec::new();
                batch.push(c);
                self.current = Some(Candlestick::new(self.asset_pair, open_time, self.interval));
                proof {
                    assert(batch@ =~= seq![c]);
                }
                Ok(GeneratorStep::Emit(batch))
            }
        }
    }

    #[verifier::rlimit(100)]
    fn handle_fill(&mut self, open_time: Time, order_filled: OrderFilled) -> (r: Result<GeneratorStep, Violation>)
        ensures
            final(self).asset_pair == old(self).asset_pair,
            final(self).interval == old(self).interval,
            match fill_violation(
                old(self).asset_pair,
                old(self).interval,
                old(self).current,
                open_time,
                order_filled,
            ) {
                Some(v) => r == Err::<GeneratorStep, Violation>(v) && *final(self) == *old(self),
                None => match old(self).current {
                    None => {
                        &&& r == Ok::<GeneratorStep, Violation>(GeneratorStep::Quiet)
                        &&& final(self).current == Some(Candlestick {
                            asset_pair: old(self).asset_pair,
                            open_time,
                            interval: old(self).interval,
                            data: Some(seeded_data(order_filled.price, order_filled.quantity)),
                        })
                    },
                    Some(c0) => {
                        if c0.open_time@ == open_time@ {
                            &&& r == Ok::<GeneratorStep, Violation>(GeneratorStep::Quiet)
                            &&& final(self).current == Some(Candlestick {
                                data: Some(filled_data(c0.data, order_filled.price, order_filled.quantity)),
                                ..c0
                            })
                        } else {
                            &&& final(self).current == Some(Candlestick {
                                asset_pair: old(self).asset_pair,
                                open_time,
                                interval: old(self).interval,
                                data: Some(seeded_data(order_filled.price, order_filled.quantity)),
                            })
                            &&& r matches Ok(step) && step matches GeneratorStep::Emit(batch)
                                && gap_batch(old(self).interval, c0, open_time, batch@)
                        }
                    },
                },
            },
    {
        proof {
            use_type_invariant(&*self);
        }
        let t = open_time.value();
        if t < -TIME_RANGE_LIMIT || t > TIME_RANGE_LIMIT {
            return Err(Violation::TimeOutOfRange);
        }
        if !self.interval.is_valid_time(&open_time) {
            return Err(Violation::MisalignedOpenTime);
        }
        if !(order_filled.asset_pair == self.asset_pair) {
            return Err(Violation::AssetPairMismatch);
        }
        match self.current {
            None => {
                self.current = Some(Candlestick::new_with_data(
                    self.asset_pair,
                    open_time,
                    self.interval,
                    Some(CandlestickData::new_with_price_and_quantity(
                        order_filled.price,
                        order_filled.quantity,
                    )),
                ));
                Ok(GeneratorStep::Quiet)
            }
            Some(c) => {
                if open_time.value() < c.open_time.value() {
                    Err(Violation::OutOfOrderOpenTime)
                } else if open_time.value() == c.open_time.value() {
                    match c.data {
                        Some(d) => {
                            if d.open.scale != order_filled.price.scale
                                || d.volume.scale != order_filled.quantity.scale {
                                return Err(Violation::ScaleMismatch);
                            }
                            if d.volume.num > u64::MAX - order_filled.quantity.num {
                                return Err(Violation::VolumeOverflow);
                            }
                        }
                        None => {}
                    }
                    let mut updated = c;
                    updated.add_order_filled(order_filled);
                    self.current = Some(updated);
                    Ok(GeneratorStep::Quiet)
                } else {
                    let batch = synthesize_gap(self.asset_pair, self.interval, c, open_time);
                    self.current = Some(Candlestick::new_with_data(
                        self.asset_pair,
                        open_time,
                        self.interval,
                        Some(CandlestickData::new_with_price_and_quantity(
                            order_filled.price,
                            order_filled.quantity,
                        )),
                    ));
                    Ok(GeneratorStep::Emit(batch))
                }
            }
        }
    }
}

} // verus!
