use vstd::prelude::*;
use crate::models::asset_pair::AssetPair;
use crate::models::interval::Interval;
use crate::models::order_filled::OrderFilled;
use crate::models::price::Price;
use crate::models::quantity::Quantity;
use crate::models::time::Time;
use crate::models::volume::Volume;

verus! {

/// The OHLCV payload of a bucket that has seen at least one fill.
#[derive(Debug, Copy, Clone, PartialEq, Eq, Structural)]
pub struct CandlestickData {
    pub open: Price,
    pub high: Price,
    pub low: Price,
    pub close: Price,
    pub volume: Volume,
}

/// The payload seeded by a bucket's first fill.
pub open spec fn seeded_data(price: Price, quantity: Quantity) -> CandlestickData {
    CandlestickData {
        open: price,
        high: price,
        low: price,
        close: price,
        volume: Volume { num: quantity.num, scale: quantity.scale },
    }
}

/// One more fill folded into an existing payload: the high and low widen to
/// the fill's price where it passes them, the close is the fill's price (the
/// last fill wins, so fills must arrive in time order), and the volume grows
/// by the quantity.
pub open spec fn data_with_fill(d: CandlestickData, price: Price, quantity: Quantity) -> CandlestickData {
    CandlestickData {
        open: d.open,
        high: if d.high.num < price.num { price } else { d.high },
        low: if price.num < d.low.num { price } else { d.low },
        close: price,
        volume: Volume { num: (d.volume.num + quantity.num) as u64, scale: d.volume.scale },
    }
}

/// What a fill leaves behind, whether or not the bucket had data yet.
pub open spec fn filled_data(d: Option<CandlestickData>, price: Price, quantity: Quantity) -> CandlestickData {
    match d {
        Some(d) => data_with_fill(d, price, quantity),
        None => seeded_data(price, quantity),
    }
}

impl CandlestickData {
    /// All four prices carry one fixed-point scale.
    pub open spec fn wf(self) -> bool {
        self.open.scale == self.high.scale
            && self.open.scale == self.low.scale
            && self.open.scale == self.close.scale
    }

    pub fn new_with_price_and_quantity(price: Price, quantity: Quantity) -> (r: Self)
        ensures
            r == seeded_data(price, quantity),
    {
        Self {
            open: price,
            high: price,
            low: price,
            close: price,
            volume: Volume::new(quantity),
        }
    }
}

/// A bucket: its identity (instrument, open time, granularity) and, once a
/// fill has arrived, its OHLCV payload. The generator owns at most one of
/// these as "current"; an emitted one is never touched again.
#[derive(Debug, Copy, Clone, PartialEq, Eq)]
pub struct Candlestick {
    pub asset_pair: AssetPair,
    pub open_time: Time,
    pub interval: Interval,
    pub data: Option<CandlestickData>,
}

impl Candlestick {
    /// Whatever payload the bucket has is internally consistent.
    pub open spec fn wf_data(self) -> bool {
        match self.data {
            Some(d) => d.wf(),
            None => true,
        }
    }

    pub fn new(asset_pair: AssetPair, open_time: Time, interval: Interval) -> (r: Self)
        ensures
            r == (Candlestick { asset_pair, open_time, interval, data: None::<CandlestickData> }),
    {
        Self { asset_pair, open_time, interval, data: None }
    }

    pub fn new_with_data(
        asset_pair: AssetPair,
        open_time: Time,
        interval: Interval,
        data: Option<CandlestickData>,
    ) -> (r: Self)
        ensures
            r == (Candlestick { asset_pair, open_time, interval, data }),
    {
        Self { asset_pair, open_time, interval, data }
    }

    /// Atomically moves the identity to a new open time with a new payload;
    /// used exactly at bucket rollover.
    pub fn reset(&mut self, open_time: Time, data: Option<CandlestickData>)
        ensures
            *final(self) == (Candlestick {
                asset_pair: old(self).asset_pair,
                open_time,
                interval: old(self).interval,
                data,
            }),
    {
        self.open_time = open_time;
        self.data = data;
    }

    /// Folds a fill into this bucket. Price comparison and volume addition
    /// demand matching scales, and volume overflow is fatal, so both are
    /// preconditions here; the generator turns their failure into a
    /// violation before calling.
    pub fn add_order_filled(&mut self, order_filled: OrderFilled)
        requires
            old(self).wf_data(),
            old(self).data matches Some(d) ==> {
                &&& d.open.scale == order_filled.price.scale
                &&& d.volume.scale == order_filled.quantity.scale
                &&& d.volume.num + order_filled.quantity.num <= u64::MAX
            },
        ensures
            *final(self) == (Candlestick {
                data: Some(filled_data(old(self).data, order_filled.price, order_filled.quantity)),
                ..*old(self)
            }),
            final(self).wf_data(),
    {
        match &mut self.data {
            Some(data) => {
                if data.high.num < order_filled.price.num {
                    data.high = order_filled.price;
                }
                if order_filled.price.num < data.low.num {
                    data.low = order_filled.price;
                }
                data.close = order_filled.price;
                data.volume.add_quantity(&order_filled.quantity);
            }
            None => {
                self.data = Some(CandlestickData::new_with_price_and_quantity(
                    order_filled.price,
                    order_filled.quantity,
                ));
            }
        }
    }
}

} // verus!
