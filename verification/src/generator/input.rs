use vstd::prelude::*;
use crate::models::order_filled::OrderFilled;
use crate::models::time::Time;

verus! {

/// One inbound event. The caller guarantees open times arrive in
/// non-decreasing order, already aligned to the generator's interval.
#[derive(Debug, Copy, Clone, PartialEq, Eq)]
pub enum CandlestickGeneratorInput {
    /// A heartbeat naming a boundary with no trade: drives the live flush of
    /// an empty bar.
    Tick { open_time: Time },
    /// A filled order tagged with the open time of the bucket it belongs to;
    /// serves live and archive streams alike.
    OrderFilled { open_time: Time, order_filled: OrderFilled },
    /// Stop consuming; nothing further is emitted, the in-progress bucket is
    /// not flushed.
    Terminate,
}

} // verus!
