//! Fixed-interval OHLCV aggregation for one instrument at one granularity:
//! calendar-aware interval arithmetic, fixed-point quantity and volume
//! accumulation, and the bucket-rollover state machine that turns an ordered
//! stream of fills and heartbeats into batches of finalized candlesticks.

mod error;
mod generator;
mod models;

pub use error::Error;
pub use generator::input::CandlestickGeneratorInput;
pub use generator::CandlestickGenerator;
pub use generator::GeneratorStep;
pub use generator::Violation;
pub use generator::batches_ordered;
pub use generator::fill_violation;
pub use generator::gap_batch;
pub use generator::lemma_gap_batch_sorted;
pub use generator::next_bucket;
pub use generator::run_output;
pub use generator::run_violation;
pub use generator::tick_violation;
pub use models::asset_pair::AssetPair;
pub use models::candlestick::filled_data;
pub use models::candlestick::seeded_data;
pub use models::candlestick::Candlestick;
pub use models::candlestick::CandlestickData;
pub use models::interval::in_time_range;
pub use models::interval::lemma_code_round_trip;
pub use models::interval::month_boundary;
pub use models::interval::month_rollover;
pub use models::interval::Interval;
pub use models::interval::TIME_RANGE_LIMIT;
pub use models::order_filled::OrderFilled;
pub use models::price::Price;
pub use models::quantity::Quantity;
pub use models::time::Duration;
pub use models::time::Time;
pub use models::volume::Volume;
