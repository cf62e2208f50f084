pub mod asset_pair;
pub mod candlestick;
pub mod interval;
pub mod order_filled;
pub mod price;
pub mod quantity;
pub mod time;
pub mod volume;
