use vstd::prelude::*;
use crate::models::asset_pair::AssetPair;
use crate::models::price::Price;
use crate::models::quantity::Quantity;

verus! {

/// An executed trade: the instrument, the price it traded at and how much.
/// The bucket it belongs to is named by the event that carries it.
#[derive(Debug, Copy, Clone, PartialEq, Eq, Structural)]
pub struct OrderFilled {
    pub asset_pair: AssetPair,
    pub price: Price,
    pub quantity: Quantity,
}

} // verus!
