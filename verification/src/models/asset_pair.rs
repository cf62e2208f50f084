use vstd::prelude::*;

verus! {

/// The instrument a candlestick belongs to: a base and a quote asset, each an
/// opaque tag that only needs equality and cheap copying.
#[derive(Debug, Copy, Clone, PartialEq, Eq, Structural)]
pub struct AssetPair {
    pub base: u64,
    pub quote: u64,
}

} // verus!
