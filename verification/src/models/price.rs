use vstd::prelude::*;

verus! {

/// A fixed-point price: `num` scaled by `scale` decimal places. Two prices
/// compare only at equal scale; one stream keeps one scale throughout.
#[derive(Debug, Copy, Clone, PartialEq, Eq, Structural)]
pub struct Price {
    pub num: u64,
    pub scale: u32,
}

} // verus!
