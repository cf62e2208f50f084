use vstd::prelude::*;

verus! {

/// An immutable fixed-point trade quantity: `num` scaled by `scale` decimal
/// places. Quantities compare and accumulate only at equal scale.
#[derive(Debug, Copy, Clone, PartialEq, Eq, Structural)]
pub struct Quantity {
    pub num: u64,
    pub scale: u32,
}

} // verus!
