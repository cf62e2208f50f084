use vstd::prelude::*;
use crate::models::quantity::Quantity;

verus! {

/// Accumulated traded volume: seeded from one quantity, grown by
/// scale-checked addition. Overflow of the 64-bit magnitude is treated as a
/// fatal condition, never wrapped or saturated: callers must show headroom.
#[derive(Debug, Copy, Clone, PartialEq, Eq, Structural)]
pub struct Volume {
    pub num: u64,
    pub scale: u32,
}

impl Volume {
    pub fn new(quantity: Quantity) -> (r: Self)
        ensures
            r == (Volume { num: quantity.num, scale: quantity.scale }),
    {
        Self { num: quantity.num, scale: quantity.scale }
    }

    pub fn add_quantity(&mut self, quantity: &Quantity)
        requires
            old(self).scale == quantity.scale,
            old(self).num + quantity.num <= u64::MAX,
        ensures
            final(self).num == old(self).num + quantity.num,
            final(self).scale == old(self).scale,
    {
        self.num = self.num + quantity.num;
    }
}

} // verus!
