//! The fixed hardware wiring: which physical pin serves which role.
use vstd::prelude::*;

verus! {

/// Physical pin index of each role.
#[derive(Clone, Copy, Debug, PartialEq, Eq, Structural)]
pub struct Wiring {
    pub reset: u8,
    pub backlight: u8,
    pub dc: u8,
    pub sclk: u8,
    pub sdo: u8,
}

/// No two roles share a pin.
pub open spec fn roles_distinct(w: Wiring) -> bool {
    &&& w.reset != w.backlight
    &&& w.reset != w.dc
    &&& w.reset != w.sclk
    &&& w.reset != w.sdo
    &&& w.backlight != w.dc
    &&& w.backlight != w.sclk
    &&& w.backlight != w.sdo
    &&& w.dc != w.sclk
    &&& w.dc != w.sdo
    &&& w.sclk != w.sdo
}

/// The board's wiring: reset on 0, data/command select on 1, bus clock on 2,
/// bus data-out on 4, backlight on 10.
pub open spec fn board_wiring() -> Wiring {
    Wiring { reset: 0, backlight: 10, dc: 1, sclk: 2, sdo: 4 }
}

impl Wiring {
    /// The board's wiring.
    pub fn board() -> (w: Wiring)
        ensures
            w == board_wiring(),
    {
        Wiring { reset: 0, backlight: 10, dc: 1, sclk: 2, sdo: 4 }
    }

    /// Whether every role has a pin of its own.
    pub fn is_injective(&self) -> (r: bool)
        ensures
            r == roles_distinct(*self),
    {
        self.reset != self.backlight && self.reset != self.dc && self.reset != self.sclk
            && self.reset != self.sdo && self.backlight != self.dc && self.backlight
            != self.sclk && self.backlight != self.sdo && self.dc != self.sclk && self.dc
            != self.sdo && self.sclk != self.sdo
    }
}

/// The board's wiring gives every role its own pin.
pub proof fn board_wiring_is_injective()
    ensures
        roles_distinct(board_wiring()),
{
}

} // verus!
