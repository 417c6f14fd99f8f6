//! The device handle: the fixed bus address of the expander and the
//! current backlight state.
//!
//! The backlight state is part of the handle because every byte sent to
//! the expander drives all eight pins at once, so the backlight bit has to
//! be re-asserted on every transmission. It is changed only by
//! `set_backlight` and read by every operation that emits steps.

use vstd::prelude::*;

verus! {

/// Handle for one LCD behind a PCF8574 expander on the bus.
pub struct Lcd {
    /// Seven-bit bus address of the expander, fixed for the session.
    pub address: u8,
    /// Whether the backlight line is currently driven high.
    pub backlight: bool,
}

impl Lcd {
    /// Creates a handle for the expander at the given seven-bit address,
    /// with the backlight on. The initialization steps must be performed
    /// before any other operation's steps are meaningful to the
    /// controller.
    pub fn new(address: u8) -> (lcd: Lcd)
        requires
            address < 128,
        ensures
            lcd.address == address,
            lcd.backlight,
    {
        Lcd { address, backlight: true }
    }
}

} // verus!
