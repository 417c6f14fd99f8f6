//! Expander port model.
//!
//! The PCF8574 exposes eight output pins that are set all at once by a
//! single-byte bus write. On the usual LCD backpack wiring the pins carry,
//! from bit 0 upward: register select, read/write (tied low, never driven
//! high by this write-only driver), enable, backlight, and the four data
//! lines D4..D7 in the high nibble.

use vstd::prelude::*;

verus! {

/// Register-select line: 0 selects the command register, 1 the data register.
pub const RS_BIT: u8 = 0x01;

/// Read/write line. The driver is write-only, so this bit is never set.
pub const RW_BIT: u8 = 0x02;

/// Enable line; the controller latches the data lines on its falling edge.
pub const EN_BIT: u8 = 0x04;

/// Backlight drive; must be re-asserted on every expander write.
pub const BACKLIGHT_BIT: u8 = 0x08;

/// One bus transaction: the byte presented to the expander pins, together
/// with the minimum time, in microseconds, that must pass after the write
/// before the next transaction may start.
#[derive(Clone, Copy, Debug, PartialEq, Eq, Structural)]
pub struct Step {
    pub byte: u8,
    pub delay_us: u64,
}

/// The given control bit, or zero when the line is low.
pub open spec fn flag(on: bool, bit: u8) -> u8 {
    if on {
        bit
    } else {
        0
    }
}

/// The expander byte that presents `nibble` on the data lines D4..D7
/// together with the three control lines. RW is always low.
pub open spec fn ctrl_byte(nibble: u8, rs: bool, en: bool, bl: bool) -> u8 {
    (nibble << 4) | flag(rs, RS_BIT) | flag(en, EN_BIT) | flag(bl, BACKLIGHT_BIT)
}

/// The given control bit, or zero when the line is low.
pub fn line(on: bool, bit: u8) -> (b: u8)
    ensures
        b == flag(on, bit),
{
    if on {
        bit
    } else {
        0
    }
}

/// Composes the control byte for one expander write.
pub fn compose(nibble: u8, rs: bool, en: bool, bl: bool) -> (b: u8)
    requires
        nibble < 16,
    ensures
        b == ctrl_byte(nibble, rs, en, bl),
{
    (nibble << 4) | line(rs, RS_BIT) | line(en, EN_BIT) | line(bl, BACKLIGHT_BIT)
}

/// Each field of a control byte can be read back from its own bits: the
/// data lines hold exactly the nibble, and RS, EN and the backlight line
/// are independent single bits, with RW always low.
pub proof fn lemma_ctrl_byte_fields(nibble: u8, rs: bool, en: bool, bl: bool)
    requires
        nibble < 16,
    ensures
        ctrl_byte(nibble, rs, en, bl) & 0xF0 == nibble << 4,
        ctrl_byte(nibble, rs, en, bl) & RS_BIT == flag(rs, RS_BIT),
        ctrl_byte(nibble, rs, en, bl) & RW_BIT == 0,
        ctrl_byte(nibble, rs, en, bl) & EN_BIT == flag(en, EN_BIT),
        ctrl_byte(nibble, rs, en, bl) & BACKLIGHT_BIT == flag(bl, BACKLIGHT_BIT),
{
    assert(ctrl_byte(nibble, rs, en, bl) & 0xF0 == nibble << 4
        && ctrl_byte(nibble, rs, en, bl) & RS_BIT == flag(rs, RS_BIT)
        && ctrl_byte(nibble, rs, en, bl) & RW_BIT == 0
        && ctrl_byte(nibble, rs, en, bl) & EN_BIT == flag(en, EN_BIT)
        && ctrl_byte(nibble, rs, en, bl) & BACKLIGHT_BIT == flag(bl, BACKLIGHT_BIT)) by (bit_vector)
        requires
            nibble < 16,
    ;
}

/// The same transcript with the backlight bit ORed into every write and
/// every delay kept.
pub open spec fn with_backlight(steps: Seq<Step>) -> Seq<Step> {
    steps.map(|i: int, s: Step| Step { byte: s.byte | BACKLIGHT_BIT, delay_us: s.delay_us })
}

/// The backlight line changes nothing but its own bit: with the backlight
/// bit masked off, a control byte is the same whether the backlight is on
/// or off.
pub proof fn lemma_backlight_bit_isolated(nibble: u8, rs: bool, en: bool)
    requires
        nibble < 16,
    ensures
        ctrl_byte(nibble, rs, en, true) == ctrl_byte(nibble, rs, en, false) | BACKLIGHT_BIT,
        ctrl_byte(nibble, rs, en, true) & !BACKLIGHT_BIT == ctrl_byte(nibble, rs, en, false)
            & !BACKLIGHT_BIT,
{
    assert(ctrl_byte(nibble, rs, en, true) == ctrl_byte(nibble, rs, en, false) | BACKLIGHT_BIT
        && ctrl_byte(nibble, rs, en, true) & !BACKLIGHT_BIT == ctrl_byte(nibble, rs, en, false)
            & !BACKLIGHT_BIT) by (bit_vector);
}

} // verus!
