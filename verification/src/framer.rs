//! Command/data framer.
//!
//! A full 8-bit command or character is carried as two nibble
//! transmissions, high nibble first, with the register-select line held
//! at the same level for both halves: the controller pairs the two
//! transfers internally, and a register-select change between them would
//! corrupt the byte. The recovery time after the second nibble doubles as
//! the command's execution time.

use vstd::prelude::*;

use crate::driver::Lcd;
use crate::port::{ctrl_byte, flag, with_backlight, Step, BACKLIGHT_BIT, RS_BIT};
use crate::timing::{COMMAND_EXEC_US, NIBBLE_SETTLE_US};
use crate::transmit::{lemma_nibble_steps_backlight, nibble_steps};

verus! {

/// The six expander writes that carry one full byte: the high nibble with
/// the standard recovery time, then the low nibble, whose recovery time
/// `exec_us` covers the command's execution.
pub open spec fn byte_steps(value: u8, rs: bool, bl: bool, exec_us: u64) -> Seq<Step> {
    nibble_steps(value >> 4, rs, bl, NIBBLE_SETTLE_US) + nibble_steps(
        value & 0x0F,
        rs,
        bl,
        exec_us,
    )
}

impl Lcd {
    /// Sends one full byte, as a command (`is_data` false) or as
    /// character data (`is_data` true), with the standard execution time.
    /// The two slow commands, clear display and return home, must go
    /// through `send_byte_timed` with the longer wait instead.
    pub fn send_byte(&self, value: u8, is_data: bool) -> (steps: Vec<Step>)
        ensures
            steps@ == byte_steps(value, is_data, self.backlight, COMMAND_EXEC_US),
    {
        self.send_byte_timed(value, is_data, COMMAND_EXEC_US)
    }

    /// Sends one full byte, with the execution wait chosen by the caller.
    pub fn send_byte_timed(&self, value: u8, is_data: bool, exec_us: u64) -> (steps: Vec<Step>)
        ensures
            steps@ == byte_steps(value, is_data, self.backlight, exec_us),
    {
        proof {
            assert(value >> 4 < 16 && value & 0x0F < 16) by (bit_vector);
        }
        let mut steps = self.send_nibble_settle(value >> 4, is_data, NIBBLE_SETTLE_US);
        let mut low = self.send_nibble_settle(value & 0x0F, is_data, exec_us);
        steps.append(&mut low);
        steps
    }
}

/// Over a whole framed byte, the backlight state touches only its own
/// bit of each write: the transcript with the backlight on is the
/// transcript with it off with the backlight bit ORed into each write,
/// and with the backlight off that bit is clear in each write. Register
/// select, enable, and the data lines are the same either way.
pub proof fn lemma_byte_steps_backlight(value: u8, rs: bool, exec_us: u64)
    ensures
        byte_steps(value, rs, true, exec_us) =~= with_backlight(
            byte_steps(value, rs, false, exec_us),
        ),
        forall|i: int|
            0 <= i < byte_steps(value, rs, false, exec_us).len() ==> (#[trigger] byte_steps(
                value,
                rs,
                false,
                exec_us,
            )[i]).byte & BACKLIGHT_BIT == 0,
{
    assert(value >> 4 < 16 && value & 0x0F < 16) by (bit_vector);
    lemma_nibble_steps_backlight(value >> 4, rs, NIBBLE_SETTLE_US);
    lemma_nibble_steps_backlight(value & 0x0F, rs, exec_us);
}

/// A framed byte is exactly two nibble transmissions, high half then low
/// half, with the same register select on both; spelled out over the raw
/// masks, the data lines of the first carry `value & 0xF0` and those of
/// the second `(value << 4) & 0xF0`, each write ORed with the same
/// register-select and backlight flags.
pub proof fn lemma_byte_steps_pattern(value: u8, rs: bool, bl: bool, exec_us: u64)
    ensures
        byte_steps(value, rs, bl, exec_us) == nibble_steps(value >> 4, rs, bl, NIBBLE_SETTLE_US)
            + nibble_steps(value & 0x0F, rs, bl, exec_us),
        byte_steps(value, rs, bl, exec_us).len() == 6,
        byte_steps(value, rs, bl, exec_us)[0].byte == (value & 0xF0) | flag(rs, RS_BIT) | flag(
            bl,
            BACKLIGHT_BIT,
        ),
        byte_steps(value, rs, bl, exec_us)[3].byte == ((value << 4) & 0xF0) | flag(rs, RS_BIT)
            | flag(bl, BACKLIGHT_BIT),
{
    assert(((value >> 4) << 4) | flag(rs, RS_BIT) | flag(false, 0x04) | flag(bl, BACKLIGHT_BIT) == (
    value & 0xF0) | flag(rs, RS_BIT) | flag(bl, BACKLIGHT_BIT)) by (bit_vector);
    assert(((value & 0x0F) << 4) | flag(rs, RS_BIT) | flag(false, 0x04) | flag(bl, BACKLIGHT_BIT)
        == ((value << 4) & 0xF0) | flag(rs, RS_BIT) | flag(bl, BACKLIGHT_BIT)) by (bit_vector);
}

} // verus!
