//! Nibble transmitter.
//!
//! The controller runs in 4-bit mode: one nibble is handed over per
//! enable pulse. A transmission is three separate expander writes of the
//! same data and control lines — enable low (set-up), enable high (the
//! pulse), enable low again (the falling edge the controller latches on)
//! — each a distinct bus transaction, never a batched write.

use vstd::prelude::*;

use crate::driver::Lcd;
use crate::port::{
    compose, ctrl_byte, lemma_backlight_bit_isolated, lemma_ctrl_byte_fields, with_backlight,
    Step, BACKLIGHT_BIT,
};
use crate::timing::{ADDRESS_SETUP_US, ENABLE_PULSE_US, NIBBLE_SETTLE_US};

verus! {

/// The three expander writes that hand one nibble to the controller:
/// set-up with enable low, the enable pulse, and the falling edge,
/// followed by `settle_us` of recovery time.
pub open spec fn nibble_steps(nibble: u8, rs: bool, bl: bool, settle_us: u64) -> Seq<Step> {
    seq![
        Step { byte: ctrl_byte(nibble, rs, false, bl), delay_us: ADDRESS_SETUP_US },
        Step { byte: ctrl_byte(nibble, rs, true, bl), delay_us: ENABLE_PULSE_US },
        Step { byte: ctrl_byte(nibble, rs, false, bl), delay_us: settle_us },
    ]
}

/// Over a whole nibble transmission, the backlight state touches only
/// its own bit: the transcript with the backlight on is the transcript
/// with it off with the backlight bit ORed into each write, and with the
/// backlight off that bit is clear in each write.
pub proof fn lemma_nibble_steps_backlight(nibble: u8, rs: bool, settle_us: u64)
    requires
        nibble < 16,
    ensures
        nibble_steps(nibble, rs, true, settle_us) =~= with_backlight(
            nibble_steps(nibble, rs, false, settle_us),
        ),
        forall|i: int|
            0 <= i < nibble_steps(nibble, rs, false, settle_us).len() ==> (#[trigger] nibble_steps(
                nibble,
                rs,
                false,
                settle_us,
            )[i]).byte & BACKLIGHT_BIT == 0,
{
    lemma_backlight_bit_isolated(nibble, rs, false);
    lemma_backlight_bit_isolated(nibble, rs, true);
    lemma_ctrl_byte_fields(nibble, rs, false, false);
    lemma_ctrl_byte_fields(nibble, rs, true, false);
}

impl Lcd {
    /// Transmits one nibble with the standard recovery time.
    pub fn send_nibble(&self, nibble: u8, rs: bool) -> (steps: Vec<Step>)
        requires
            nibble < 16,
        ensures
            steps@ == nibble_steps(nibble, rs, self.backlight, NIBBLE_SETTLE_US),
    {
        self.send_nibble_settle(nibble, rs, NIBBLE_SETTLE_US)
    }

    /// Transmits one nibble, with the recovery time chosen by the caller
    /// (the reset nibbles of the initialization sequence need longer
    /// waits than the standard one).
    pub fn send_nibble_settle(&self, nibble: u8, rs: bool, settle_us: u64) -> (steps: Vec<Step>)
        requires
            nibble < 16,
        ensures
            steps@ == nibble_steps(nibble, rs, self.backlight, settle_us),
    {
        let idle = compose(nibble, rs, false, self.backlight);
        let pulsed = compose(nibble, rs, true, self.backlight);
        let mut steps: Vec<Step> = Vec::new();
        steps.push(Step { byte: idle, delay_us: ADDRESS_SETUP_US });
        steps.push(Step { byte: pulsed, delay_us: ENABLE_PULSE_US });
        steps.push(Step { byte: idle, delay_us: settle_us });
        proof {
            assert(steps@ =~= nibble_steps(nibble, rs, self.backlight, settle_us));
        }
        steps
    }
}

} // verus!
