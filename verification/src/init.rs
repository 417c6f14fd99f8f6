//! Initialization sequencer.
//!
//! A linear state machine with no read-back: from power-on or any unknown
//! interface state, three reset nibbles of 0x3 force the controller into
//! 8-bit mode, one nibble of 0x2 then switches it to 4-bit mode, and only
//! from there on do full two-nibble command bytes configure the function,
//! display control, a cleared screen, and the entry mode. Every step is
//! gated by its prescribed wait, and the sequence assumes the power-on
//! settle time has already passed before its first write.

use vstd::prelude::*;

use crate::commands::{
    CMD_CLEAR, CMD_DISPLAY_ON, CMD_ENTRY_MODE_INCREMENT, CMD_FUNCTION_SET_4BIT_2LINE,
};
use crate::driver::Lcd;
use crate::framer::byte_steps;
use crate::port::Step;
use crate::timing::{CLEAR_HOME_EXEC_US, COMMAND_EXEC_US, RESET_FIRST_US, RESET_SETTLE_US};
use crate::transmit::nibble_steps;

verus! {

/// The full initialization transcript: three reset nibbles, the 4-bit
/// mode-set nibble, then the function-set, display-control, clear and
/// entry-mode command bytes, in exactly this order, with the clear
/// command followed by its long execution wait.
pub open spec fn init_steps(bl: bool) -> Seq<Step> {
    nibble_steps(0x3, false, bl, RESET_FIRST_US) + nibble_steps(0x3, false, bl, RESET_SETTLE_US)
        + nibble_steps(0x3, false, bl, RESET_SETTLE_US) + nibble_steps(
        0x2,
        false,
        bl,
        RESET_SETTLE_US,
    ) + byte_steps(CMD_FUNCTION_SET_4BIT_2LINE, false, bl, COMMAND_EXEC_US) + byte_steps(
        CMD_DISPLAY_ON,
        false,
        bl,
        COMMAND_EXEC_US,
    ) + byte_steps(CMD_CLEAR, false, bl, CLEAR_HOME_EXEC_US) + byte_steps(
        CMD_ENTRY_MODE_INCREMENT,
        false,
        bl,
        COMMAND_EXEC_US,
    )
}

impl Lcd {
    /// Emits the whole initialization sequence. The performer must have
    /// waited out the power-on settle time first, and must run the steps
    /// to completion: a controller abandoned mid-sequence is in an
    /// undefined state and must not be used.
    pub fn initialize(&self) -> (steps: Vec<Step>)
        ensures
            steps@ == init_steps(self.backlight),
    {
        let mut steps = self.send_nibble_settle(0x3, false, RESET_FIRST_US);
        let mut part = self.send_nibble_settle(0x3, false, RESET_SETTLE_US);
        steps.append(&mut part);
        let mut part = self.send_nibble_settle(0x3, false, RESET_SETTLE_US);
        steps.append(&mut part);
        let mut part = self.send_nibble_settle(0x2, false, RESET_SETTLE_US);
        steps.append(&mut part);
        let mut part = self.send_byte(CMD_FUNCTION_SET_4BIT_2LINE, false);
        steps.append(&mut part);
        let mut part = self.send_byte(CMD_DISPLAY_ON, false);
        steps.append(&mut part);
        let mut part = self.send_byte_timed(CMD_CLEAR, false, CLEAR_HOME_EXEC_US);
        steps.append(&mut part);
        let mut part = self.send_byte(CMD_ENTRY_MODE_INCREMENT, false);
        steps.append(&mut part);
        steps
    }
}

} // verus!
