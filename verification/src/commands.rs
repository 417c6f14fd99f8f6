//! Command opcodes of the controller instruction set, as used by this
//! driver, and the geometry of the supported module.

use vstd::prelude::*;

verus! {

/// Clear the display and reset the address pointer to zero. One of the
/// two slow commands: needs the long execution wait.
pub const CMD_CLEAR: u8 = 0x01;

/// Return the cursor and display shift home. The other slow command;
/// kept for completeness, this driver repositions through the address
/// pointer instead.
pub const CMD_RETURN_HOME: u8 = 0x02;

/// Entry mode: advance the address pointer after each write, no display
/// shift.
pub const CMD_ENTRY_MODE_INCREMENT: u8 = 0x06;

/// Display control: display on, cursor off, blink off.
pub const CMD_DISPLAY_ON: u8 = 0x0C;

/// Function set: 4-bit interface, two lines, 5x8 font.
pub const CMD_FUNCTION_SET_4BIT_2LINE: u8 = 0x28;

/// Set the DDRAM address pointer; the low seven bits carry the address.
pub const CMD_SET_DDRAM_ADDR: u8 = 0x80;

/// DDRAM address where the second display row begins.
pub const ROW1_DDRAM_OFFSET: u8 = 0x40;

/// DDRAM cells per line on this controller family; addresses at or past
/// a line's end are outside the supported geometry.
pub const DDRAM_COLS: u8 = 40;

/// Visible columns of the supported module; `print` truncates to this.
pub const DISPLAY_WIDTH: usize = 16;

/// Visible rows of the supported module.
pub const DISPLAY_HEIGHT: u8 = 2;

} // verus!
