//! Protocol driver for an HD44780-family character LCD behind a PCF8574
//! serial-to-parallel expander, in 4-bit nibble mode.
//!
//! The driver is a pure encoder: every display operation is turned into the
//! exact sequence of single-byte expander writes, each paired with the
//! minimum delay that must pass after it. Performing the writes on a real
//! bus (and sleeping the delays) is left to the caller, which keeps the
//! protocol logic deterministic and fully checkable.

pub mod commands;
pub mod driver;
pub mod framer;
pub mod init;
pub mod message;
pub mod ops;
pub mod port;
pub mod timing;
pub mod transmit;

pub use commands::{
    CMD_CLEAR, CMD_DISPLAY_ON, CMD_ENTRY_MODE_INCREMENT, CMD_FUNCTION_SET_4BIT_2LINE,
    CMD_RETURN_HOME, CMD_SET_DDRAM_ADDR, DDRAM_COLS, DISPLAY_HEIGHT, DISPLAY_WIDTH,
    ROW1_DDRAM_OFFSET,
};
pub use driver::Lcd;
pub use message::{frame_message, MESSAGE_END, MESSAGE_START};
pub use port::{Step, BACKLIGHT_BIT, EN_BIT, RS_BIT, RW_BIT};
pub use timing::{
    ADDRESS_SETUP_US, CLEAR_HOME_EXEC_US, COMMAND_EXEC_US, ENABLE_PULSE_US, NIBBLE_SETTLE_US,
    POWER_ON_SETTLE_US, RESET_FIRST_US, RESET_SETTLE_US,
};
