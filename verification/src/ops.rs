//! Display operations: the caller-facing surface, built from the framer
//! and the port model.

use vstd::prelude::*;

use crate::commands::{
    CMD_CLEAR, CMD_SET_DDRAM_ADDR, DDRAM_COLS, DISPLAY_HEIGHT, DISPLAY_WIDTH, ROW1_DDRAM_OFFSET,
};
use crate::driver::Lcd;
use crate::framer::{byte_steps, lemma_byte_steps_backlight};
use crate::port::{flag, line, with_backlight, Step, BACKLIGHT_BIT};
use crate::timing::{CLEAR_HOME_EXEC_US, COMMAND_EXEC_US};

verus! {

/// DDRAM base address of a row: row zero starts at address zero, row one
/// at the second-row offset.
pub open spec fn row_base(row: u8) -> u8 {
    if row == 0 {
        0
    } else {
        ROW1_DDRAM_OFFSET
    }
}

/// The set-address command for a cell: the opcode with the row base plus
/// the column in its low seven bits.
pub open spec fn ddram_addr_cmd(col: u8, row: u8) -> u8 {
    CMD_SET_DDRAM_ADDR | (row_base(row) + col) as u8
}

/// The transcript of printing a text: one data byte per character, in
/// input order, each framed with register select high.
pub open spec fn print_steps(text: Seq<u8>, bl: bool) -> Seq<Step>
    decreases text.len(),
{
    if text.len() == 0 {
        Seq::empty()
    } else {
        byte_steps(text[0], true, bl, COMMAND_EXEC_US) + print_steps(text.drop_first(), bl)
    }
}

/// What of a text reaches the display: at most the display width, the
/// rest silently dropped.
pub open spec fn visible(text: Seq<u8>) -> Seq<u8> {
    if text.len() <= DISPLAY_WIDTH {
        text
    } else {
        text.take(DISPLAY_WIDTH as int)
    }
}

/// The single raw write of a backlight change: only the backlight bit,
/// all other lines low, with no timing requirement.
pub open spec fn backlight_step(on: bool) -> Seq<Step> {
    seq![Step { byte: flag(on, BACKLIGHT_BIT), delay_us: 0 }]
}

/// Printing one more character appends exactly one framed data byte to
/// the transcript.
proof fn lemma_print_steps_snoc(text: Seq<u8>, bl: bool, i: int)
    requires
        0 <= i < text.len(),
    ensures
        print_steps(text.take(i + 1), bl) == print_steps(text.take(i), bl) + byte_steps(
            text[i],
            true,
            bl,
            COMMAND_EXEC_US,
        ),
    decreases i,
{
    let pre = text.take(i + 1);
    if i == 0 {
        assert(pre.drop_first() =~= text.take(0));
        assert(print_steps(text.take(0), bl) == Seq::<Step>::empty());
        assert(print_steps(pre, bl) =~= print_steps(text.take(0), bl) + byte_steps(
            text[0],
            true,
            bl,
            COMMAND_EXEC_US,
        ));
    } else {
        assert(pre.drop_first() =~= text.drop_first().take(i));
        assert(text.take(i).drop_first() =~= text.drop_first().take(i - 1));
        lemma_print_steps_snoc(text.drop_first(), bl, i - 1);
        assert(text.drop_first()[i - 1] == text[i]);
        assert(print_steps(pre, bl) =~= print_steps(text.take(i), bl) + byte_steps(
            text[i],
            true,
            bl,
            COMMAND_EXEC_US,
        )) by {
            assert(print_steps(pre, bl) == byte_steps(pre[0], true, bl, COMMAND_EXEC_US)
                + print_steps(pre.drop_first(), bl));
            assert(print_steps(text.take(i), bl) == byte_steps(
                text.take(i)[0],
                true,
                bl,
                COMMAND_EXEC_US,
            ) + print_steps(text.take(i).drop_first(), bl));
        }
    }
}

/// A backlight toggle reaches every write of every later print without
/// touching anything else: the whole print transcript with the backlight
/// on is the transcript with it off with only the backlight bit ORed
/// into each write, and after turning the backlight off, the backlight
/// bit is clear in every emitted byte.
pub proof fn lemma_print_steps_backlight(text: Seq<u8>)
    ensures
        print_steps(text, true) =~= with_backlight(print_steps(text, false)),
        forall|i: int|
            0 <= i < print_steps(text, false).len() ==> (#[trigger] print_steps(
                text,
                false,
            )[i]).byte & BACKLIGHT_BIT == 0,
    decreases text.len(),
{
    if text.len() > 0 {
        lemma_byte_steps_backlight(text[0], true, COMMAND_EXEC_US);
        lemma_print_steps_backlight(text.drop_first());
    }
}

impl Lcd {
    /// Clears the display, with the long clear-specific execution wait.
    /// The controller's address pointer is back at cell (0, 0) afterward.
    pub fn clear(&self) -> (steps: Vec<Step>)
        ensures
            steps@ == byte_steps(CMD_CLEAR, false, self.backlight, CLEAR_HOME_EXEC_US),
    {
        self.send_byte_timed(CMD_CLEAR, false, CLEAR_HOME_EXEC_US)
    }

    /// Moves the address pointer to the given cell. The coordinates must
    /// resolve to a DDRAM address of the supported geometry; nothing is
    /// clamped on the caller's behalf.
    pub fn set_cursor(&self, col: u8, row: u8) -> (steps: Vec<Step>)
        requires
            col < DDRAM_COLS,
            row < DISPLAY_HEIGHT,
        ensures
            steps@ == byte_steps(ddram_addr_cmd(col, row), false, self.backlight, COMMAND_EXEC_US),
    {
        let base: u8 = if row == 0 {
            0
        } else {
            ROW1_DDRAM_OFFSET
        };
        self.send_byte(CMD_SET_DDRAM_ADDR | (base + col), false)
    }

    /// Writes a text at the address pointer, one data byte per character
    /// in input order; characters beyond the display width are silently
    /// dropped, neither wrapped nor an error.
    pub fn print(&self, text: &[u8]) -> (steps: Vec<Step>)
        ensures
            steps@ == print_steps(visible(text@), self.backlight),
    {
        let count = if text.len() <= DISPLAY_WIDTH {
            text.len()
        } else {
            DISPLAY_WIDTH
        };
        let mut steps: Vec<Step> = Vec::new();
        let mut i: usize = 0;
        proof {
            assert(text@.take(0) =~= Seq::<u8>::empty());
        }
        while i < count
            invariant
                count <= text@.len(),
                count == visible(text@).len(),
                i <= count,
                steps@ == print_steps(text@.take(i as int), self.backlight),
            decreases count - i,
        {
            let mut part = self.send_byte(text[i], true);
            steps.append(&mut part);
            proof {
                lemma_print_steps_snoc(text@, self.backlight, i as int);
            }
            i = i + 1;
        }
        proof {
            assert(text@.take(count as int) =~= visible(text@));
        }
        steps
    }

    /// Turns the backlight on or off, remembered for every later
    /// transmission, and emits one raw expander write carrying just the
    /// backlight bit so the change shows at once, independent of any
    /// command or data framing.
    pub fn set_backlight(&mut self, on: bool) -> (steps: Vec<Step>)
        ensures
            final(self).backlight == on,
            final(self).address == old(self).address,
            steps@ == backlight_step(on),
    {
        self.backlight = on;
        let mut steps: Vec<Step> = Vec::new();
        let b = line(on, BACKLIGHT_BIT);
        steps.push(Step { byte: b, delay_us: 0 });
        proof {
            assert(steps@ =~= backlight_step(on));
        }
        steps
    }
}

/// Within one row, the set-address command grows strictly with the
/// column: consecutive cells of a line sit at consecutive DDRAM
/// addresses.
pub proof fn lemma_ddram_addr_monotonic(row: u8, c1: u8, c2: u8)
    requires
        row < DISPLAY_HEIGHT,
        c1 < c2,
        c2 < DISPLAY_WIDTH as u8,
    ensures
        ddram_addr_cmd(c1, row) < ddram_addr_cmd(c2, row),
{
    assert((0x80u8 | (0u8 + c1) as u8) < (0x80u8 | (0u8 + c2) as u8) && (0x80u8 | (0x40u8
        + c1) as u8) < (0x80u8 | (0x40u8 + c2) as u8)) by (bit_vector)
        requires
            c1 < c2,
            c2 < 16,
    ;
}

/// The two rows address disjoint DDRAM ranges: row one's addresses are
/// exactly row zero's shifted up by the second-row offset, so no visible
/// cell of one row aliases a cell of the other.
pub proof fn lemma_ddram_rows_disjoint(c0: u8, c1: u8)
    requires
        c0 < DISPLAY_WIDTH as u8,
        c1 < DISPLAY_WIDTH as u8,
    ensures
        ddram_addr_cmd(c1, 1) == ddram_addr_cmd(c1, 0) + ROW1_DDRAM_OFFSET,
        ddram_addr_cmd(c0, 0) != ddram_addr_cmd(c1, 1),
{
    assert((0x80u8 | (0x40u8 + c1) as u8) == (0x80u8 | (0u8 + c1) as u8) + 0x40 && (0x80u8 | (0u8
        + c0) as u8) != (0x80u8 | (0x40u8 + c1) as u8)) by (bit_vector)
        requires
            c0 < 16,
            c1 < 16,
    ;
}

} // verus!
