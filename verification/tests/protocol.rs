use lcd4bit::{
    frame_message, Lcd, Step, ADDRESS_SETUP_US, BACKLIGHT_BIT, CLEAR_HOME_EXEC_US,
    CMD_CLEAR, CMD_DISPLAY_ON, CMD_ENTRY_MODE_INCREMENT, CMD_FUNCTION_SET_4BIT_2LINE,
    COMMAND_EXEC_US, ENABLE_PULSE_US, EN_BIT, MESSAGE_END, MESSAGE_START, NIBBLE_SETTLE_US,
    RESET_FIRST_US, RESET_SETTLE_US, RS_BIT,
};

/// The expander byte for one write: nibble on the high pins, flags below.
fn ctrl(nibble: u8, rs: bool, en: bool, bl: bool) -> u8 {
    (nibble << 4)
        | (if rs { RS_BIT } else { 0 })
        | (if en { EN_BIT } else { 0 })
        | (if bl { BACKLIGHT_BIT } else { 0 })
}

/// The three writes of one nibble transmission.
fn nibble_steps(nibble: u8, rs: bool, bl: bool, settle_us: u64) -> Vec<Step> {
    vec![
        Step { byte: ctrl(nibble, rs, false, bl), delay_us: ADDRESS_SETUP_US },
        Step { byte: ctrl(nibble, rs, true, bl), delay_us: ENABLE_PULSE_US },
        Step { byte: ctrl(nibble, rs, false, bl), delay_us: settle_us },
    ]
}

/// The six writes of one framed byte.
fn byte_steps(value: u8, rs: bool, bl: bool, exec_us: u64) -> Vec<Step> {
    let mut steps = nibble_steps(value >> 4, rs, bl, NIBBLE_SETTLE_US);
    steps.extend(nibble_steps(value & 0x0F, rs, bl, exec_us));
    steps
}

/// Reads the framed byte back out of six captured steps.
fn reassemble(steps: &[Step]) -> u8 {
    assert_eq!(steps.len(), 6);
    (steps[0].byte & 0xF0) | (steps[3].byte >> 4)
}

#[test]
fn send_byte_emits_two_nibbles_high_then_low() {
    let lcd = Lcd::new(0x27);
    let steps = lcd.send_byte(0xAB, false);
    let mut expected = nibble_steps(0xA, false, true, NIBBLE_SETTLE_US);
    expected.extend(nibble_steps(0xB, false, true, COMMAND_EXEC_US));
    assert_eq!(steps, expected);
}

#[test]
fn send_byte_register_select_identical_across_both_nibbles() {
    let lcd = Lcd::new(0x27);
    for value in [0x00u8, 0x01, 0x5A, 0xF0, 0xFF] {
        for is_data in [false, true] {
            let steps = lcd.send_byte(value, is_data);
            assert_eq!(steps.len(), 6);
            let rs = if is_data { RS_BIT } else { 0 };
            for step in &steps {
                assert_eq!(step.byte & RS_BIT, rs);
            }
            assert_eq!(reassemble(&steps), value);
        }
    }
}

#[test]
fn send_byte_control_pattern_matches_masks() {
    let lcd = Lcd::new(0x3F);
    let value = 0x4E;
    let steps = lcd.send_byte(value, true);
    // High nibble with enable low: (value & 0xF0) | RS | backlight.
    assert_eq!(steps[0].byte, (value & 0xF0) | RS_BIT | BACKLIGHT_BIT);
    assert_eq!(steps[1].byte, (value & 0xF0) | RS_BIT | EN_BIT | BACKLIGHT_BIT);
    assert_eq!(steps[2].byte, steps[0].byte);
    // Low nibble shifted onto the data pins.
    assert_eq!(steps[3].byte, ((value << 4) & 0xF0) | RS_BIT | BACKLIGHT_BIT);
    assert_eq!(steps[4].byte, ((value << 4) & 0xF0) | RS_BIT | EN_BIT | BACKLIGHT_BIT);
    assert_eq!(steps[5].byte, steps[3].byte);
}

#[test]
fn print_hello_scope_emits_thirteen_data_bytes_in_order() {
    let lcd = Lcd::new(0x27);
    let text = b"Hello, Scope!";
    let steps = lcd.print(text);
    assert_eq!(steps.len(), 6 * 13);
    for (k, &ch) in text.iter().enumerate() {
        let frame = &steps[6 * k..6 * k + 6];
        assert_eq!(reassemble(frame), ch);
        for step in frame {
            assert_eq!(step.byte & RS_BIT, RS_BIT);
        }
    }
}

#[test]
fn print_truncates_at_display_width_without_error() {
    let lcd = Lcd::new(0x27);
    let text = b"This line is far too long";
    assert!(text.len() > 16);
    let steps = lcd.print(text);
    assert_eq!(steps.len(), 6 * 16);
    for k in 0..16 {
        assert_eq!(reassemble(&steps[6 * k..6 * k + 6]), text[k]);
    }
}

#[test]
fn print_empty_text_emits_nothing() {
    let lcd = Lcd::new(0x27);
    assert!(lcd.print(b"").is_empty());
}

#[test]
fn set_cursor_row_one_start_is_0xc0() {
    let lcd = Lcd::new(0x27);
    let steps = lcd.set_cursor(0, 1);
    assert_eq!(reassemble(&steps), 0xC0);
}

#[test]
fn set_cursor_col_five_row_zero_is_0x85() {
    let lcd = Lcd::new(0x27);
    let steps = lcd.set_cursor(5, 0);
    assert_eq!(reassemble(&steps), 0x85);
}

#[test]
fn ddram_addresses_monotonic_and_rows_disjoint() {
    let lcd = Lcd::new(0x27);
    let mut row0 = Vec::new();
    let mut row1 = Vec::new();
    for col in 0..16u8 {
        row0.push(reassemble(&lcd.set_cursor(col, 0)));
        row1.push(reassemble(&lcd.set_cursor(col, 1)));
    }
    for col in 1..16usize {
        assert!(row0[col - 1] < row0[col]);
        assert!(row1[col - 1] < row1[col]);
    }
    for col in 0..16usize {
        assert_eq!(row1[col], row0[col] + 0x40);
        assert!(!row0.contains(&row1[col]));
    }
}

#[test]
fn backlight_off_clears_bit_three_of_every_later_write() {
    let mut lcd = Lcd::new(0x27);
    let toggle = lcd.set_backlight(false);
    assert_eq!(toggle, vec![Step { byte: 0x00, delay_us: 0 }]);
    let steps = lcd.print(b"Hello");
    assert!(!steps.is_empty());
    for step in &steps {
        assert_eq!(step.byte & BACKLIGHT_BIT, 0);
    }
}

#[test]
fn backlight_toggle_changes_only_bit_three() {
    let mut on = Lcd::new(0x27);
    let mut off = Lcd::new(0x27);
    on.set_backlight(true);
    off.set_backlight(false);
    let lit = on.send_byte(0x5C, true);
    let dark = off.send_byte(0x5C, true);
    assert_eq!(lit.len(), dark.len());
    for (a, b) in lit.iter().zip(dark.iter()) {
        assert_eq!(a.byte, b.byte | BACKLIGHT_BIT);
        assert_eq!(a.byte & !BACKLIGHT_BIT, b.byte & !BACKLIGHT_BIT);
        assert_eq!(a.delay_us, b.delay_us);
    }
}

#[test]
fn backlight_on_step_raises_only_the_backlight_pin() {
    let mut lcd = Lcd::new(0x27);
    let toggle = lcd.set_backlight(true);
    assert_eq!(toggle, vec![Step { byte: BACKLIGHT_BIT, delay_us: 0 }]);
}

#[test]
fn initialization_transcript_exact() {
    let lcd = Lcd::new(0x27);
    let steps = lcd.initialize();
    let mut expected = nibble_steps(0x3, false, true, RESET_FIRST_US);
    expected.extend(nibble_steps(0x3, false, true, RESET_SETTLE_US));
    expected.extend(nibble_steps(0x3, false, true, RESET_SETTLE_US));
    expected.extend(nibble_steps(0x2, false, true, RESET_SETTLE_US));
    expected.extend(byte_steps(CMD_FUNCTION_SET_4BIT_2LINE, false, true, COMMAND_EXEC_US));
    expected.extend(byte_steps(CMD_DISPLAY_ON, false, true, COMMAND_EXEC_US));
    expected.extend(byte_steps(CMD_CLEAR, false, true, CLEAR_HOME_EXEC_US));
    expected.extend(byte_steps(CMD_ENTRY_MODE_INCREMENT, false, true, COMMAND_EXEC_US));
    assert_eq!(steps, expected);
}

#[test]
fn clear_uses_the_long_execution_wait() {
    let lcd = Lcd::new(0x27);
    let steps = lcd.clear();
    assert_eq!(reassemble(&steps), CMD_CLEAR);
    assert_eq!(steps[5].delay_us, CLEAR_HOME_EXEC_US);
}

#[test]
fn new_handle_stores_address_with_backlight_on() {
    let lcd = Lcd::new(0x3F);
    assert_eq!(lcd.address, 0x3F);
    assert!(lcd.backlight);
}

#[test]
fn frame_message_wraps_payload_in_markers() {
    let text = b"Happy Birthday";
    let frame = frame_message(text);
    assert_eq!(frame.len(), text.len() + 2);
    assert_eq!(frame[0], MESSAGE_START);
    assert_eq!(&frame[1..frame.len() - 1], text);
    assert_eq!(frame[frame.len() - 1], MESSAGE_END);
    assert_eq!(frame[0], 0xFF);
    assert_eq!(frame[frame.len() - 1], 0x00);
}
