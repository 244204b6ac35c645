//! HD44780 character LCDs behind a PCF8574 I²C expander: how commands and characters
//! are split into the expander's 4-bit frames, and the addresses of the cursor.

use vstd::prelude::*;

verus! {

/// Expander bit that keeps the backlight on.
pub const LCD_BACKLIGHT: u8 = 0x08;

/// Expander bit driving the LCD's enable line; data is latched on its falling edge.
pub const LCD_ENABLE: u8 = 0x04;

/// Expander bit selecting the data register (characters) rather than commands.
pub const LCD_RS: u8 = 0x01;

/// Default I²C address of the expander.
pub const LCD_ADDRESS: u8 = 0x27;

/// Command: clear the display.
pub const CMD_CLEAR: u8 = 0x01;

/// Command: cursor home.
pub const CMD_HOME: u8 = 0x02;

/// Command: entry mode, cursor moves right, no shift.
pub const CMD_ENTRY_MODE: u8 = 0x06;

/// Command: display off.
pub const CMD_DISPLAY_OFF: u8 = 0x08;

/// Command: display on, cursor off, blink off.
pub const CMD_DISPLAY_ON: u8 = 0x0C;

/// Command: display on, cursor on.
pub const CMD_CURSOR_ON: u8 = 0x0E;

/// Command: display on, cursor on, blinking.
pub const CMD_BLINK_ON: u8 = 0x0F;

/// Command: shift the display left.
pub const CMD_SCROLL_LEFT: u8 = 0x18;

/// Command: shift the display right.
pub const CMD_SCROLL_RIGHT: u8 = 0x1C;

/// Command: 4-bit interface, two lines, 5×8 dots.
pub const CMD_FUNCTION_SET: u8 = 0x28;

/// Command bit: set the display data address.
pub const CMD_SET_DDRAM_ADDRESS: u8 = 0x80;

/// The expander byte carrying `nibble` with the backlight on and RS as given, enable low.
pub open spec fn nibble_data(nibble: u8, rs: bool) -> u8 {
    ((nibble << 4u8) | LCD_BACKLIGHT | (if rs { LCD_RS } else { 0u8 })) as u8
}

/// The two expander bytes that clock `nibble` into the LCD: enable high, then low.
pub fn nibble_frames(nibble: u8, rs: bool) -> (frames: (u8, u8))
    ensures
        frames.1 == nibble_data(nibble, rs),
        frames.0 == frames.1 | LCD_ENABLE,
{
    let rs_bit: u8 = if rs {
        LCD_RS
    } else {
        0
    };
    let data = (nibble << 4u8) | LCD_BACKLIGHT | rs_bit;
    (data | LCD_ENABLE, data)
}

/// The four expander bytes that send `byte`: its high nibble, then its low nibble.
pub fn byte_frames(byte: u8, rs: bool) -> (frames: [u8; 4])
    ensures
        frames@[1] == nibble_data((byte >> 4u8) & 0x0F, rs),
        frames@[0] == frames@[1] | LCD_ENABLE,
        frames@[3] == nibble_data(byte & 0x0F, rs),
        frames@[2] == frames@[3] | LCD_ENABLE,
{
    let (high_on, high_off) = nibble_frames((byte >> 4u8) & 0x0F, rs);
    let (low_on, low_off) = nibble_frames(byte & 0x0F, rs);
    [high_on, high_off, low_on, low_off]
}

/// The byte the LCD latches from four frames: the data lines (upper four bits) of the
/// two latched frames, high nibble first.
pub open spec fn latched_byte(frames: Seq<u8>) -> u8 {
    (((frames[1] >> 4u8) << 4u8) | (frames[3] >> 4u8)) as u8
}

/// Every byte sent arrives whole: the data lines of the two latched frames give back the
/// byte, RS is as requested, the backlight stays on, and enable falls within each pair.
pub proof fn byte_frames_round_trip(byte: u8, rs: bool)
    ensures
        ({
            let f1 = nibble_data((byte >> 4u8) & 0x0F, rs);
            let f3 = nibble_data(byte & 0x0F, rs);
            &&& (((f1 >> 4u8) << 4u8) | (f3 >> 4u8)) == byte
            &&& (f1 & LCD_RS == LCD_RS) == rs
            &&& (f3 & LCD_RS == LCD_RS) == rs
            &&& f1 & LCD_BACKLIGHT == LCD_BACKLIGHT
            &&& f3 & LCD_BACKLIGHT == LCD_BACKLIGHT
            &&& f1 & LCD_ENABLE == 0
            &&& f3 & LCD_ENABLE == 0
        }),
{
    let rs_bit: u8 = if rs { 1u8 } else { 0u8 };
    let f1 = nibble_data((byte >> 4u8) & 0x0F, rs);
    let f3 = nibble_data(byte & 0x0F, rs);
    assert(f1 == ((((byte >> 4u8) & 0x0F) << 4u8) | 0x08u8 | rs_bit));
    assert(f3 == (((byte & 0x0F) << 4u8) | 0x08u8 | rs_bit));
    assert({
        &&& (((f1 >> 4u8) << 4u8) | (f3 >> 4u8)) == byte
        &&& (f1 & 1u8 == 1u8) == (rs_bit == 1u8)
        &&& (f3 & 1u8 == 1u8) == (rs_bit == 1u8)
        &&& f1 & 0x08u8 == 0x08u8
        &&& f3 & 0x08u8 == 0x08u8
        &&& f1 & 0x04u8 == 0u8
        &&& f3 & 0x04u8 == 0u8
    }) by (bit_vector)
        requires
            rs_bit == 0u8 || rs_bit == 1u8,
            f1 == ((((byte >> 4u8) & 0x0F) << 4u8) | 0x08u8 | rs_bit),
            f3 == (((byte & 0x0F) << 4u8) | 0x08u8 | rs_bit),
    ;
}

/// The display address of `row`, `col` on a 20×4 (or 16×2) module; rows past the fourth
/// go to the start.
pub open spec fn cursor_address_spec(row: u8, col: u8) -> int {
    if row == 0 {
        col as int
    } else if row == 1 {
        0x40 + col
    } else if row == 2 {
        0x14 + col
    } else if row == 3 {
        0x54 + col
    } else {
        0
    }
}

/// The command byte that moves the cursor to `row`, `col`.
pub fn set_cursor_command(row: u8, col: u8) -> (command: u8)
    requires
        cursor_address_spec(row, col) <= 0xFF,
    ensures
        command == (0x80u8 | (cursor_address_spec(row, col) as u8)),
{
    let address: u8 = if row == 0 {
        col
    } else if row == 1 {
        0x40 + col
    } else if row == 2 {
        0x14 + col
    } else if row == 3 {
        0x54 + col
    } else {
        0
    };
    CMD_SET_DDRAM_ADDRESS | address
}

/// One step of bringing the LCD up: a nibble or a whole byte (always a command), and the
/// pause after it in microseconds.
#[derive(Clone, Copy, Debug, PartialEq, Eq, Structural)]
pub enum InitStep {
    Nibble(u8, u32),
    Command(u8, u32),
}

/// The power-on sequence: three times 0x3 to force 8-bit mode, 0x2 for 4-bit mode, then
/// function set, display on, clear (with its 2 ms) and entry mode.
pub fn init_sequence() -> (steps: Vec<InitStep>)
    ensures
        steps@ == seq![
            InitStep::Nibble(0x03, 5000),
            InitStep::Nibble(0x03, 150),
            InitStep::Nibble(0x03, 0),
            InitStep::Nibble(0x02, 0),
            InitStep::Command(CMD_FUNCTION_SET, 0),
            InitStep::Command(CMD_DISPLAY_ON, 0),
            InitStep::Command(CMD_CLEAR, 2000),
            InitStep::Command(CMD_ENTRY_MODE, 0),
        ],
{
    let mut steps: Vec<InitStep> = Vec::new();
    steps.push(InitStep::Nibble(0x03, 5000));
    steps.push(InitStep::Nibble(0x03, 150));
    steps.push(InitStep::Nibble(0x03, 0));
    steps.push(InitStep::Nibble(0x02, 0));
    steps.push(InitStep::Command(CMD_FUNCTION_SET, 0));
    steps.push(InitStep::Command(CMD_DISPLAY_ON, 0));
    steps.push(InitStep::Command(CMD_CLEAR, 2000));
    steps.push(InitStep::Command(CMD_ENTRY_MODE, 0));
    steps
}

} // verus!
