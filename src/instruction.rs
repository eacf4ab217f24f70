use vstd::prelude::*;

use crate::enums::{
    Command, Direction, DisplayBlink, DisplayCursor, DisplayMode, EntryModeDirection,
    EntryModeShift, FunctionDots, FunctionLine, FunctionMode, Scroll,
};

verus! {

/// The function-set instruction byte: interface width, line count and font.
pub open spec fn function_set_byte(mode: FunctionMode, lines: FunctionLine, dots: FunctionDots) -> u8 {
    Command::FunctionSet.spec_bits() | mode.spec_bits() | lines.spec_bits() | dots.spec_bits()
}

/// The display-control instruction byte: display, cursor and blink switches.
pub open spec fn display_control_byte(
    display: DisplayMode,
    cursor: DisplayCursor,
    blink: DisplayBlink,
) -> u8 {
    Command::DisplayControl.spec_bits() | display.spec_bits() | cursor.spec_bits()
        | blink.spec_bits()
}

/// The entry-mode-set instruction byte: cursor direction and display shift.
pub open spec fn entry_mode_byte(direction: EntryModeDirection, shift: EntryModeShift) -> u8 {
    Command::EntryModeSet.spec_bits() | direction.spec_bits() | shift.spec_bits()
}

/// The cursor-or-display-shift instruction byte.
pub open spec fn cursor_shift_byte(scroll: Scroll, direction: Direction) -> u8 {
    Command::CursorShift.spec_bits() | scroll.spec_bits() | direction.spec_bits()
}

/// Builds a function-set instruction.
pub fn function_set(mode: FunctionMode, lines: FunctionLine, dots: FunctionDots) -> (r: u8)
    ensures
        r == function_set_byte(mode, lines, dots),
{
    Command::FunctionSet.bits() | mode.bits() | lines.bits() | dots.bits()
}

/// Builds a display-control instruction.
pub fn display_control(display: DisplayMode, cursor: DisplayCursor, blink: DisplayBlink) -> (r: u8)
    ensures
        r == display_control_byte(display, cursor, blink),
{
    Command::DisplayControl.bits() | display.bits() | cursor.bits() | blink.bits()
}

/// Builds an entry-mode-set instruction.
pub fn entry_mode_set(direction: EntryModeDirection, shift: EntryModeShift) -> (r: u8)
    ensures
        r == entry_mode_byte(direction, shift),
{
    Command::EntryModeSet.bits() | direction.bits() | shift.bits()
}

/// Builds a cursor-or-display-shift instruction.
pub fn cursor_shift(scroll: Scroll, direction: Direction) -> (r: u8)
    ensures
        r == cursor_shift_byte(scroll, direction),
{
    Command::CursorShift.bits() | scroll.bits() | direction.bits()
}

/// The option fields of a function-set instruction occupy disjoint bits:
/// each choice can be read back from the byte, and the opcode bit is set.
pub proof fn lemma_function_set_fields(mode: FunctionMode, lines: FunctionLine, dots: FunctionDots)
    ensures
        function_set_byte(mode, lines, dots) & 0xE0 == Command::FunctionSet.spec_bits(),
        function_set_byte(mode, lines, dots) & 0x10 == mode.spec_bits(),
        function_set_byte(mode, lines, dots) & 0x08 == lines.spec_bits(),
        function_set_byte(mode, lines, dots) & 0x04 == dots.spec_bits(),
        function_set_byte(mode, lines, dots) & 0x03 == 0,
{
    let m = mode.spec_bits();
    let l = lines.spec_bits();
    let d = dots.spec_bits();
    assert((m == 0 || m == 0x10) && (l == 0 || l == 0x08) && (d == 0 || d == 0x04));
    assert(((m == 0 || m == 0x10) && (l == 0 || l == 0x08) && (d == 0 || d == 0x04)) ==> {
        let b = 0x20u8 | m | l | d;
        &&& b & 0xE0 == 0x20
        &&& b & 0x10 == m
        &&& b & 0x08 == l
        &&& b & 0x04 == d
        &&& b & 0x03 == 0
    }) by (bit_vector);
}

/// The option fields of a display-control instruction occupy disjoint bits.
pub proof fn lemma_display_control_fields(
    display: DisplayMode,
    cursor: DisplayCursor,
    blink: DisplayBlink,
)
    ensures
        display_control_byte(display, cursor, blink) & 0xF8 == Command::DisplayControl.spec_bits(),
        display_control_byte(display, cursor, blink) & 0x04 == display.spec_bits(),
        display_control_byte(display, cursor, blink) & 0x02 == cursor.spec_bits(),
        display_control_byte(display, cursor, blink) & 0x01 == blink.spec_bits(),
{
    let p = display.spec_bits();
    let c = cursor.spec_bits();
    let b = blink.spec_bits();
    assert((p == 0 || p == 0x04) && (c == 0 || c == 0x02) && (b == 0 || b == 0x01));
    assert(((p == 0 || p == 0x04) && (c == 0 || c == 0x02) && (b == 0 || b == 0x01)) ==> {
        let x = 0x08u8 | p | c | b;
        &&& x & 0xF8 == 0x08
        &&& x & 0x04 == p
        &&& x & 0x02 == c
        &&& x & 0x01 == b
    }) by (bit_vector);
}

/// The option fields of an entry-mode-set instruction occupy disjoint bits.
pub proof fn lemma_entry_mode_fields(direction: EntryModeDirection, shift: EntryModeShift)
    ensures
        entry_mode_byte(direction, shift) & 0xFC == Command::EntryModeSet.spec_bits(),
        entry_mode_byte(direction, shift) & 0x02 == direction.spec_bits(),
        entry_mode_byte(direction, shift) & 0x01 == shift.spec_bits(),
{
    let d = direction.spec_bits();
    let s = shift.spec_bits();
    assert((d == 0 || d == 0x02) && (s == 0 || s == 0x01));
    assert(((d == 0 || d == 0x02) && (s == 0 || s == 0x01)) ==> {
        let x = 0x04u8 | d | s;
        &&& x & 0xFC == 0x04
        &&& x & 0x02 == d
        &&& x & 0x01 == s
    }) by (bit_vector);
}

/// The option fields of a cursor-shift instruction occupy disjoint bits.
pub proof fn lemma_cursor_shift_fields(scroll: Scroll, direction: Direction)
    ensures
        cursor_shift_byte(scroll, direction) & 0xF0 == Command::CursorShift.spec_bits(),
        cursor_shift_byte(scroll, direction) & 0x08 == scroll.spec_bits(),
        cursor_shift_byte(scroll, direction) & 0x04 == direction.spec_bits(),
        cursor_shift_byte(scroll, direction) & 0x03 == 0,
{
    let s = scroll.spec_bits();
    let d = direction.spec_bits();
    assert((s == 0 || s == 0x08) && (d == 0 || d == 0x04));
    assert(((s == 0 || s == 0x08) && (d == 0 || d == 0x04)) ==> {
        let x = 0x10u8 | s | d;
        &&& x & 0xF0 == 0x10
        &&& x & 0x08 == s
        &&& x & 0x04 == d
        &&& x & 0x03 == 0
    }) by (bit_vector);
}

} // verus!
