use vstd::prelude::*;

use crate::enums::{
    Command, DisplayBlink, DisplayCursor, DisplayMode, EntryModeDirection, EntryModeShift,
    FunctionDots, FunctionLine, FunctionMode,
};
use crate::instruction::{
    display_control, display_control_byte, entry_mode_byte, entry_mode_set, function_set,
    function_set_byte,
};

verus! {

/// 7-bit bus address of the I2C expander that carries the display.
pub const LCD_ADDRESS: u8 = 0x27;

/// Expander bit wired to the controller's enable line.
pub const ENABLE: u8 = 0x04;

/// Expander bit that switches the backlight on.
pub const BACKLIGHT: u8 = 0x08;

/// Expander bit wired to the controller's register-select line.
pub const REGISTER_SELECT: u8 = 0x01;

/// How long the enable line is held high, in milliseconds.
pub const PULSE_MS: u32 = 1;

/// How long the controller is given after each nibble, in milliseconds.
/// This exceeds the slowest instruction (clear and home, 1.52 ms).
pub const SETTLE_MS: u32 = 5;

/// Extra wait after each reset nibble of the power-on sequence, in milliseconds.
pub const RESET_WAIT_MS: u32 = 5;

/// Whether a byte is an instruction for the controller or a character to show.
#[derive(Copy, Clone, Debug, PartialEq, Eq, Structural)]
pub enum TransferMode {
    Command,
    Data,
}

impl TransferMode {
    /// The register-select bit this mode puts on the bus.
    pub open spec fn spec_bits(self) -> u8 {
        match self {
            TransferMode::Command => 0x00,
            TransferMode::Data => REGISTER_SELECT,
        }
    }

    #[verifier::when_used_as_spec(spec_bits)]
    pub fn bits(self) -> (r: u8)
        ensures
            r == self.spec_bits(),
    {
        match self {
            TransferMode::Command => 0x00,
            TransferMode::Data => REGISTER_SELECT,
        }
    }
}

/// One step of bus traffic: a single byte written to the expander at
/// `LCD_ADDRESS`, or a blocking wait of at least the given milliseconds.
#[derive(Copy, Clone, Debug, PartialEq, Eq, Structural)]
pub enum BusOp {
    Write(u8),
    Delay(u32),
}

/// The first write of a nibble transfer: enable and backlight raised.
pub open spec fn strobe_high(data: u8) -> u8 {
    data | ENABLE | BACKLIGHT
}

/// The second write of a nibble transfer: enable dropped, all else kept.
pub open spec fn strobe_low(data: u8) -> u8 {
    (data | BACKLIGHT) & !ENABLE
}

/// The traffic of one nibble transfer: the nibble sits in bits 4 to 7 of
/// `data`, the control flags in bits 0 to 3.
pub open spec fn nibble_ops(data: u8) -> Seq<BusOp> {
    seq![
        BusOp::Write(strobe_high(data)),
        BusOp::Delay(PULSE_MS),
        BusOp::Write(strobe_low(data)),
        BusOp::Delay(SETTLE_MS),
    ]
}

/// The high nibble of `data` in bits 4 to 7, with the mode's flag below.
pub open spec fn high_transfer(data: u8, mode: TransferMode) -> u8 {
    (data & 0xf0) | mode.spec_bits()
}

/// The low nibble of `data` moved to bits 4 to 7, with the mode's flag below.
pub open spec fn low_transfer(data: u8, mode: TransferMode) -> u8 {
    ((data << 4u8) & 0xf0) | mode.spec_bits()
}

/// The traffic of one byte: its high nibble, then its low nibble.
pub open spec fn byte_ops(data: u8, mode: TransferMode) -> Seq<BusOp> {
    nibble_ops(high_transfer(data, mode)) + nibble_ops(low_transfer(data, mode))
}

/// The nibble that forces the controller into 8-bit mode from any state.
pub open spec fn reset_nibble() -> u8 {
    function_set_byte(FunctionMode::Bit8, FunctionLine::Line1, FunctionDots::Dots5x8)
}

/// The nibble that switches the controller from 8-bit to 4-bit mode.
pub open spec fn four_bit_nibble() -> u8 {
    function_set_byte(FunctionMode::Bit4, FunctionLine::Line1, FunctionDots::Dots5x8)
}

/// The instruction sent first once the controller listens in 4-bit mode.
pub open spec fn setup_function() -> u8 {
    function_set_byte(FunctionMode::Bit4, FunctionLine::Line2, FunctionDots::Dots5x8)
}

/// Display, cursor and blink all on.
pub open spec fn setup_display() -> u8 {
    display_control_byte(DisplayMode::DisplayOn, DisplayCursor::CursorOn, DisplayBlink::BlinkOn)
}

/// Cursor moves right, display does not shift.
pub open spec fn setup_entry() -> u8 {
    entry_mode_byte(EntryModeDirection::EntryRight, EntryModeShift::NoShift)
}

/// One reset nibble and the recovery wait after it.
pub open spec fn reset_ops() -> Seq<BusOp> {
    nibble_ops(reset_nibble()).push(BusOp::Delay(RESET_WAIT_MS))
}

/// The whole bring-up traffic of the controller.
pub open spec fn init_ops() -> Seq<BusOp> {
    reset_ops() + reset_ops() + reset_ops() + nibble_ops(four_bit_nibble())
        + byte_ops(setup_function(), TransferMode::Command)
        + byte_ops(setup_display(), TransferMode::Command)
        + byte_ops(Command::ClearDisplay.spec_bits(), TransferMode::Command)
        + byte_ops(setup_entry(), TransferMode::Command)
}

/// The character code sent for `c`: its low eight bits.
pub open spec fn char_code(c: char) -> u8 {
    ((c as u32) % 256) as u8
}

/// The traffic that shows the characters of `s`, left to right.
pub open spec fn text_ops(s: Seq<char>) -> Seq<BusOp>
    decreases s.len(),
{
    if s.len() == 0 {
        Seq::empty()
    } else {
        text_ops(s.drop_last()) + byte_ops(char_code(s.last()), TransferMode::Data)
    }
}

/// Records a wait of `ms` milliseconds.
pub fn delay_ms(ops: &mut Vec<BusOp>, ms: u32)
    ensures
        final(ops)@ == old(ops)@.push(BusOp::Delay(ms)),
{
    ops.push(BusOp::Delay(ms));
}

/// Records one nibble transfer: the byte is written with enable and
/// backlight raised, then again with enable dropped, each followed by a wait.
pub fn write4bits(ops: &mut Vec<BusOp>, data: u8)
    ensures
        final(ops)@ == old(ops)@ + nibble_ops(data),
{
    ops.push(BusOp::Write(data | ENABLE | BACKLIGHT));
    delay_ms(ops, PULSE_MS);
    ops.push(BusOp::Write((data | BACKLIGHT) & !ENABLE));
    delay_ms(ops, SETTLE_MS);
    assert(ops@ =~= old(ops)@ + nibble_ops(data));
}

/// Records one byte as two nibble transfers, high nibble first.
pub fn send(ops: &mut Vec<BusOp>, data: u8, mode: TransferMode)
    ensures
        final(ops)@ == old(ops)@ + byte_ops(data, mode),
{
    let high_bits: u8 = data & 0xf0;
    let low_bits: u8 = (data << 4u8) & 0xf0;
    write4bits(ops, high_bits | mode.bits());
    write4bits(ops, low_bits | mode.bits());
    assert(ops@ =~= old(ops)@ + byte_ops(data, mode));
}

/// Records a character for display.
pub fn write(ops: &mut Vec<BusOp>, data: u8)
    ensures
        final(ops)@ == old(ops)@ + byte_ops(data, TransferMode::Data),
{
    send(ops, data, TransferMode::Data);
}

/// Records an instruction for the controller.
pub fn command(ops: &mut Vec<BusOp>, data: u8)
    ensures
        final(ops)@ == old(ops)@ + byte_ops(data, TransferMode::Command),
{
    send(ops, data, TransferMode::Command);
}

/// Records the bring-up sequence: three reset nibbles, the switch to 4-bit
/// mode, then function set, display control, clear and entry mode.
pub fn initialize(ops: &mut Vec<BusOp>)
    ensures
        final(ops)@ == old(ops)@ + init_ops(),
{
    let reset = function_set(FunctionMode::Bit8, FunctionLine::Line1, FunctionDots::Dots5x8);
    write4bits(ops, reset);
    delay_ms(ops, RESET_WAIT_MS);
    write4bits(ops, reset);
    delay_ms(ops, RESET_WAIT_MS);
    write4bits(ops, reset);
    delay_ms(ops, RESET_WAIT_MS);
    write4bits(ops, function_set(FunctionMode::Bit4, FunctionLine::Line1, FunctionDots::Dots5x8));
    command(ops, function_set(FunctionMode::Bit4, FunctionLine::Line2, FunctionDots::Dots5x8));
    command(
        ops,
        display_control(DisplayMode::DisplayOn, DisplayCursor::CursorOn, DisplayBlink::BlinkOn),
    );
    command(ops, Command::ClearDisplay.bits());
    command(ops, entry_mode_set(EntryModeDirection::EntryRight, EntryModeShift::NoShift));
    assert(ops@ =~= old(ops)@ + init_ops());
}

/// Records the characters of `text` for display, left to right.
pub fn write_string(ops: &mut Vec<BusOp>, text: &str)
    ensures
        final(ops)@ == old(ops)@ + text_ops(text@),
{
    broadcast use vstd::string::axiom_spec_iter;

    let ghost start = ops@;
    for c in it: text.chars()
        invariant
            it.seq() == text@,
            ops@ == start + text_ops(text@.take(it.index() as int)),
    {
        write(ops, (c as u32 % 256) as u8);
        proof {
            let done = text@.take(it.index() as int + 1);
            assert(done.drop_last() =~= text@.take(it.index() as int));
        }
    }
    assert(text@.take(text@.len() as int) =~= text@);
}

/// A byte goes out as exactly two nibble transfers: the first carries the
/// byte's high nibble, the second its low nibble, each in bits 4 to 7 and
/// each with the mode's register-select flag below it.
pub proof fn lemma_send_splits_byte(b: u8, mode: TransferMode)
    ensures
        byte_ops(b, mode) == nibble_ops(high_transfer(b, mode)) + nibble_ops(low_transfer(b, mode)),
        byte_ops(b, mode).len() == 2 * nibble_ops(0).len(),
        high_transfer(b, mode) & 0xf0 == b & 0xf0,
        low_transfer(b, mode) & 0xf0 == (b << 4u8) & 0xf0,
        high_transfer(b, mode) & 0x0f == mode.spec_bits(),
        low_transfer(b, mode) & 0x0f == mode.spec_bits(),
{
    let m = mode.spec_bits();
    assert(m == 0 || m == 1);
    assert((m == 0 || m == 1) ==> {
        &&& ((b & 0xf0) | m) & 0xf0 == b & 0xf0
        &&& ((b & 0xf0) | m) & 0x0f == m
        &&& (((b << 4u8) & 0xf0) | m) & 0xf0 == (b << 4u8) & 0xf0
        &&& (((b << 4u8) & 0xf0) | m) & 0x0f == m
    }) by (bit_vector);
}

/// A nibble transfer is exactly two bus writes, each followed by a wait: the
/// first with the enable bit set, the second with it cleared. Both keep the
/// backlight on, and apart from the enable bit they are the same byte, which
/// carries the nibble and the register-select and read/write flags as given.
pub proof fn lemma_nibble_strobe(data: u8)
    ensures
        nibble_ops(data).len() == 4,
        nibble_ops(data)[0] == BusOp::Write(strobe_high(data)),
        nibble_ops(data)[1] is Delay,
        nibble_ops(data)[2] == BusOp::Write(strobe_low(data)),
        nibble_ops(data)[3] is Delay,
        strobe_high(data) & ENABLE == ENABLE,
        strobe_low(data) & ENABLE == 0,
        strobe_high(data) & BACKLIGHT == BACKLIGHT,
        strobe_low(data) & BACKLIGHT == BACKLIGHT,
        strobe_high(data) & !ENABLE == strobe_low(data),
        strobe_high(data) & 0xf3 == data & 0xf3,
        strobe_low(data) & 0xf3 == data & 0xf3,
{
    assert({
        &&& (data | 0x04u8 | 0x08u8) & 0x04u8 == 0x04u8
        &&& ((data | 0x08u8) & !0x04u8) & 0x04u8 == 0
        &&& (data | 0x04u8 | 0x08u8) & 0x08u8 == 0x08u8
        &&& ((data | 0x08u8) & !0x04u8) & 0x08u8 == 0x08u8
        &&& (data | 0x04u8 | 0x08u8) & !0x04u8 == (data | 0x08u8) & !0x04u8
        &&& (data | 0x04u8 | 0x08u8) & 0xf3u8 == data & 0xf3u8
        &&& ((data | 0x08u8) & !0x04u8) & 0xf3u8 == data & 0xf3u8
    }) by (bit_vector);
}

/// After the clear instruction nothing reaches the controller for at least
/// 1.5 ms: its traffic ends in a wait of that length.
pub proof fn lemma_clear_display_settles()
    ensures
        byte_ops(Command::ClearDisplay.spec_bits(), TransferMode::Command).last() == BusOp::Delay(
            SETTLE_MS,
        ),
        SETTLE_MS as int * 1000 >= 1500,
{
}

/// Bringing the controller up twice in a row records the same traffic twice:
/// no state is carried from one call to the next.
pub proof fn lemma_initialize_repeats(before: Seq<BusOp>, once: Seq<BusOp>, twice: Seq<BusOp>)
    requires
        once == before + init_ops(),
        twice == once + init_ops(),
    ensures
        twice.len() - once.len() == once.len() - before.len(),
        twice.subrange(once.len() as int, twice.len() as int) == twice.subrange(
            before.len() as int,
            once.len() as int,
        ),
{
    assert(twice.subrange(once.len() as int, twice.len() as int) =~= init_ops());
    assert(twice.subrange(before.len() as int, once.len() as int) =~= init_ops());
}

} // verus!
