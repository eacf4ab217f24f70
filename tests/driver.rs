use lcd_i2c::bus::{next_action, spin_delay_ms, Action, BusError};
use lcd_i2c::driver::{
    command, delay_ms, initialize, send, write4bits, write_string, BusOp, TransferMode,
    LCD_ADDRESS, SETTLE_MS,
};
use lcd_i2c::enums::Command;

fn strobe(high: u8, low: u8) -> Vec<BusOp> {
    vec![BusOp::Write(high), BusOp::Delay(1), BusOp::Write(low), BusOp::Delay(5)]
}

fn writes(ops: &[BusOp]) -> Vec<u8> {
    let mut out = Vec::new();
    for op in ops {
        if let BusOp::Write(b) = op {
            out.push(*b);
        }
    }
    out
}

#[test]
fn nibble_transfer_pulses_enable() {
    let mut ops = Vec::new();
    write4bits(&mut ops, 0x30);
    assert_eq!(ops, strobe(0x3C, 0x38));
}

#[test]
fn nibble_transfer_keeps_register_select() {
    let mut ops = Vec::new();
    write4bits(&mut ops, 0x41);
    assert_eq!(ops, strobe(0x4D, 0x49));
    let w = writes(&ops);
    assert_eq!(w.len(), 2);
    assert_eq!(w[0] & 0x04, 0x04);
    assert_eq!(w[1] & 0x04, 0x00);
    assert_eq!(w[0] & 0x08, 0x08);
    assert_eq!(w[1] & 0x08, 0x08);
    assert_eq!(w[0] & !0x04, w[1]);
}

#[test]
fn delay_is_recorded() {
    let mut ops = vec![BusOp::Write(7)];
    delay_ms(&mut ops, 12);
    assert_eq!(ops, vec![BusOp::Write(7), BusOp::Delay(12)]);
}

#[test]
fn send_high_nibble_first() {
    let mut ops = Vec::new();
    send(&mut ops, 0xA5, TransferMode::Data);
    let mut expected = strobe(0xAD, 0xA9);
    expected.extend(strobe(0x5D, 0x59));
    assert_eq!(ops, expected);
    let w = writes(&ops);
    assert_eq!(w[0] & 0xF0, 0xA5 & 0xF0);
    assert_eq!(w[2] & 0xF0, (0xA5u8 << 4) & 0xF0);
}

#[test]
fn command_clears_register_select() {
    let mut ops = Vec::new();
    command(&mut ops, 0x28);
    let mut expected = strobe(0x2C, 0x28);
    expected.extend(strobe(0x8C, 0x88));
    assert_eq!(ops, expected);
}

#[test]
fn write_sets_register_select() {
    let mut ops = vec![BusOp::Delay(3)];
    lcd_i2c::driver::write(&mut ops, b'H');
    let mut expected = vec![BusOp::Delay(3)];
    expected.extend(strobe(0x4D, 0x49));
    expected.extend(strobe(0x8D, 0x89));
    assert_eq!(ops, expected);
}

#[test]
fn clear_display_is_followed_by_long_wait() {
    let mut ops = Vec::new();
    command(&mut ops, Command::ClearDisplay.bits());
    assert_eq!(ops.last(), Some(&BusOp::Delay(SETTLE_MS)));
    assert!(SETTLE_MS * 1000 >= 1500);
    assert_eq!(writes(&ops), vec![0x0C, 0x08, 0x1C, 0x18]);
}

#[test]
fn initialize_then_hi() {
    let mut ops = Vec::new();
    initialize(&mut ops);
    write_string(&mut ops, "HI");

    let mut expected = Vec::new();
    for _ in 0..3 {
        expected.extend(strobe(0x3C, 0x38));
        expected.push(BusOp::Delay(5));
    }
    expected.extend(strobe(0x2C, 0x28));
    // function set: 4-bit, two lines, 5x8 font
    expected.extend(strobe(0x2C, 0x28));
    expected.extend(strobe(0x8C, 0x88));
    // display control: display, cursor and blink on
    expected.extend(strobe(0x0C, 0x08));
    expected.extend(strobe(0xFC, 0xF8));
    // clear display
    expected.extend(strobe(0x0C, 0x08));
    expected.extend(strobe(0x1C, 0x18));
    // entry mode: right, no shift
    expected.extend(strobe(0x0C, 0x08));
    expected.extend(strobe(0x6C, 0x68));
    // 'H'
    expected.extend(strobe(0x4D, 0x49));
    expected.extend(strobe(0x8D, 0x89));
    // 'I'
    expected.extend(strobe(0x4D, 0x49));
    expected.extend(strobe(0x9D, 0x99));

    assert_eq!(ops, expected);
    assert_eq!(writes(&ops).len(), 32);
}

#[test]
fn initialize_twice_repeats_traffic() {
    let mut once = Vec::new();
    initialize(&mut once);
    let mut twice = vec![BusOp::Write(0x55)];
    initialize(&mut twice);
    initialize(&mut twice);
    let n = once.len();
    assert_eq!(twice.len(), 1 + 2 * n);
    assert_eq!(&twice[1..1 + n], &once[..]);
    assert_eq!(&twice[1 + n..], &once[..]);
}

#[test]
fn write_string_empty_records_nothing() {
    let mut ops = vec![BusOp::Delay(1)];
    write_string(&mut ops, "");
    assert_eq!(ops, vec![BusOp::Delay(1)]);
}

#[test]
fn write_string_sends_low_byte_of_each_char() {
    let mut ops = Vec::new();
    write_string(&mut ops, "\u{e9}\u{20ac}");
    let mut expected = strobe(0xED, 0xE9);
    expected.extend(strobe(0x9D, 0x99));
    expected.extend(strobe(0xAD, 0xA9));
    expected.extend(strobe(0xCD, 0xC9));
    assert_eq!(ops, expected);
}

#[test]
fn next_action_plays_plan() {
    let plan = vec![BusOp::Write(0x3C), BusOp::Delay(1)];
    assert_eq!(
        next_action(&plan, 0, Ok(())),
        Action::Write { address: LCD_ADDRESS, byte: 0x3C }
    );
    assert_eq!(LCD_ADDRESS, 0x27);
    assert_eq!(next_action(&plan, 1, Ok(())), Action::Delay(1));
    assert_eq!(next_action(&plan, 2, Ok(())), Action::Done);
    assert_eq!(next_action(&Vec::new(), 0, Ok(())), Action::Done);
}

#[test]
fn next_action_stops_on_bus_error() {
    let plan = vec![BusOp::Write(0x3C), BusOp::Delay(1)];
    assert_eq!(next_action(&plan, 1, Err(BusError::Nack)), Action::Fail(BusError::Nack));
    assert_eq!(
        next_action(&plan, 1, Err(BusError::ArbitrationLost)),
        Action::Fail(BusError::ArbitrationLost)
    );
    assert_eq!(next_action(&plan, 2, Err(BusError::Timeout)), Action::Fail(BusError::Timeout));
}

#[test]
fn spin_delay_returns() {
    spin_delay_ms(0);
    spin_delay_ms(1);
}
