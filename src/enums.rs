use vstd::prelude::*;

verus! {

/// Interface width selected by a function-set instruction.
#[derive(Copy, Clone, Debug, PartialEq, Eq, Structural)]
pub enum FunctionMode {
    /// Send data 4 bits at the time
    Bit4,
    /// Send data 8 bits at the time
    Bit8,
}

impl FunctionMode {
    /// The bits this value contributes to an instruction byte.
    pub open spec fn spec_bits(self) -> u8 {
        match self {
            FunctionMode::Bit4 => 0x00,
            FunctionMode::Bit8 => 0x10,
        }
    }

    #[verifier::when_used_as_spec(spec_bits)]
    pub fn bits(self) -> (r: u8)
        ensures
            r == self.spec_bits(),
    {
        match self {
            FunctionMode::Bit4 => 0x00,
            FunctionMode::Bit8 => 0x10,
        }
    }
}

/// Character font selected by a function-set instruction.
#[derive(Copy, Clone, Debug, PartialEq, Eq, Structural)]
pub enum FunctionDots {
    Dots5x8,
    Dots5x10,
}

impl FunctionDots {
    /// The bits this value contributes to an instruction byte.
    pub open spec fn spec_bits(self) -> u8 {
        match self {
            FunctionDots::Dots5x8 => 0x00,
            FunctionDots::Dots5x10 => 0x04,
        }
    }

    #[verifier::when_used_as_spec(spec_bits)]
    pub fn bits(self) -> (r: u8)
        ensures
            r == self.spec_bits(),
    {
        match self {
            FunctionDots::Dots5x8 => 0x00,
            FunctionDots::Dots5x10 => 0x04,
        }
    }
}

/// Number of display lines selected by a function-set instruction.
#[derive(Copy, Clone, Debug, PartialEq, Eq, Structural)]
pub enum FunctionLine {
    Line1,
    Line2,
}

impl FunctionLine {
    /// The bits this value contributes to an instruction byte.
    pub open spec fn spec_bits(self) -> u8 {
        match self {
            FunctionLine::Line1 => 0x00,
            FunctionLine::Line2 => 0x08,
        }
    }

    #[verifier::when_used_as_spec(spec_bits)]
    pub fn bits(self) -> (r: u8)
        ensures
            r == self.spec_bits(),
    {
        match self {
            FunctionLine::Line1 => 0x00,
            FunctionLine::Line2 => 0x08,
        }
    }
}

/// Cursor blinking, set by a display-control instruction.
#[derive(Copy, Clone, Debug, PartialEq, Eq, Structural)]
pub enum DisplayBlink {
    BlinkOff,
    BlinkOn,
}

impl DisplayBlink {
    /// The bits this value contributes to an instruction byte.
    pub open spec fn spec_bits(self) -> u8 {
        match self {
            DisplayBlink::BlinkOff => 0x00,
            DisplayBlink::BlinkOn => 0x01,
        }
    }

    #[verifier::when_used_as_spec(spec_bits)]
    pub fn bits(self) -> (r: u8)
        ensures
            r == self.spec_bits(),
    {
        match self {
            DisplayBlink::BlinkOff => 0x00,
            DisplayBlink::BlinkOn => 0x01,
        }
    }
}

/// Cursor visibility, set by a display-control instruction.
#[derive(Copy, Clone, Debug, PartialEq, Eq, Structural)]
pub enum DisplayCursor {
    CursorOff,
    CursorOn,
}

impl DisplayCursor {
    /// The bits this value contributes to an instruction byte.
    pub open spec fn spec_bits(self) -> u8 {
        match self {
            DisplayCursor::CursorOff => 0x00,
            DisplayCursor::CursorOn => 0x02,
        }
    }

    #[verifier::when_used_as_spec(spec_bits)]
    pub fn bits(self) -> (r: u8)
        ensures
            r == self.spec_bits(),
    {
        match self {
            DisplayCursor::CursorOff => 0x00,
            DisplayCursor::CursorOn => 0x02,
        }
    }
}

/// Display on or off, set by a display-control instruction.
#[derive(Copy, Clone, Debug, PartialEq, Eq, Structural)]
pub enum DisplayMode {
    DisplayOff,
    DisplayOn,
}

impl DisplayMode {
    /// The bits this value contributes to an instruction byte.
    pub open spec fn spec_bits(self) -> u8 {
        match self {
            DisplayMode::DisplayOff => 0x00,
            DisplayMode::DisplayOn => 0x04,
        }
    }

    #[verifier::when_used_as_spec(spec_bits)]
    pub fn bits(self) -> (r: u8)
        ensures
            r == self.spec_bits(),
    {
        match self {
            DisplayMode::DisplayOff => 0x00,
            DisplayMode::DisplayOn => 0x04,
        }
    }
}

/// Direction of a cursor or display shift.
#[derive(Copy, Clone, Debug, PartialEq, Eq, Structural)]
pub enum Direction {
    Left,
    Right,
}

impl Direction {
    /// The bits this value contributes to an instruction byte.
    pub open spec fn spec_bits(self) -> u8 {
        match self {
            Direction::Left => 0x00,
            Direction::Right => 0x04,
        }
    }

    #[verifier::when_used_as_spec(spec_bits)]
    pub fn bits(self) -> (r: u8)
        ensures
            r == self.spec_bits(),
    {
        match self {
            Direction::Left => 0x00,
            Direction::Right => 0x04,
        }
    }
}

/// What a cursor-shift instruction moves.
#[derive(Copy, Clone, Debug, PartialEq, Eq, Structural)]
pub enum Scroll {
    CursorMove,
    DisplayMove,
}

impl Scroll {
    /// The bits this value contributes to an instruction byte.
    pub open spec fn spec_bits(self) -> u8 {
        match self {
            Scroll::CursorMove => 0x00,
            Scroll::DisplayMove => 0x08,
        }
    }

    #[verifier::when_used_as_spec(spec_bits)]
    pub fn bits(self) -> (r: u8)
        ensures
            r == self.spec_bits(),
    {
        match self {
            Scroll::CursorMove => 0x00,
            Scroll::DisplayMove => 0x08,
        }
    }
}

/// Cursor movement after each character, set by an entry-mode instruction.
#[derive(Copy, Clone, Debug, PartialEq, Eq, Structural)]
pub enum EntryModeDirection {
    EntryLeft,
    EntryRight,
}

impl EntryModeDirection {
    /// The bits this value contributes to an instruction byte.
    pub open spec fn spec_bits(self) -> u8 {
        match self {
            EntryModeDirection::EntryLeft => 0x00,
            EntryModeDirection::EntryRight => 0x02,
        }
    }

    #[verifier::when_used_as_spec(spec_bits)]
    pub fn bits(self) -> (r: u8)
        ensures
            r == self.spec_bits(),
    {
        match self {
            EntryModeDirection::EntryLeft => 0x00,
            EntryModeDirection::EntryRight => 0x02,
        }
    }
}

/// Whether the display shifts after each character.
#[derive(Copy, Clone, Debug, PartialEq, Eq, Structural)]
pub enum EntryModeShift {
    NoShift,
    Shift,
}

impl EntryModeShift {
    /// The bits this value contributes to an instruction byte.
    pub open spec fn spec_bits(self) -> u8 {
        match self {
            EntryModeShift::NoShift => 0x00,
            EntryModeShift::Shift => 0x01,
        }
    }

    #[verifier::when_used_as_spec(spec_bits)]
    pub fn bits(self) -> (r: u8)
        ensures
            r == self.spec_bits(),
    {
        match self {
            EntryModeShift::NoShift => 0x00,
            EntryModeShift::Shift => 0x01,
        }
    }
}

/// Instruction opcodes of the controller; each is a single bit of the instruction byte.
#[derive(Copy, Clone, Debug, PartialEq, Eq, Structural)]
pub enum Command {
    ClearDisplay,
    ReturnHome,
    EntryModeSet,
    DisplayControl,
    CursorShift,
    FunctionSet,
    SetCGRamAddr,
    SetDDRamAddr,
}

impl Command {
    /// The bits this value contributes to an instruction byte.
    pub open spec fn spec_bits(self) -> u8 {
        match self {
            Command::ClearDisplay => 0x01,
            Command::ReturnHome => 0x02,
            Command::EntryModeSet => 0x04,
            Command::DisplayControl => 0x08,
            Command::CursorShift => 0x10,
            Command::FunctionSet => 0x20,
            Command::SetCGRamAddr => 0x40,
            Command::SetDDRamAddr => 0x80,
        }
    }

    #[verifier::when_used_as_spec(spec_bits)]
    pub fn bits(self) -> (r: u8)
        ensures
            r == self.spec_bits(),
    {
        match self {
            Command::ClearDisplay => 0x01,
            Command::ReturnHome => 0x02,
            Command::EntryModeSet => 0x04,
            Command::DisplayControl => 0x08,
            Command::CursorShift => 0x10,
            Command::FunctionSet => 0x20,
            Command::SetCGRamAddr => 0x40,
            Command::SetDDRamAddr => 0x80,
        }
    }
}

} // verus!
