use vstd::prelude::*;

use crate::driver::{BusOp, LCD_ADDRESS};

verus! {

/// Why a bus write failed.
#[derive(Copy, Clone, Debug, PartialEq, Eq, Structural)]
pub enum BusError {
    /// The expander did not acknowledge.
    Nack,
    /// Another master took the bus.
    ArbitrationLost,
    /// The transaction did not complete in time.
    Timeout,
}

/// What the caller performs next while playing recorded traffic on the bus.
#[derive(Copy, Clone, Debug, PartialEq, Eq, Structural)]
pub enum Action {
    /// Write one byte to the device at `address`, then report the outcome.
    Write { address: u8, byte: u8 },
    /// Block for at least the given milliseconds, then report success.
    Delay(u32),
    /// Every recorded step has been performed.
    Done,
    /// The last write failed; playback stops and the error goes to the caller.
    Fail(BusError),
}

/// The action owed after `done` steps of `plan` have been performed and the
/// last of them ended with `last`.
pub open spec fn action_for(plan: Seq<BusOp>, done: int, last: Result<(), BusError>) -> Action {
    match last {
        Err(e) => Action::Fail(e),
        Ok(()) => if done >= plan.len() {
            Action::Done
        } else {
            match plan[done] {
                BusOp::Write(b) => Action::Write { address: LCD_ADDRESS, byte: b },
                BusOp::Delay(ms) => Action::Delay(ms),
            }
        },
    }
}

/// Decides the next step of playing `plan`: a failed write ends playback with
/// its error (there are no retries), otherwise the next recorded step is
/// performed, addressed to the display, until none is left.
pub fn next_action(plan: &Vec<BusOp>, done: usize, last: Result<(), BusError>) -> (r: Action)
    ensures
        r == action_for(plan@, done as int, last),
{
    match last {
        Err(e) => Action::Fail(e),
        Ok(()) => if done >= plan.len() {
            Action::Done
        } else {
            match plan[done] {
                BusOp::Write(b) => Action::Write { address: LCD_ADDRESS, byte: b },
                BusOp::Delay(ms) => Action::Delay(ms),
            }
        },
    }
}

/// Loop rounds of `spin_delay_ms` per millisecond: a rough figure for the
/// default core clock, long enough for the display.
pub const SPIN_PER_MS: u32 = 7200;

/// A rough busy wait whose length is proportional to `ms`.
pub fn spin_delay_ms(ms: u32)
    requires
        ms as int * SPIN_PER_MS as int <= u32::MAX as int,
{
    let mut i: u32 = ms * SPIN_PER_MS;
    while i > 0
        decreases i,
    {
        i -= 1;
    }
}

} // verus!
