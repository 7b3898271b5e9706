//! The event stream that drives the dispatch loop: key presses and periodic
//! ticks, and the timing rule that keeps ticks coming under input bursts.

use vstd::prelude::*;

verus! {

/// The key codes the game distinguishes; every other key is `Other` and is
/// ignored by the state machine.
#[derive(Clone, Copy, Debug)]
pub enum KeyInput {
    Character(char),
    Backspace,
    Enter,
    Escape,
    Other,
}

/// One key press: the key itself and the modifier flags the game reads.
#[derive(Clone, Copy, Debug)]
pub struct KeyPress {
    pub code: KeyInput,
    pub shift: bool,
    pub ctrl: bool,
}

/// One event of the stream the dispatch loop consumes.
#[derive(Clone, Copy, Debug)]
pub enum UIEvent {
    Input(KeyPress),
    Tick,
}

/// Whether a tick is due: at least `tick_rate_ms` milliseconds have passed
/// since the last tick was emitted. A clock that moved backwards counts as
/// nothing having passed, so this never overflows and never starves.
pub fn tick_due(last_tick_ms: u64, now_ms: u64, tick_rate_ms: u64) -> (due: bool)
    ensures
        due == (now_ms >= last_tick_ms + tick_rate_ms),
{
    now_ms >= last_tick_ms && now_ms - last_tick_ms >= tick_rate_ms
}

} // verus!
