//! The events that the loop consumes, and the timing of the frame clock.

use vstd::prelude::*;
use crate::app::TerminalEvent;
use crate::input::Key;

verus! {

/// What the pointer did, as far as the runtime cares: the left button
/// going down, a drag with it held, and its release.
#[derive(Clone, Copy, Debug, PartialEq, Eq, Structural)]
pub enum PointerEvent {
    /// The button went down in `column`, while the divider between the
    /// panes stood in `divider_column`.
    Pressed { column: u16, divider_column: u16 },
    /// The pointer was dragged to where the left pane would take `percent`
    /// of the width of the terminal.
    Dragged { percent: u16 },
    Released,
    /// Any other button or motion.
    Other,
}

/// One event of the queue between the input reader and the loop.
#[derive(Clone, Copy, Debug, PartialEq, Eq, Structural)]
pub enum Event {
    /// The frame clock ran out without input.
    Tick,
    Input(Key),
    Mouse(PointerEvent),
    TerminalEvent(TerminalEvent),
}

/// How long the reader may wait for input before the next tick is due,
/// `elapsed` after the last one: the rest of the tick, or nothing where the
/// tick is overdue.
pub fn poll_timeout(tick_rate: u64, elapsed: u64) -> (timeout: u64)
    ensures
        timeout == if elapsed <= tick_rate {
            tick_rate - elapsed
        } else {
            0
        },
{
    if elapsed <= tick_rate {
        tick_rate - elapsed
    } else {
        0
    }
}

/// Whether a tick is due `elapsed` after the last one.
pub fn tick_due(tick_rate: u64, elapsed: u64) -> (due: bool)
    ensures
        due == (elapsed >= tick_rate),
{
    elapsed >= tick_rate
}

} // verus!
