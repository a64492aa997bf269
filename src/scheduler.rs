//! The gates of the cooperative loop: when a sampling tick is due, how long
//! input is waited for, and which keys end the run.

use vstd::prelude::*;

verus! {

/// How long one loop iteration waits for input, in ms.
pub const INPUT_POLL_MS: u64 = 10;

/// A tick is due once at least `interval_ms` passed since the last one.
pub open spec fn sample_due_spec(elapsed_ms: u64, interval_ms: u64) -> bool {
    elapsed_ms >= interval_ms
}

/// Whether the sampling gate opens after `elapsed_ms` since the last tick.
/// Ticks that were missed are skipped, never replayed later.
pub fn sample_due(elapsed_ms: u64, interval_ms: u64) -> (r: bool)
    ensures
        r == sample_due_spec(elapsed_ms, interval_ms),
{
    elapsed_ms >= interval_ms
}

/// A key press, as far as the loop cares.
#[derive(Clone, Copy, Debug, PartialEq, Eq, Structural)]
pub enum KeyPress {
    Char(char),
    Other,
}

/// `q`, or `c` with Control held, ends the run; nothing else does.
pub fn is_quit(key: KeyPress, control: bool) -> (r: bool)
    ensures
        r == (key == KeyPress::Char('q') || (key == KeyPress::Char('c') && control)),
{
    match key {
        KeyPress::Char(c) => c == 'q' || (c == 'c' && control),
        KeyPress::Other => false,
    }
}

} // verus!
