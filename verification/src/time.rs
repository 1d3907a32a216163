use vstd::prelude::*;

verus! {

/// A wall-clock instant as whole seconds since the epoch. The clock,
/// date and calendar leaves render purely from such a value; whoever
/// runs the loop reads the real clock and hands the seconds in.
#[derive(Clone, Copy, Debug, PartialEq, Eq, Structural)]
pub struct Timestamp {
    pub secs: u64,
}

/// How long the blocking wait may sleep before a time-based leaf must
/// redraw anyway: the clock has to repaint at every minute boundary
/// even when no descriptor fires.
pub fn next_minute_timeout_ms(t: Timestamp) -> (ms: u64)
    ensures
        ms == (60 - t.secs % 60) * 1000,
        1000 <= ms <= 60000,
{
    let rem: u64 = t.secs % 60;
    (60 - rem) * 1000
}

} // verus!
