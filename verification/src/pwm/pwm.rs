//! ESC pulse widths: the limits every pulse is held to, and the pulse-width
//! arithmetic that needs no floating point.
use vstd::prelude::*;

verus! {

/// Shortest pulse sent to an ESC, microseconds (zero throttle).
pub const PULSE_MIN_US: u32 = 1_000;

/// Longest pulse sent to an ESC, microseconds (full throttle).
pub const PULSE_MAX_US: u32 = 2_000;

/// One of the four ESC outputs.
#[derive(Debug, Clone, Copy, PartialEq, Eq, Structural)]
pub enum Esc {
    Esc1,
    Esc2,
    Esc3,
    Esc4,
}

/// Errors of the ESC outputs.
#[derive(Debug, Clone, Copy, PartialEq, Eq, Structural)]
pub enum PwmError {
    /// A throttle outside 0.0 to 1.0 was requested.
    OutOfRange,
}

/// `us` held to the range `PULSE_MIN_US ..= PULSE_MAX_US`.
pub open spec fn spec_clamp_pulse(us: u32) -> u32 {
    if us < PULSE_MIN_US {
        PULSE_MIN_US
    } else if us > PULSE_MAX_US {
        PULSE_MAX_US
    } else {
        us
    }
}

/// The pulse width actually written when `us` microseconds are asked for:
/// widths outside the ESC range are held to its nearest end.
pub fn clamp_pulse_us(us: u32) -> (r: u32)
    ensures
        r == spec_clamp_pulse(us),
{
    if us < PULSE_MIN_US {
        PULSE_MIN_US
    } else if us > PULSE_MAX_US {
        PULSE_MAX_US
    } else {
        us
    }
}

/// How far a pulse width lies above the zero-throttle width, or 0 below it.
pub fn pulse_offset_us(us: u32) -> (r: u32)
    ensures
        r == (if us >= PULSE_MIN_US { us - PULSE_MIN_US } else { 0 }),
{
    us.saturating_sub(PULSE_MIN_US)
}

/// Law: a written pulse always lies in the ESC range, and a width already
/// in range is written unchanged.
pub proof fn lemma_clamp_in_range(us: u32)
    ensures
        PULSE_MIN_US <= spec_clamp_pulse(us) <= PULSE_MAX_US,
        PULSE_MIN_US <= us <= PULSE_MAX_US ==> spec_clamp_pulse(us) == us,
        spec_clamp_pulse(spec_clamp_pulse(us)) == spec_clamp_pulse(us),
{
}

/// Law: the written pulse is the width in the ESC range nearest to the one
/// asked for.
pub proof fn lemma_clamp_nearest(us: u32, w: u32)
    requires
        PULSE_MIN_US <= w <= PULSE_MAX_US,
    ensures
        abs_diff(spec_clamp_pulse(us), us) <= abs_diff(w, us),
{
}

/// The distance between two widths.
pub open spec fn abs_diff(a: u32, b: u32) -> int {
    if a >= b {
        a - b
    } else {
        b - a
    }
}

} // verus!
