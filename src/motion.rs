//! Exact integer parts of the motion rules, on a frame time given in
//! nanoseconds.
//!
//! Each frame a body moves by its velocity, and then its velocity is scaled by
//! the decay factor `1 - 10 * t` for a frame time of `t` seconds. With `n`
//! nanoseconds that factor is `(DECAY_SCALE - n) / DECAY_SCALE` exactly.
//! Frames longer than a tenth of a second make it negative and turn the
//! velocity around: the friction is crude, and kept as it is.
use vstd::prelude::*;

verus! {

/// Nanoseconds in a tenth of a second: the denominator of the decay factor.
pub const DECAY_SCALE: u64 = 100_000_000;

/// Nanoseconds in a second.
pub const NANOS_PER_SECOND: u64 = 1_000_000_000;

/// Hundredths in one unit of acceleration.
pub const ACCELERATION_SCALE: u32 = 100;

/// Numerator of the decay factor over `DECAY_SCALE`, for a frame of
/// `frame_nanos` nanoseconds.
pub open spec fn decay_numerator(frame_nanos: nat) -> int {
    DECAY_SCALE - frame_nanos
}

/// The decay factor of a frame, as a numerator over `DECAY_SCALE`:
/// `1 - 10 * t` for a frame time of `t` seconds.
pub fn decay_factor(frame_nanos: u64) -> (r: i128)
    ensures
        r == decay_numerator(frame_nanos as nat),
{
    DECAY_SCALE as i128 - frame_nanos as i128
}

/// Length of the velocity change that a push gives, in units of
/// `1 / (NANOS_PER_SECOND * ACCELERATION_SCALE)`: frame time times
/// acceleration.
pub open spec fn impulse_length(frame_nanos: nat, acceleration: nat) -> nat {
    frame_nanos * acceleration
}

/// The length of the velocity change of one push, for a frame of
/// `frame_nanos` nanoseconds and an acceleration in hundredths. The push goes
/// along the unit vector of the input direction, so this length is the same
/// for every direction, diagonals included.
pub fn impulse_scale(frame_nanos: u64, acceleration: u32) -> (r: u128)
    ensures
        r == impulse_length(frame_nanos as nat, acceleration as nat),
{
    proof {
        assert(frame_nanos * acceleration <= u64::MAX * u32::MAX) by (nonlinear_arith);
    }
    frame_nanos as u128 * acceleration as u128
}

/// A frame of no time leaves the velocity as it is: the decay factor is one
/// and a push adds nothing.
pub proof fn lemma_zero_frame_keeps_velocity(acceleration: nat)
    ensures
        decay_numerator(0) == DECAY_SCALE,
        impulse_length(0, acceleration) == 0,
{
}

/// The decay factor is negative exactly when the frame lasts longer than a
/// tenth of a second, and lies in `[0, 1]` otherwise.
pub proof fn lemma_long_frame_reverses(frame_nanos: nat)
    ensures
        frame_nanos > DECAY_SCALE <==> decay_numerator(frame_nanos) < 0,
        frame_nanos <= DECAY_SCALE ==> 0 <= decay_numerator(frame_nanos) <= DECAY_SCALE,
{
}

} // verus!
