//! Durations as whole seconds plus nanoseconds.
use vstd::prelude::*;

verus! {

pub const NANOS_PER_SEC: u64 = 1_000_000_000;

/// The length of `frames` inter-channel samples played at `rate` samples per
/// second, as whole seconds and the nanoseconds that remain (rounded down);
/// unknown when the rate is zero.
pub open spec fn duration_parts(frames: nat, rate: nat) -> Option<(nat, nat)> {
    if rate == 0 {
        None
    } else {
        Some((frames / rate, ((frames % rate) * 1_000_000_000) / rate))
    }
}

/// Computes `duration_parts(frames, rate)`.
pub fn duration_of(frames: u64, rate: u32) -> (r: Option<(u64, u32)>)
    ensures
        r.is_some() == duration_parts(frames as nat, rate as nat).is_some(),
        r matches Some(p) ==> duration_parts(frames as nat, rate as nat) == Some((p.0 as nat, p.1 as nat)),
        r matches Some(p) ==> p.1 < NANOS_PER_SEC,
{
    if rate == 0 {
        return None;
    }
    let rate64 = rate as u64;
    let secs = frames / rate64;
    let rest = frames % rate64;
    assert(rest < rate64);
    assert(rest * 1_000_000_000 < rate64 * 1_000_000_000) by (nonlinear_arith)
        requires rest < rate64;
    assert(rate64 * 1_000_000_000 <= 0xffff_ffffu64 * 1_000_000_000) by (nonlinear_arith)
        requires rate64 <= 0xffff_ffffu64;
    let scaled = rest * 1_000_000_000;
    let nanos = scaled / rate64;
    assert(nanos < 1_000_000_000) by (nonlinear_arith)
        requires nanos == scaled / rate64, scaled < rate64 * 1_000_000_000, rate64 > 0;
    Some((secs, nanos as u32))
}

} // verus!
