//! The percentage scale of the second control surface, in hundredths of a
//! percent: 0 is fully open, 10000 fully closed.

use vstd::prelude::*;
use crate::identity::{write_ahead_writes, writes_view, StoreWrite};
use crate::protocol::{clamp_angle, clamp_spec, in_range, ANGLE_CLOSED, ANGLE_OPEN};
use crate::state::{intent_recorded, AppState};

verus! {

/// The largest value of the percentage scale: fully closed.
pub const PERCENT100THS_MAX: u16 = 10000;

/// Hundredths of a percent for `angle`, clamped into range first.
pub open spec fn percent_of(angle: int) -> int {
    (ANGLE_OPEN as int - clamp_spec(angle)) * 10000 / (ANGLE_OPEN as int - ANGLE_CLOSED as int)
}

/// Angle for `pct` hundredths of a percent, capped at 10000 first.
pub open spec fn angle_of(pct: int) -> int {
    let p = if pct > 10000 { 10000 } else { pct };
    ANGLE_OPEN as int - p * (ANGLE_OPEN as int - ANGLE_CLOSED as int) / 10000
}

/// Convert an angle to hundredths of a percent closed.
pub fn angle_to_percent100ths(angle: u8) -> (r: u16)
    ensures
        r as int == percent_of(angle as int),
        r <= PERCENT100THS_MAX,
{
    let clamped = clamp_angle(angle);
    let range: u32 = (ANGLE_OPEN - ANGLE_CLOSED) as u32;
    let from_open: u32 = (ANGLE_OPEN - clamped) as u32;
    assert(from_open * 10000 <= 900000) by (nonlinear_arith)
        requires
            from_open <= 90,
    ;
    let r = (from_open * 10000) / range;
    assert(r <= 10000) by (nonlinear_arith)
        requires
            r == from_open * 10000 / 90,
            from_open <= 90,
    ;
    r as u16
}

/// Convert hundredths of a percent closed to an angle.
pub fn percent100ths_to_angle(pct: u16) -> (r: u8)
    ensures
        r as int == angle_of(pct as int),
        in_range(r as int),
{
    let clamped: u32 = if pct > PERCENT100THS_MAX {
        PERCENT100THS_MAX as u32
    } else {
        pct as u32
    };
    let range: u32 = (ANGLE_OPEN - ANGLE_CLOSED) as u32;
    assert(clamped * 90 <= 900000) by (nonlinear_arith)
        requires
            clamped <= 10000,
    ;
    let from_open = (clamped * range) / 10000;
    assert(from_open <= 90) by (nonlinear_arith)
        requires
            from_open == clamped * 90 / 10000,
            clamped <= 10000,
    ;
    ANGLE_OPEN - from_open as u8
}

/// Movement status reported to the fabric: 1 (opening) while moving, 0
/// (stopped) otherwise.
pub fn operational_status(is_moving: bool) -> (r: u8)
    ensures
        r == (if is_moving {
            1u8
        } else {
            0u8
        }),
{
    if is_moving {
        1
    } else {
        0
    }
}

/// The writes that must be durable before a position command of `pct`
/// hundredths takes effect.
pub fn position_change_writes(state: &AppState, pct: u16) -> (ws: Vec<StoreWrite>)
    ensures
        writes_view(ws@) == write_ahead_writes(angle_of(pct as int) as u8),
{
    state.intent_writes(percent100ths_to_angle(pct))
}

/// Apply a position command of `pct` hundredths once the store has tried
/// its write-ahead; `persisted` says whether every one of those writes
/// succeeded. After a failed write-ahead, or without a durable intent in
/// the record, nothing changes and the result is `None`. Otherwise the
/// flap heads for the matching angle and the result is the angle it stood
/// at.
pub fn apply_position_change(state: &mut AppState, pct: u16, persisted: bool) -> (r: Option<u8>)
    ensures
        final(state).identity == old(state).identity,
        final(state).power_source == old(state).power_source,
        final(state).poll_period_ms == old(state).poll_period_ms,
        final(state).vent.current() == old(state).vent.current(),
        !persisted ==> r is None && final(state).vent == old(state).vent,
        persisted && intent_recorded(old(state).identity.record(), angle_of(pct as int)) ==> (r
            is Some && r->0 as int == old(state).vent.current() && final(state).vent.target()
            == angle_of(pct as int)),
        persisted && !intent_recorded(old(state).identity.record(), angle_of(pct as int)) ==> (r
            is None && final(state).vent == old(state).vent),
        old(state).vent.wf() ==> final(state).vent.wf(),
{
    if !persisted {
        return None;
    }
    state.apply_target(percent100ths_to_angle(pct))
}

/// The closed limit is 10000 hundredths, the open limit 0.
pub proof fn lemma_percent_of_limits()
    ensures
        percent_of(ANGLE_CLOSED as int) == 10000,
        percent_of(ANGLE_OPEN as int) == 0,
{
}

/// An angle in range that goes to the percentage scale and back comes back
/// unchanged or one degree higher, never further off.
pub proof fn lemma_angle_round_trip(a: int)
    requires
        in_range(a),
    ensures
        a <= angle_of(percent_of(a)) <= a + 1,
{
    let f = 180 - a;
    let p = f * 10000 / 90;
    assert(0 <= p <= 10000) by (nonlinear_arith)
        requires
            0 <= f <= 90,
            p == f * 10000 / 90,
    ;
    let g = p * 90 / 10000;
    assert(f - 1 <= g <= f) by (nonlinear_arith)
        requires
            0 <= f <= 90,
            p == f * 10000 / 90,
            g == p * 90 / 10000,
    ;
}

/// A percentage in range that goes to an angle and back lands at or below
/// where it started, less than one degree's worth of hundredths (10000/90)
/// lower.
pub proof fn lemma_percent_round_trip(p: int)
    requires
        0 <= p <= 10000,
    ensures
        p - 111 <= percent_of(angle_of(p)) <= p,
{
    let g = p * 90 / 10000;
    assert(0 <= g <= 90) by (nonlinear_arith)
        requires
            0 <= p <= 10000,
            g == p * 90 / 10000,
    ;
    let q = g * 10000 / 90;
    assert(p - 111 <= q <= p) by (nonlinear_arith)
        requires
            0 <= p <= 10000,
            g == p * 90 / 10000,
            q == g * 10000 / 90,
    ;
}

} // verus!
