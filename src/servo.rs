//! Pulse-width arithmetic for the hobby servo that moves the flap.

use vstd::prelude::*;

verus! {

/// Pause between two steps of the actuation loop, in milliseconds.
pub const STEP_DELAY_MS: u32 = 15;

/// Pulse width at 0 degrees, in microseconds.
pub const MIN_PULSE_US: u32 = 500;

/// Pulse width at 180 degrees, in microseconds.
pub const MAX_PULSE_US: u32 = 2500;

/// PWM period at 50 Hz, in microseconds.
pub const PERIOD_US: u32 = 20000;

/// Pulse width for `angle` degrees, capped at 180.
pub open spec fn pulse_us(angle: int) -> int {
    let a = if angle > 180 { 180 } else { angle };
    MIN_PULSE_US as int + a * (MAX_PULSE_US as int - MIN_PULSE_US as int) / 180
}

/// PWM duty value for `angle` degrees when `max_duty` is a full period.
pub open spec fn duty_of(angle: int, max_duty: int) -> int {
    pulse_us(angle) * max_duty / PERIOD_US as int
}

/// Convert an angle to the duty value that holds the servo there.
pub fn angle_to_duty(angle: u8, max_duty: u32) -> (r: u32)
    ensures
        r as int == duty_of(angle as int, max_duty as int),
        r <= max_duty,
{
    let a: u32 = if angle > 180 {
        180
    } else {
        angle as u32
    };
    assert(a * 2000 <= 360000) by (nonlinear_arith)
        requires
            a <= 180,
    ;
    let pulse: u32 = MIN_PULSE_US + (a * (MAX_PULSE_US - MIN_PULSE_US)) / 180;
    assert(pulse <= 2500) by (nonlinear_arith)
        requires
            pulse == 500 + a * 2000 / 180,
            a <= 180,
    ;
    assert(pulse as u64 * max_duty as u64 <= 2500 * 0xffff_ffffu64) by (nonlinear_arith)
        requires
            pulse <= 2500,
            max_duty <= 0xffff_ffffu64,
    ;
    let wide: u64 = pulse as u64 * max_duty as u64;
    assert(wide <= 2500 * max_duty) by (nonlinear_arith)
        requires
            wide == pulse * max_duty,
            pulse <= 2500,
    ;
    let duty: u64 = wide / PERIOD_US as u64;
    assert(duty <= max_duty) by (nonlinear_arith)
        requires
            duty == wide / 20000,
            wide <= 2500 * max_duty,
            max_duty >= 0,
    ;
    duty as u32
}

} // verus!
