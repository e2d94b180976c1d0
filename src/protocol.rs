//! Wire-level value types shared by the request surfaces, and the angle
//! normalization rule.

use vstd::prelude::*;

verus! {

/// Angle of the fully closed flap.
pub const ANGLE_CLOSED: u8 = 90;

/// Angle of the fully open flap.
pub const ANGLE_OPEN: u8 = 180;

/// Operating state of the vent, derived from its two angles.
#[derive(Debug, Clone, Copy, PartialEq, Eq, Structural)]
pub enum VentState {
    Open,
    Closed,
    Partial,
    Moving,
}

/// Resting state of a flap that stands still at `angle`.
pub open spec fn resting_state(angle: int) -> VentState {
    if angle == ANGLE_CLOSED as int {
        VentState::Closed
    } else if angle == ANGLE_OPEN as int {
        VentState::Open
    } else {
        VentState::Partial
    }
}

impl VentState {
    /// Lower-case name of the state.
    pub fn as_str(&self) -> (r: &'static str)
        ensures
            *self == VentState::Open ==> r@ == "open"@,
            *self == VentState::Closed ==> r@ == "closed"@,
            *self == VentState::Partial ==> r@ == "partial"@,
            *self == VentState::Moving ==> r@ == "moving"@,
    {
        match self {
            VentState::Open => "open",
            VentState::Closed => "closed",
            VentState::Partial => "partial",
            VentState::Moving => "moving",
        }
    }

    /// State of a flap at rest at `angle`: closed at the closed limit, open at
    /// the open limit, partial anywhere else.
    pub fn from_angle(angle: u8) -> (r: Self)
        ensures
            r == resting_state(angle as int),
    {
        if angle == ANGLE_CLOSED {
            VentState::Closed
        } else if angle == ANGLE_OPEN {
            VentState::Open
        } else {
            VentState::Partial
        }
    }
}

/// Body of the reply to a position read.
#[derive(Debug, Clone)]
pub struct VentPosition {
    pub angle: u8,
    pub state: VentState,
}

/// Body of a request for a new target angle.
#[derive(Debug, Clone)]
pub struct TargetRequest {
    pub angle: u8,
}

/// Body of the reply to a new target angle.
#[derive(Debug, Clone)]
pub struct TargetResponse {
    pub angle: u8,
    pub state: VentState,
    pub previous_angle: u8,
}

/// Body of the reply to an identity read.
#[derive(Debug, Clone)]
pub struct DeviceIdentity {
    pub eui64: String,
    pub firmware_version: String,
    pub uptime_s: u32,
}

/// Room, floor and name of the device; `None` means unset.
#[derive(Debug, Clone)]
pub struct DeviceConfig {
    pub room: Option<String>,
    pub floor: Option<String>,
    pub name: Option<String>,
}

impl Default for DeviceConfig {
    fn default() -> (r: Self)
        ensures
            r.room is None,
            r.floor is None,
            r.name is None,
    {
        DeviceConfig { room: None, floor: None, name: None }
    }
}

/// Where the device draws its power from.
#[derive(Debug, Clone, Copy, PartialEq, Eq, Structural)]
pub enum PowerSource {
    Usb,
    Battery,
}

impl PowerSource {
    /// Lower-case name of the power source.
    pub fn as_str(&self) -> (r: &'static str)
        ensures
            *self == PowerSource::Usb ==> r@ == "usb"@,
            *self == PowerSource::Battery ==> r@ == "battery"@,
    {
        match self {
            PowerSource::Usb => "usb",
            PowerSource::Battery => "battery",
        }
    }
}

/// Body of the reply to a health read.
#[derive(Debug, Clone)]
pub struct DeviceHealth {
    pub rssi: i8,
    pub poll_period_ms: u32,
    pub power_source: PowerSource,
    pub free_heap: u32,
    pub battery_mv: Option<u16>,
}

/// `a` moved into `[ANGLE_CLOSED, ANGLE_OPEN]`: the nearest bound when
/// outside, unchanged when inside.
pub open spec fn clamp_spec(a: int) -> int {
    if a < ANGLE_CLOSED as int {
        ANGLE_CLOSED as int
    } else if a > ANGLE_OPEN as int {
        ANGLE_OPEN as int
    } else {
        a
    }
}

/// Whether `a` lies in the actuator's range.
pub open spec fn in_range(a: int) -> bool {
    ANGLE_CLOSED as int <= a <= ANGLE_OPEN as int
}

/// Whether two strings hold the same characters.
pub fn same_text(a: &str, b: &str) -> (r: bool)
    ensures
        r == (a@ == b@),
{
    a.to_owned() == b.to_owned()
}

/// Clamp an angle into `[ANGLE_CLOSED, ANGLE_OPEN]`.
pub fn clamp_angle(angle: u8) -> (r: u8)
    ensures
        r as int == clamp_spec(angle as int),
        in_range(r as int),
{
    if angle < ANGLE_CLOSED {
        ANGLE_CLOSED
    } else if angle > ANGLE_OPEN {
        ANGLE_OPEN
    } else {
        angle
    }
}

} // verus!
