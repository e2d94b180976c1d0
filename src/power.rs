//! Power modes: always on from USB, or a sleepy end device on battery that
//! polls its parent at a fixed period.

use vstd::prelude::*;
use crate::protocol::{same_text, PowerSource};

verus! {

/// How the device spends power.
#[derive(Debug, Clone, Copy, PartialEq, Eq, Structural)]
pub enum PowerMode {
    /// Always on; for USB-powered devices.
    AlwaysOn,
    /// Sleepy end device polling every `poll_period_ms`; for battery power.
    Sed { poll_period_ms: u32 },
}

impl PowerMode {
    /// The mode stored under the name `s`: "sed" selects the sleepy mode
    /// with period `poll_ms`, anything else always-on.
    pub fn from_nvs_str(s: &str, poll_ms: u32) -> (r: Self)
        ensures
            s@ == "sed"@ ==> r == (PowerMode::Sed { poll_period_ms: poll_ms }),
            s@ != "sed"@ ==> r == PowerMode::AlwaysOn,
    {
        if same_text(s, "sed") {
            PowerMode::Sed { poll_period_ms: poll_ms }
        } else {
            PowerMode::AlwaysOn
        }
    }

    /// Name under which the mode is stored.
    pub fn as_str(&self) -> (r: &'static str)
        ensures
            *self == PowerMode::AlwaysOn ==> r@ == "always_on"@,
            *self is Sed ==> r@ == "sed"@,
    {
        match self {
            PowerMode::AlwaysOn => "always_on",
            PowerMode::Sed { .. } => "sed",
        }
    }

    /// Poll period in milliseconds; 0 when always on.
    pub fn poll_period_ms(&self) -> (r: u32)
        ensures
            *self == PowerMode::AlwaysOn ==> r == 0,
            *self matches PowerMode::Sed { poll_period_ms } ==> r == poll_period_ms,
    {
        match self {
            PowerMode::AlwaysOn => 0,
            PowerMode::Sed { poll_period_ms } => *poll_period_ms,
        }
    }

    /// The power source the mode is meant for.
    pub fn power_source(&self) -> (r: PowerSource)
        ensures
            *self == PowerMode::AlwaysOn ==> r == PowerSource::Usb,
            *self is Sed ==> r == PowerSource::Battery,
    {
        match self {
            PowerMode::AlwaysOn => PowerSource::Usb,
            PowerMode::Sed { .. } => PowerSource::Battery,
        }
    }
}

/// Holds the device's power mode.
pub struct PowerManager {
    mode: PowerMode,
}

impl PowerManager {
    /// The mode, in the model.
    pub closed spec fn spec_mode(&self) -> PowerMode {
        self.mode
    }

    pub fn new(mode: PowerMode) -> (r: Self)
        ensures
            r.spec_mode() == mode,
    {
        PowerManager { mode }
    }

    pub fn mode(&self) -> (r: PowerMode)
        ensures
            r == self.spec_mode(),
    {
        self.mode
    }

    /// The poll period to configure on the radio: only in the sleepy mode.
    pub fn sed_poll_period(&self) -> (r: Option<u32>)
        ensures
            self.spec_mode() == PowerMode::AlwaysOn ==> r is None,
            self.spec_mode() matches PowerMode::Sed { poll_period_ms } ==> r == Some(
                poll_period_ms,
            ),
    {
        match self.mode {
            PowerMode::Sed { poll_period_ms } => Some(poll_period_ms),
            PowerMode::AlwaysOn => None,
        }
    }
}

} // verus!
