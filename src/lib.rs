//! Crash-consistent position control for a single vent flap: the actuator
//! state machine, the write-ahead intent record that survives power loss,
//! the request router, and the conversion to the percentage scale used by a
//! second control surface.

pub mod protocol;
pub mod state;
pub mod matter;
pub mod identity;
pub mod coap;
pub mod hex;
pub mod power;
pub mod thread;
pub mod servo;
