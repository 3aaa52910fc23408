//! Battery monitoring for wireless mice: the report decoder, the driver
//! registry, device location, hot-plug filtering and the reconnection
//! state machine.

pub mod hotplug;
pub mod ident;
pub mod locate;
pub mod mouse;
pub mod profile;
pub mod reconnect;
pub mod status;
