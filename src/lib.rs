//! Client-side session layer for an obniz device controller: one
//! connection multiplexed between request/response calls and standing
//! subscriptions, with the routing rules proved.

pub mod key;
pub mod registry;
pub mod frame;
pub mod session;
pub mod delivery;
pub mod error;
pub mod endpoint;
pub mod api;
pub mod ad;
pub mod display;
pub mod io;
pub mod mock;
pub mod pwm;
pub mod switch;
pub mod system;
pub mod uart;
