//! Verified core of a notification-streaming client: the wire protocol, the
//! connection driver's decisions, the client's credential slot, the
//! consumer-side notification list and the sign-in state.

pub mod json;
pub mod protocol;
pub mod driver;
pub mod client;
pub mod panel;
pub mod auth;
