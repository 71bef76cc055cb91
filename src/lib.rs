//! Endpoint agent core: a duplex channel emulated over HTTP long polling,
//! an event registry that fans inbound events out to subscribers, and the
//! rule and lifecycle logic of the services built on top of it.

pub mod text;
pub mod clock;
pub mod json;
pub mod frame;
pub mod events;
pub mod registry;
pub mod client;
pub mod blocking;
pub mod restrictions;
pub mod recorder;
pub mod supervisor;
