//! Core of a Bluetooth device and media-session manager.
//!
//! The crate keeps an in-process registry of known devices consistent with an
//! external control plane (an adapter and a system bus of hierarchical object
//! paths), resolves the object path that currently carries a device's media
//! session, and converts between the public volume scale and the transport's
//! native one.  Everything that talks to the adapter or the bus is driven from
//! outside; this library holds the state, the decisions and the arithmetic,
//! each with a proved contract.

pub mod addr;
pub mod device;
pub mod errors;
pub mod manager;
pub mod media;
pub mod registry;
pub mod resolver;
pub mod session;
pub mod sinks;
pub mod text;
