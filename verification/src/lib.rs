//! Wireless connection management built around a platform command-line
//! utility.
//!
//! The library holds the decision logic of the workflow: whether a
//! reconnection is needed, how the network-profile document is rendered,
//! how each command outcome is interpreted, and when the in-memory
//! connection record may be updated.  Spawning the utility itself and
//! staging the transient profile file are left to the surrounding
//! application, which drives the connect flow one step at a time and
//! hands every captured outcome back as an event.

pub mod profile;
pub mod text;
pub mod wifi;
