//! Startup decisions of an authoritative DNS server: backend dispatch for
//! zones, key provisioning order, the listener plan, socket options, the
//! privilege-drop sequence and the process lifecycle.
pub mod logging;
pub mod catalog;
pub mod keys;
pub mod lifecycle;
pub mod listen;
pub mod privilege;
pub mod zone;
