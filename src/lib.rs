//! Session control for a cartridge-flashing device: the status codes, cartridge
//! kinds and frame headers that the device reports, and the protocol state
//! machine that drives a session with the console-side client.

pub mod device;
pub mod frame;
pub mod machine;
pub mod laws;
