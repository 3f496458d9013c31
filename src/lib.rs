//! Enumerates MIDI ports and relays every message from one input port to
//! one output port.
pub mod errors;
pub mod lookup;
pub mod text;
pub mod listing;
pub mod route;
pub mod session;
pub mod devices;
