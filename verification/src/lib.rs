//! Coordination engine for a physical privacy-mute button ("puck").
//!
//! The library holds the verified core: the voting state machine that
//! aggregates per-stream mute flags, the tracker of live audio input
//! streams, the dispatcher that turns button events into mute commands
//! and LED updates, the LED encoding table, the registry filter, the
//! property-object logic, and the hotplug/read state machine. Device
//! and audio-server I/O live outside the library.

pub mod dispatch;
pub mod filter;
pub mod led;
pub mod link;
pub mod props;
pub mod state;
pub mod tracker;

pub use state::{Event, Message, State};
