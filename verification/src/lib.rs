//! Presence keeping for live rooms: the decisions of the pollers, of the
//! coordinator that owns the set of connected rooms, of the per-room
//! workers and of the supervisor, as verified state machines.

pub mod channel;
pub mod coordinator;
pub mod fatal;
pub mod gui;
pub mod poller;
pub mod streamer;
pub mod supervisor;
pub mod worker;
