//! The realtime side of the backend: who is connected, what is sent to
//! them, and what the session handler decides on each transport event.

pub mod broadcast;
pub mod connections;
pub mod handler;
pub mod messages;
