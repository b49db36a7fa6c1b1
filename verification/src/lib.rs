//! Realtime change fan-out for a collaborative image-annotation backend.
//!
//! Mutations of the store reach connected clients in three steps, each
//! with its own module: `stream` classifies the records of the change log
//! into notifications, `sockets::connections` says which rows of the store
//! stand for the live connections, and `sockets::broadcast` pushes a
//! notification to each of them, one push at a time. `sockets::handler`
//! decides what a transport event (connect, disconnect, message) asks for,
//! and `sockets::messages` holds the two wire formats.
//!
//! Nothing in this crate performs I/O. Functions take what was read and hand
//! back what is to be written or sent. JSON is left to `serde_json`; what
//! is assumed of it is gathered in `document`.
//!
//! The remaining modules hold the plain data of the application and a few
//! helpers for cookies, object addresses and image sizes.

pub mod auth;
pub mod cloudfront;
pub mod document;
pub mod image_processing;
pub mod invites;
pub mod s3;
pub mod s3_multipart;
pub mod sockets;
pub mod stream;
pub mod text;
pub mod types;
