//! Relays a live video feed from a network source into a virtual camera.
//!
//! The crate holds the decisions of the relay: how timestamps move between
//! time bases, which pixel format a frame is converted to, which operations
//! open, feed and close the camera sink and in what order, and how one
//! connection after another is served. The multimedia framework and the
//! sockets stay with the program that drives these state machines.

pub mod decode;
pub mod display;
pub mod media;
pub mod rational;
pub mod receiver;
pub mod simple_stream;
