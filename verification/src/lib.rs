//! Decision core of an archive unpacker.
//!
//! A file name such as `data.tar.gz` names a chain of formats. This crate
//! validates such chains, undoes their filter layers on byte buffers, picks the
//! way in which the innermost layer is unpacked, and drives the placement of
//! what was unpacked as a state machine whose every step is verified.

pub mod chain;
pub mod codec;
pub mod composer;
pub mod course;
pub mod format;
pub mod layout;
pub mod route;
pub mod session;
pub mod unpack;
