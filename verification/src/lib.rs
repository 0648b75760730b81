//! A codec for the wire format of the X Window System core protocol.
//!
//! Every value has an exact byte layout. This crate states that layout as
//! specification functions over byte sequences, and proves of the functions
//! that measure, write and read values that they follow it, and of each
//! layout that what is written is read back as it was.
//!
//! - [`buffer`] holds the cursors: a sink that bytes are appended to and a
//!   source that they are consumed from.
//! - [`wire`] says what it is for a type to have a wire format, and gives
//!   one to the scalars.
//! - [`sequence`] has lists of values, and strings.
//! - [`common`] has types that messages share, among them the set of window
//!   configuration options, whose fields a bitmask declares.
//! - [`definition`] lays out records, tagged variants and the three kinds
//!   of message, requests, replies and events, from definitions that are
//!   data.
//! - [`x11`] writes the requests of the core protocol and their replies
//!   down as such definitions.
//! - [`error`] names the ways in which reading and writing fail.

pub mod buffer;
pub mod common;
pub mod definition;
pub mod error;
pub mod sequence;
pub mod wire;
pub mod x11;
