//! The messages of the core protocol, written down as definitions.

pub mod requests;
