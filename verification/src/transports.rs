//! Connections that come with this crate.
pub mod loopback;
