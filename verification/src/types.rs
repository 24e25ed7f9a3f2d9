//! The values that requests are made of, and the shapes that come back.
pub mod block;
pub mod bytes;
pub mod consensus;
