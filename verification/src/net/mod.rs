//! Networking.

pub mod dev;
