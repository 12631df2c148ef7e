//! IRQ handling.

pub mod request;
