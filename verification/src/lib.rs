//! Verified model of a Rust RTL8139 network driver together with the kernel
//! abstractions it is written against: IRQ registration, network devices and
//! kernel error codes.

pub mod error;
pub mod irq;
pub mod net;
pub mod rtl8139;
