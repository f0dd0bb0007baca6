//! Interrupt handling.

pub mod dispatch;
