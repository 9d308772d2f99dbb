//! Boot-time composition layer for a capability-secured, allocation-free
//! kernel: capability tokens, one-shot static singleton initialization,
//! capability-gated grant-region allocation, the `Component` wiring
//! abstraction, and a concrete USB composition that assembles a syscall
//! driver from a peripheral controller handle.

pub mod capability;
pub mod component;
pub mod controller;
pub mod kernel;
pub mod static_alloc;
pub mod usb;
