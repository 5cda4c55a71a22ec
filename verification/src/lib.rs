//! Core logic for interrupt-driven event handling on a single-core,
//! no-OS target: a one-shot ownership handoff cell, an edge-interrupt
//! line model, a debounce filter, a simplified quadrature decoder, a
//! drainable event counter, and a periodic reporter that consumes it.
//!
//! Hardware access itself (pin configuration, interrupt controllers,
//! timers, sinks) is left to the surrounding program; this crate holds
//! the decisions those handlers make, as verified state machines.

pub mod cell;
pub mod counter;
pub mod debounce;
pub mod edge;
pub mod handler;
pub mod quadrature;
pub mod reporter;
