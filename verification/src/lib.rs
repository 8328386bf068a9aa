//! Bring-up / serve / shutdown orchestrator for an embedded device controller.
//!
//! The library models the control core of a small networked device: it brings a
//! single network interface from unconfigured to "address leased", validates the
//! link with a bounded probe exchange, dispatches HTTP requests through an
//! ordered middleware chain with structured error recovery, and coordinates a
//! timed wait loop that samples a sensor until an external shutdown signal
//! arrives, followed by a strictly ordered teardown.
//!
//! Peripheral drivers, sockets and clocks are outside collaborators: the
//! surrounding program performs those calls and feeds their outcomes to the
//! functions here as plain values.

pub mod fault;
pub mod connect;
pub mod pipeline;
pub mod probe;
pub mod shutdown;
