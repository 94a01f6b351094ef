//! Interprets raw OBD-II diagnostic-response payloads, as surfaced by an
//! ELM327-class adapter, into typed engineering values.
//!
//! Each parameter (a "PID", scoped by a mode number) has a fixed response
//! width and a decode formula fixed by the OBD-II standard. The crate offers
//! the decode formulas themselves ([`decoder`]), one descriptor type per PID
//! binding a formula to its metadata ([`pids`]), and a registry that resolves
//! a `(mode, pid)` pair to its descriptor and dispatches raw bytes to the
//! right formula ([`registry`]).
//!
//! Fractional quantities are returned as exact rationals ([`ratio::Ratio`]),
//! so every decode result is stated and proved exactly; callers that want a
//! floating-point reading divide numerator by denominator at the edge.

pub mod decoder;
pub mod pids;
pub mod ratio;
pub mod registry;
