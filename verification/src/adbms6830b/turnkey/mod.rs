//! The two-line isoSPI configuration of the ADBMS6830B.
//!
//! Two `Line`s reach the same chain from both ends. This module routes each chip to one of them,
//! tracks the chips' command counters and PEC statistics, and decides when a break has opened in
//! the chain and where to split it so that both halves stay reachable.

pub mod accumulator;
pub mod api;
pub mod diagnostics;
pub mod service;
