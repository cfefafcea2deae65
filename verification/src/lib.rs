//! Provider configuration and event dispatch for Event Tracing for Windows.
//!
//! The crate is organised in three layers: [`guid`] holds the identifier type
//! and its textual grammar, [`provider`] the provider builder together with
//! the catalog of kernel providers and the consumer list that events are
//! fanned out to, and [`native`] the operating-system version check.

pub mod guid;
pub mod native;
pub mod provider;
