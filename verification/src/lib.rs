//! Dual-stack address resolution as a pure decision procedure.
//!
//! The crate decides what a textual address such as `"example.org:443"` or
//! `"[::1]:8080"` resolves to. It performs no network traffic itself: each
//! function maps what is known so far to either the final outcome or the next
//! name-server query that the caller has to carry out.

pub mod address;
pub mod text;
pub mod resolve;
pub mod answer;
pub mod batch;
pub mod settings;
pub mod compat;
