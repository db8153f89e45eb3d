//! Client-side logic for driving a web browser over the W3C WebDriver wire
//! protocol.
//!
//! The crate models every WebDriver command as data: a [`wire::WireRequest`]
//! describes one HTTP exchange, and the caller (the part of a program that
//! owns the actual transport) performs the exchange and hands the parsed
//! response back as a [`wire::WireOutcome`]. All protocol decisions — the
//! select-before-use guard on tabs, the click fallback, error
//! classification — are made here and are verified.

pub mod command;
pub mod elements;
pub mod enums;
pub mod error;
pub mod json;
pub mod laws;
pub mod responses;
pub mod session;
pub mod tab;
pub mod timeouts;
pub mod wire;
