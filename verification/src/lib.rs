//! A leveled logging core.
//!
//! Messages carry a severity; the active backend decides whether a message
//! passes the severity filter and where the resulting log line goes. All
//! decisions are pure: a write call returns a [`logger::WriteAction`] value
//! describing the output to perform, and callers carry it out.

pub mod laws;
pub mod level;
pub mod logger;
pub mod remote;
