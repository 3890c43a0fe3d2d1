//! Measuring the throughput of short TCP exchanges.
//!
//! The crate holds the rules of a bandwidth probe and none of its I/O: how a
//! probe run proceeds from one network event to the next, what the responder
//! answers, how the totals of a run become a result, what a simulated protocol
//! overhead amounts to, and how byte counts and rates are written for a reader.
//! A driver performs the actions that the library asks for and hands back what
//! happened.

pub mod decimal;
pub mod laws;
pub mod overhead;
pub mod prober;
pub mod responder;
pub mod rounding;
pub mod stats;
pub mod units;
