//! Decision core of a CI build reaper.
//!
//! The library decides which builds on a tracked integration branch are
//! obsolete (superseded by a newer build) or doomed (a job already failed)
//! and should therefore be cancelled. It covers both providers' policies,
//! the classification of HTTP responses, the request lines the transport
//! sends, and the scheduling of the polling loop. All network traffic and
//! JSON decoding live outside the library; every function here is pure and
//! carries a contract.

pub mod appveyor;
pub mod cycle;
pub mod num;
pub mod transport;
pub mod travis;
