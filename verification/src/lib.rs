//! Supervision of a pooled database connection that feeds a notification bridge.
//!
//! The crate holds the decisions of the supervisor: how a configuration is
//! validated, which transport security a connection string asks for, how long to
//! wait between failed connection attempts, and what to do next after each
//! outcome. Connecting, sleeping and running the bridge itself are left to the
//! caller, which reports every outcome back as an event.

pub mod backoff;
pub mod config;
pub mod supervisor;
pub mod text;
pub mod tls;
