//! Pooled database connections and serializable transactions with verified
//! lifecycle accounting.
//!
//! The heart of the crate is the connection/transaction subsystem in
//! [`database`] and [`metrics`]: acquiring a pooled connection, beginning a
//! serializable transaction, executing statements and queries inside it, and
//! committing it or abandoning it (the implicit rollback). Every one of those
//! steps carries an exact contract over the process-wide metrics — the
//! active-connection and active-transaction gauges and the lifetime
//! connection and labelled transaction counters — so that no transaction can
//! be left dangling: each one ends as exactly one commit or exactly one
//! rollback.
//!
//! The asynchronous driver calls themselves (waiting on the pool, the wire
//! protocol) are outside work: the surrounding application performs them and
//! hands their outcomes to the verified functions here, which decide what the
//! caller sees, how the trace span of the operation is filled in, and how the
//! instruments move.

pub mod database;
pub mod hal;
pub mod home;
pub mod metrics;
pub mod service;
