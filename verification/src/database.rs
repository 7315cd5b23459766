//! The connection/transaction subsystem: a database facade over a bounded
//! pool of physical connections, leased connection handles, and serializable
//! transaction handles with a strict lifecycle.
//!
//! The lifecycle is the point. A [`Connection`] is an exclusive lease on one
//! physical connection; it can carry at most one open [`Transaction`] at a
//! time. A transaction ends in exactly one of two ways: [`Transaction::commit`]
//! consumes the handle and counts one commit, or [`Transaction::abandon`]
//! consumes it on release without a commit and counts one rollback. Both
//! return the active-transaction gauge to its prior value, so no transaction
//! is ever left dangling open.
//!
//! The asynchronous driver work — waiting on the pool, starting, running and
//! committing the wire-level transaction — happens outside this module. The
//! application performs each driver call and passes its outcome in; the
//! functions here decide what the caller sees, how the instruments move, and
//! which fields the operation's trace span records.

use vstd::prelude::*;

use crate::metrics::MetricsModel;
use crate::metrics::MetricsRegistry;

verus! {

/// The database facade: the single owner of the pool of physical connections
/// (of fixed capacity, never resized) and of the shared metrics registry.
pub struct Database {
    /// Fixed capacity of the underlying pool, set at construction and never
    /// resized at runtime.
    pub capacity: usize,
    /// The process-wide instruments, shared by all handles.
    pub metrics: MetricsRegistry,
}

/// An exclusive lease on one physical connection, issued by
/// [`Database::connect`] and returned to the pool by [`Database::release`].
pub struct Connection {
    /// Which lease this is: the value of the lifetime connection counter at
    /// the moment the lease was issued.
    id: u64,
    /// Whether a transaction begun on this connection is still open.
    tx_active: bool,
}

/// An exclusive handle on one open transaction, begun on a [`Connection`]
/// with serializable isolation. Holding the handle is holding the
/// transaction open: committing or abandoning it consumes the handle, so a
/// terminal transaction cannot be used again.
pub struct Transaction {
    /// The lease the transaction was begun on.
    conn_id: u64,
}

/// The fields that the structured trace span of one transaction operation
/// records: the statement text where the operation has one, the affected-row
/// or returned-row count where it succeeded, and always whether it failed.
pub struct SpanRecord {
    /// The statement text, for `execute`, `batch_execute` and `query` spans.
    pub sql: Option<String>,
    /// The number of rows modified, recorded by a successful `execute`.
    pub result: Option<u64>,
    /// The number of rows returned, recorded by a successful `query`.
    pub rows: Option<usize>,
    /// Whether the underlying driver call failed.
    pub error: bool,
}

impl Database {
    /// Well-formedness: the instruments are coherent and no more connections
    /// are checked out than the pool can hold.
    pub open spec fn wf(self) -> bool {
        &&& self.metrics@.wf()
        &&& self.metrics@.connections_active <= self.capacity as int
    }

    /// Build the facade around a pool of the given fixed capacity, with a
    /// fresh metrics registry. The underlying pool itself, the eager
    /// connectivity check and the one-shot idempotent schema migration are
    /// the application's to run before handing the facade out.
    pub fn new(capacity: usize) -> (db: Database)
        ensures
            db.wf(),
            db.capacity == capacity,
            db.metrics@ == MetricsModel::initial(),
    {
        Database { capacity, metrics: MetricsRegistry::new() }
    }

    /// Fixed capacity of the underlying pool.
    pub fn pool_capacity(&self) -> (capacity: usize)
        ensures
            capacity == self.capacity,
    {
        self.capacity
    }

    /// Check a connection out of the pool.
    ///
    /// A lease is available exactly when fewer connections are checked out
    /// than the pool's capacity; then the lifetime connection counter and the
    /// active-connection gauge each rise by one and the caller gets an
    /// exclusive handle with no open transaction. `None` means the pool is
    /// exhausted: the caller must suspend until a lease is released (or give
    /// up and surface an unavailability error) — together with `wf`, this is
    /// what keeps more than `capacity` connections from ever being out at
    /// once.
    pub fn connect(&mut self) -> (connection: Option<Connection>)
        requires
            old(self).wf(),
            old(self).metrics@.connections_total < u64::MAX,
        ensures
            final(self).wf(),
            final(self).capacity == old(self).capacity,
            (connection is Some) <==> old(self).metrics@.connections_active
                < old(self).capacity as int,
            connection is Some ==> final(self).metrics@ == old(self).metrics@.connected(),
            connection matches Some(c) ==> !c.has_active_tx()
                && c.id() == old(self).metrics.connections_total,
            connection is None ==> *final(self) == *old(self),
    {
        if self.metrics.connections_active < self.capacity as u64 {
            let id = self.metrics.connections_total;
            self.metrics.connections_active = self.metrics.connections_active + 1;
            self.metrics.connections_total = self.metrics.connections_total + 1;
            Some(Connection { id, tx_active: false })
        } else {
            None
        }
    }

    /// Return a lease to the pool. This is the release half of the scoped
    /// acquisition: it must run on every exit path of the code that owns the
    /// handle, and it lowers the active-connection gauge by exactly one. A
    /// lease can only be returned once its transaction, if any, has ended.
    pub fn release(&mut self, connection: Connection)
        requires
            old(self).wf(),
            old(self).metrics@.connections_active >= 1,
            !connection.has_active_tx(),
        ensures
            final(self).wf(),
            final(self).capacity == old(self).capacity,
            final(self).metrics@ == old(self).metrics@.connection_released(),
    {
        let _ = connection;
        self.metrics.connections_active = self.metrics.connections_active - 1;
    }
}

impl Connection {
    /// Which lease this is.
    pub closed spec fn id(self) -> u64 {
        self.id
    }

    /// Whether a transaction begun on this connection is still open.
    pub closed spec fn has_active_tx(self) -> bool {
        self.tx_active
    }

    /// Whether a transaction begun on this connection is still open.
    pub fn has_open_transaction(&self) -> (open_tx: bool)
        ensures
            open_tx == self.has_active_tx(),
    {
        self.tx_active
    }

    /// Record a transaction begun on this lease, with serializable isolation,
    /// not read-only, not deferrable. It is called once the driver has
    /// actually started one; a driver refusal is fatal to the operation and
    /// never reaches this point. The active-transaction gauge and the
    /// `start`-labelled lifetime counter each rise by one, and the connection
    /// carries the open transaction — so a second begin on the same lease is
    /// ruled out until this one ends.
    pub fn begin(&mut self, metrics: &mut MetricsRegistry) -> (tx: Transaction)
        requires
            !old(self).has_active_tx(),
            old(metrics)@.wf(),
            old(metrics)@.transactions_started < u64::MAX,
        ensures
            final(metrics)@ == old(metrics)@.begun(),
            final(metrics)@.wf(),
            final(self).id() == old(self).id(),
            final(self).has_active_tx(),
            tx.conn_id() == old(self).id(),
    {
        metrics.transactions_active = metrics.transactions_active + 1;
        metrics.transactions_started = metrics.transactions_started + 1;
        self.tx_active = true;
        Transaction { conn_id: self.id }
    }
}

impl Transaction {
    /// The lease the transaction was begun on.
    pub closed spec fn conn_id(self) -> u64 {
        self.conn_id
    }

    /// Account for one parameterized statement run inside the open
    /// transaction, `outcome` being what the driver returned: the count of
    /// rows modified, or the driver's error. The outcome is handed back to
    /// the caller untouched — an operation-level failure is surfaced, never
    /// swallowed — and the span record carries the statement text, the row
    /// count on success, and the error flag.
    pub fn execute<E>(&self, sql: String, outcome: Result<u64, E>) -> (r: (
        Result<u64, E>,
        SpanRecord,
    ))
        ensures
            r.0 == outcome,
            r.1.sql == Some(sql),
            r.1.rows is None,
            outcome matches Ok(count) ==> r.1.result == Some(count) && !r.1.error,
            outcome is Err ==> r.1.result is None && r.1.error,
    {
        let error = outcome.is_err();
        let result = match &outcome {
            Ok(count) => Some(*count),
            Err(_) => None,
        };
        (outcome, SpanRecord { sql: Some(sql), result, rows: None, error })
    }

    /// Account for one multi-statement script run inside the open
    /// transaction. A script takes no bind parameters — the signature rejects
    /// them rather than accept and drop them — and the driver reports only
    /// success or failure, so the span records the script text and the error
    /// flag alone.
    pub fn batch_execute<E>(&self, sql: String, outcome: Result<(), E>) -> (r: (
        Result<(), E>,
        SpanRecord,
    ))
        ensures
            r.0 == outcome,
            r.1.sql == Some(sql),
            r.1.result is None,
            r.1.rows is None,
            r.1.error == (outcome is Err),
    {
        let error = outcome.is_err();
        (outcome, SpanRecord { sql: Some(sql), result: None, rows: None, error })
    }

    /// Account for one parameterized read query run inside the open
    /// transaction, `outcome` being the fully materialized rows the driver
    /// returned, or its error. The rows are handed back untouched, and the
    /// span records the statement text, how many rows came back on success,
    /// and the error flag.
    pub fn query<R, E>(&self, sql: String, outcome: Result<Vec<R>, E>) -> (r: (
        Result<Vec<R>, E>,
        SpanRecord,
    ))
        ensures
            r.0 == outcome,
            r.1.sql == Some(sql),
            r.1.result is None,
            outcome matches Ok(rows) ==> r.1.rows == Some(rows@.len() as usize) && !r.1.error,
            outcome is Err ==> r.1.rows is None && r.1.error,
    {
        let error = outcome.is_err();
        let rows = match &outcome {
            Ok(returned) => Some(returned.len()),
            Err(_) => None,
        };
        (outcome, SpanRecord { sql: Some(sql), result: None, rows, error })
    }

    /// Commit the transaction, consuming the handle: whatever the driver
    /// said, the handle is spent and cannot be used again. The
    /// `commit`-labelled lifetime counter rises by one even when `outcome` is
    /// an error — it counts commit attempts, and a failed commit is
    /// deliberately not counted as a rollback — the active-transaction gauge
    /// falls by one, the connection is free to begin a new transaction, and
    /// the span records the error flag.
    pub fn commit<E>(
        self,
        connection: &mut Connection,
        metrics: &mut MetricsRegistry,
        outcome: Result<(), E>,
    ) -> (r: (Result<(), E>, SpanRecord))
        requires
            self.conn_id() == old(connection).id(),
            old(connection).has_active_tx(),
            old(metrics)@.wf(),
            old(metrics)@.transactions_active >= 1,
        ensures
            final(metrics)@ == old(metrics)@.committed(),
            final(metrics)@.wf(),
            final(connection).id() == old(connection).id(),
            !final(connection).has_active_tx(),
            r.0 == outcome,
            r.1.sql is None,
            r.1.result is None,
            r.1.rows is None,
            r.1.error == (outcome is Err),
    {
        metrics.transactions_active = metrics.transactions_active - 1;
        metrics.transactions_committed = metrics.transactions_committed + 1;
        connection.tx_active = false;
        let error = outcome.is_err();
        (outcome, SpanRecord { sql: None, result: None, rows: None, error })
    }

    /// Release the transaction without a commit, consuming the handle: the
    /// implicit rollback. The `rollback`-labelled lifetime counter rises by
    /// one, the active-transaction gauge falls by one, and the connection is
    /// free again; discarding the transactional context without a commit is
    /// what makes the underlying database roll the work back. The
    /// application runs this from every path that lets an open transaction
    /// go out of scope, and logs the warning that the transaction was not
    /// committed.
    pub fn abandon(self, connection: &mut Connection, metrics: &mut MetricsRegistry)
        requires
            self.conn_id() == old(connection).id(),
            old(connection).has_active_tx(),
            old(metrics)@.wf(),
            old(metrics)@.transactions_active >= 1,
        ensures
            final(metrics)@ == old(metrics)@.abandoned(),
            final(metrics)@.wf(),
            final(connection).id() == old(connection).id(),
            !final(connection).has_active_tx(),
    {
        metrics.transactions_active = metrics.transactions_active - 1;
        metrics.transactions_rolled_back = metrics.transactions_rolled_back + 1;
        connection.tx_active = false;
    }
}

/// With a pool of capacity `N`, no more than `N` connections are ever
/// checked out at once: the active-connection gauge of a well-formed facade
/// never exceeds the capacity, and `connect` issues a lease exactly when the
/// gauge is below it.
pub proof fn lemma_pool_capacity_bound(db: Database)
    requires
        db.wf(),
    ensures
        db.metrics@.connections_active <= db.capacity as int,
{
}

} // verus!
