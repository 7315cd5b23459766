//! The process-wide metrics registry of the database subsystem.
//!
//! Four instruments are kept: the active-connection gauge, the
//! active-transaction gauge, the lifetime connection counter, and the
//! lifetime transaction counter labelled by outcome (`start`, `commit`,
//! `rollback`). [`MetricsRegistry`] holds their values as plain counters;
//! [`MetricsModel`] is its mathematical view, over which every lifecycle
//! operation of the subsystem states exactly how the instruments move.

use vstd::prelude::*;

verus! {

/// Mathematical model of the metrics registry: one integer per instrument,
/// with the labelled transaction counter split into its three labels.
pub ghost struct MetricsModel {
    /// Value of the active-connection gauge.
    pub connections_active: int,
    /// Lifetime count of connections ever issued.
    pub connections_total: int,
    /// Value of the active-transaction gauge.
    pub transactions_active: int,
    /// Lifetime count of transactions ever started (label `start`).
    pub transactions_started: int,
    /// Lifetime count of commit calls (label `commit`).
    pub transactions_committed: int,
    /// Lifetime count of implicit rollbacks (label `rollback`).
    pub transactions_rolled_back: int,
}

impl MetricsModel {
    /// Well-formedness: every started transaction is either still active,
    /// committed, or rolled back — there is no fourth, forgotten outcome —
    /// and no more connections are active than were ever issued.
    pub open spec fn wf(self) -> bool {
        &&& 0 <= self.connections_active
        &&& 0 <= self.transactions_committed
        &&& 0 <= self.transactions_rolled_back
        &&& self.connections_active <= self.connections_total
        &&& self.transactions_committed + self.transactions_rolled_back
            <= self.transactions_started
        &&& self.transactions_active == self.transactions_started
            - self.transactions_committed - self.transactions_rolled_back
    }

    /// The state of a freshly created registry: every instrument at zero.
    pub open spec fn initial() -> MetricsModel {
        MetricsModel {
            connections_active: 0,
            connections_total: 0,
            transactions_active: 0,
            transactions_started: 0,
            transactions_committed: 0,
            transactions_rolled_back: 0,
        }
    }

    /// How the instruments move when a connection is checked out of the pool.
    pub open spec fn connected(self) -> MetricsModel {
        MetricsModel {
            connections_active: self.connections_active + 1,
            connections_total: self.connections_total + 1,
            ..self
        }
    }

    /// How the instruments move when a connection is returned to the pool.
    pub open spec fn connection_released(self) -> MetricsModel {
        MetricsModel { connections_active: self.connections_active - 1, ..self }
    }

    /// How the instruments move when a transaction is started.
    pub open spec fn begun(self) -> MetricsModel {
        MetricsModel {
            transactions_active: self.transactions_active + 1,
            transactions_started: self.transactions_started + 1,
            ..self
        }
    }

    /// How the instruments move when a transaction is committed.
    pub open spec fn committed(self) -> MetricsModel {
        MetricsModel {
            transactions_active: self.transactions_active - 1,
            transactions_committed: self.transactions_committed + 1,
            ..self
        }
    }

    /// How the instruments move when a transaction is released without ever
    /// having been committed: the implicit rollback.
    pub open spec fn abandoned(self) -> MetricsModel {
        MetricsModel {
            transactions_active: self.transactions_active - 1,
            transactions_rolled_back: self.transactions_rolled_back + 1,
            ..self
        }
    }
}

/// The registry of the four instruments, as plain counters. It is created
/// once, when the database facade is built, and shared by every connection
/// and transaction for the life of the process; the surrounding application
/// mirrors it into whatever exposition endpoint scrapes the metrics.
pub struct MetricsRegistry {
    /// Number of connections currently checked out.
    pub connections_active: u64,
    /// Number of connections ever issued.
    pub connections_total: u64,
    /// Number of transactions currently open.
    pub transactions_active: u64,
    /// Number of transactions ever started.
    pub transactions_started: u64,
    /// Number of commit calls ever made.
    pub transactions_committed: u64,
    /// Number of transactions ever rolled back implicitly.
    pub transactions_rolled_back: u64,
}

impl View for MetricsRegistry {
    type V = MetricsModel;

    open spec fn view(&self) -> MetricsModel {
        MetricsModel {
            connections_active: self.connections_active as int,
            connections_total: self.connections_total as int,
            transactions_active: self.transactions_active as int,
            transactions_started: self.transactions_started as int,
            transactions_committed: self.transactions_committed as int,
            transactions_rolled_back: self.transactions_rolled_back as int,
        }
    }
}

impl MetricsRegistry {
    /// Create the registry with every instrument at zero.
    pub fn new() -> (registry: MetricsRegistry)
        ensures
            registry@ == MetricsModel::initial(),
            registry@.wf(),
    {
        MetricsRegistry {
            connections_active: 0,
            connections_total: 0,
            transactions_active: 0,
            transactions_started: 0,
            transactions_committed: 0,
            transactions_rolled_back: 0,
        }
    }
}

/// A transaction that is begun and then released without a commit is counted
/// as exactly one rollback and no commit, and the active-transaction gauge
/// returns to its value from before the begin.
pub proof fn lemma_abandoned_transaction_accounting(m: MetricsModel)
    requires
        m.wf(),
    ensures
        m.begun().abandoned().wf(),
        m.begun().abandoned().transactions_rolled_back == m.transactions_rolled_back + 1,
        m.begun().abandoned().transactions_committed == m.transactions_committed,
        m.begun().abandoned().transactions_active == m.transactions_active,
        m.begun().abandoned().transactions_started == m.transactions_started + 1,
        m.begun().abandoned().connections_active == m.connections_active,
{
}

/// A transaction that is begun and then committed is counted as exactly one
/// commit and no rollback — never both for the same transaction — and the
/// active-transaction gauge returns to its value from before the begin.
pub proof fn lemma_committed_transaction_accounting(m: MetricsModel)
    requires
        m.wf(),
    ensures
        m.begun().committed().wf(),
        m.begun().committed().transactions_committed == m.transactions_committed + 1,
        m.begun().committed().transactions_rolled_back == m.transactions_rolled_back,
        m.begun().committed().transactions_active == m.transactions_active,
        m.begun().committed().transactions_started == m.transactions_started + 1,
        m.begun().committed().connections_active == m.connections_active,
{
}

/// The active-connection gauge rises by exactly one when a connection is
/// checked out and falls by exactly one when it is released, whether or not
/// a transaction was run on it in between: after the release it is back at
/// its value from before the checkout.
pub proof fn lemma_connection_gauge_balanced(m: MetricsModel)
    requires
        m.wf(),
    ensures
        m.connected().connections_active == m.connections_active + 1,
        m.connected().connection_released().connections_active == m.connections_active,
        m.connected().begun().committed().connection_released().connections_active
            == m.connections_active,
        m.connected().begun().abandoned().connection_released().connections_active
            == m.connections_active,
        m.connected().connection_released().wf(),
{
}

} // verus!
