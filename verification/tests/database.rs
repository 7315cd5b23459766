use bigbang::database::Database;

#[test]
fn fresh_database_has_zero_instruments() {
    let db = Database::new(16);
    assert_eq!(db.pool_capacity(), 16);
    assert_eq!(db.metrics.connections_active, 0);
    assert_eq!(db.metrics.connections_total, 0);
    assert_eq!(db.metrics.transactions_active, 0);
    assert_eq!(db.metrics.transactions_started, 0);
    assert_eq!(db.metrics.transactions_committed, 0);
    assert_eq!(db.metrics.transactions_rolled_back, 0);
}

#[test]
fn connect_and_release_balance_the_connection_gauge() {
    let mut db = Database::new(16);
    let connection = db.connect().unwrap();
    assert!(!connection.has_open_transaction());
    assert_eq!(db.metrics.connections_active, 1);
    assert_eq!(db.metrics.connections_total, 1);
    db.release(connection);
    assert_eq!(db.metrics.connections_active, 0);
    assert_eq!(db.metrics.connections_total, 1);
}

#[test]
fn exhausted_pool_issues_no_lease_until_one_returns() {
    let mut db = Database::new(2);
    let first = db.connect().unwrap();
    let second = db.connect().unwrap();
    assert!(db.connect().is_none());
    assert_eq!(db.metrics.connections_active, 2);
    db.release(first);
    let third = db.connect().unwrap();
    assert_eq!(db.metrics.connections_active, 2);
    db.release(second);
    db.release(third);
    assert_eq!(db.metrics.connections_active, 0);
    assert_eq!(db.metrics.connections_total, 3);
}

#[test]
fn pool_capacity_is_never_exceeded() {
    let mut db = Database::new(16);
    let mut leases = Vec::new();
    for _ in 0..16 {
        leases.push(db.connect().expect("a lease should be available"));
    }
    assert!(db.connect().is_none());
    assert_eq!(db.metrics.connections_active, 16);
    for lease in leases {
        db.release(lease);
    }
    assert_eq!(db.metrics.connections_active, 0);
    assert_eq!(db.metrics.connections_total, 16);
}

#[test]
fn abandoned_transaction_counts_exactly_one_rollback() {
    let mut db = Database::new(16);
    let mut connection = db.connect().unwrap();
    let tx = connection.begin(&mut db.metrics);
    assert!(connection.has_open_transaction());
    assert_eq!(db.metrics.transactions_active, 1);
    assert_eq!(db.metrics.transactions_started, 1);

    let (result, span) =
        tx.execute::<String>("INSERT INTO people (name) VALUES ($1)".to_string(), Ok(1));
    assert_eq!(result, Ok(1));
    assert_eq!(span.sql.as_deref(), Some("INSERT INTO people (name) VALUES ($1)"));
    assert_eq!(span.result, Some(1));
    assert!(!span.error);

    tx.abandon(&mut connection, &mut db.metrics);
    assert!(!connection.has_open_transaction());
    assert_eq!(db.metrics.transactions_rolled_back, 1);
    assert_eq!(db.metrics.transactions_committed, 0);
    assert_eq!(db.metrics.transactions_active, 0);
    db.release(connection);
    assert_eq!(db.metrics.connections_active, 0);
}

#[test]
fn committed_transaction_counts_exactly_one_commit() {
    let mut db = Database::new(16);
    let mut connection = db.connect().unwrap();
    let tx = connection.begin(&mut db.metrics);

    let (result, span) =
        tx.execute::<String>("INSERT INTO people (name) VALUES ($1)".to_string(), Ok(1));
    assert_eq!(result, Ok(1));
    assert!(!span.error);

    let (committed, commit_span) = tx.commit::<String>(&mut connection, &mut db.metrics, Ok(()));
    assert_eq!(committed, Ok(()));
    assert!(!commit_span.error);
    assert_eq!(commit_span.sql, None);
    assert!(!connection.has_open_transaction());
    assert_eq!(db.metrics.transactions_committed, 1);
    assert_eq!(db.metrics.transactions_rolled_back, 0);
    assert_eq!(db.metrics.transactions_active, 0);
    db.release(connection);
    assert_eq!(db.metrics.connections_active, 0);
}

#[test]
fn failed_commit_still_counts_as_a_commit() {
    let mut db = Database::new(16);
    let mut connection = db.connect().unwrap();
    let tx = connection.begin(&mut db.metrics);

    let (committed, span) = tx.commit(
        &mut connection,
        &mut db.metrics,
        Err("could not serialize access due to concurrent update".to_string()),
    );
    assert!(committed.is_err());
    assert!(span.error);
    assert_eq!(db.metrics.transactions_committed, 1);
    assert_eq!(db.metrics.transactions_rolled_back, 0);
    assert_eq!(db.metrics.transactions_active, 0);
    db.release(connection);
}

#[test]
fn query_span_records_row_count() {
    let mut db = Database::new(16);
    let mut connection = db.connect().unwrap();
    let tx = connection.begin(&mut db.metrics);

    let (result, span) = tx.query::<i64, String>("SELECT 1".to_string(), Ok(vec![1]));
    let rows = result.unwrap();
    assert_eq!(rows.len(), 1);
    assert_eq!(rows[0], 1);
    assert_eq!(span.sql.as_deref(), Some("SELECT 1"));
    assert_eq!(span.rows, Some(1));
    assert!(!span.error);

    tx.abandon(&mut connection, &mut db.metrics);
    db.release(connection);
}

#[test]
fn failed_statement_records_the_error_flag() {
    let mut db = Database::new(16);
    let mut connection = db.connect().unwrap();
    let tx = connection.begin(&mut db.metrics);

    let (result, span) =
        tx.execute("INSERT INTO missing (name) VALUES ($1)".to_string(), Err("relation does not exist".to_string()));
    assert!(result.is_err());
    assert_eq!(span.result, None);
    assert!(span.error);

    let (queried, query_span) =
        tx.query::<i64, String>("SELECT broken".to_string(), Err("column does not exist".to_string()));
    assert!(queried.is_err());
    assert_eq!(query_span.rows, None);
    assert!(query_span.error);

    tx.abandon(&mut connection, &mut db.metrics);
    db.release(connection);
}

#[test]
fn batch_execute_records_script_and_error_flag() {
    let mut db = Database::new(16);
    let mut connection = db.connect().unwrap();
    let tx = connection.begin(&mut db.metrics);

    let (done, span) = tx.batch_execute::<String>("CREATE TABLE IF NOT EXISTS people (name TEXT)".to_string(), Ok(()));
    assert_eq!(done, Ok(()));
    assert_eq!(span.sql.as_deref(), Some("CREATE TABLE IF NOT EXISTS people (name TEXT)"));
    assert!(!span.error);

    let (failed, failed_span) =
        tx.batch_execute("DROP TABLE nothing".to_string(), Err("table does not exist".to_string()));
    assert!(failed.is_err());
    assert!(failed_span.error);

    tx.abandon(&mut connection, &mut db.metrics);
    db.release(connection);
}

#[test]
fn connection_can_run_transactions_back_to_back() {
    let mut db = Database::new(16);
    let mut connection = db.connect().unwrap();

    let tx = connection.begin(&mut db.metrics);
    let (_, _) = tx.commit::<String>(&mut connection, &mut db.metrics, Ok(()));

    let tx = connection.begin(&mut db.metrics);
    tx.abandon(&mut connection, &mut db.metrics);

    assert_eq!(db.metrics.transactions_started, 2);
    assert_eq!(db.metrics.transactions_committed, 1);
    assert_eq!(db.metrics.transactions_rolled_back, 1);
    assert_eq!(db.metrics.transactions_active, 0);
    db.release(connection);
    assert_eq!(db.metrics.connections_active, 0);
}
