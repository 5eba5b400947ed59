use axon_core::dal::connection::{timeout_setting, ConnectionPool, StatementTimeout};
use axon_core::dal::storage::{ConnectionHolder, StorageProcessor};
use axon_core::utils::text::decimal;

#[test]
fn numbers_are_written_in_decimal() {
    assert_eq!(decimal(0), "0");
    assert_eq!(decimal(7), "7");
    assert_eq!(decimal(10), "10");
    assert_eq!(decimal(1234567890), "1234567890");
    assert_eq!(decimal(u64::MAX), "18446744073709551615");
}

#[test]
fn a_builder_keeps_what_it_was_given() {
    let builder = ConnectionPool::builder("postgres://user:secret@db/axon", 50);
    assert_eq!(builder.database_url(), "postgres://user:secret@db/axon");
    assert_eq!(builder.max_size(), 50);
    assert_eq!(builder.statement_timeout(), None);
    let single = ConnectionPool::singleton("postgres://db");
    assert_eq!(single.max_size(), 1);
    assert_eq!(single.database_url(), "postgres://db");
}

#[test]
fn the_statement_timeout_is_given_in_seconds() {
    let mut builder = ConnectionPool::builder("postgres://db", 5);
    assert_eq!(builder.build().statement_timeout, None);
    builder.set_statement_timeout(Some(StatementTimeout::from_secs(30)));
    assert_eq!(builder.statement_timeout(), Some(StatementTimeout::from_secs(30)));
    let plan = builder.build();
    assert_eq!(plan.statement_timeout, Some("30s".to_string()));
    assert_eq!(plan.max_connections, 5);
    assert_eq!(plan.pool.max_size(), 5);
    let plan = builder.set_statement_timeout(Some(StatementTimeout::from_secs(0))).build();
    assert_eq!(plan.statement_timeout, Some("0s".to_string()));
    builder.set_statement_timeout(None);
    assert_eq!(builder.build().statement_timeout, None);
    assert_eq!(timeout_setting(3600), "3600s");
}

#[test]
fn text_for_logs_leaves_out_the_database_url() {
    let mut builder = ConnectionPool::builder("postgres://user:secret@db/axon", 50);
    assert_eq!(
        builder.debug_text(),
        "ConnectionPoolBuilder { max_size: 50, statement_timeout: None }"
    );
    builder.set_statement_timeout(Some(StatementTimeout::from_secs(12)));
    let text = builder.debug_text();
    assert_eq!(text, "ConnectionPoolBuilder { max_size: 50, statement_timeout: Some(12s) }");
    assert!(!text.contains("secret"));
    assert_eq!(builder.build().pool.debug_text(), "ConnectionPool { max_size: 50, .. }");
}

#[test]
fn a_processor_knows_whether_it_is_in_a_transaction() {
    let pooled: StorageProcessor<u32, String> = StorageProcessor::from_pool(4);
    assert!(!pooled.in_transaction());
    assert!(matches!(pooled.conn(), ConnectionHolder::Pooled(4)));
    let inside: StorageProcessor<u32, String> =
        StorageProcessor::from_transaction("tx".to_string());
    assert!(inside.in_transaction());
    assert!(matches!(inside.conn(), ConnectionHolder::Transaction(tx) if tx == "tx"));
    assert_eq!(inside.commit(), "tx");
}

#[test]
fn what_a_processor_holds_can_be_worked_on() {
    let mut pooled: StorageProcessor<u32, String> = StorageProcessor::from_pool(4);
    assert!(pooled.transaction_mut().is_none());
    *pooled.pooled_mut().unwrap() += 1;
    assert!(matches!(pooled.conn(), ConnectionHolder::Pooled(5)));
    assert!(!pooled.in_transaction());
    let mut inside: StorageProcessor<u32, String> =
        StorageProcessor::from_transaction("tx".to_string());
    assert!(inside.pooled_mut().is_none());
    inside.transaction_mut().unwrap().push('!');
    assert!(inside.in_transaction());
    assert_eq!(inside.commit(), "tx!");
}

#[test]
fn a_timeout_keeps_what_is_beyond_whole_seconds() {
    let timeout = StatementTimeout::new(1, 500_000_000).unwrap();
    assert_eq!(timeout.as_secs(), 1);
    assert_eq!(timeout.subsec_nanos(), 500_000_000);
    assert_eq!(timeout.debug_text(), "1.5s");
    assert_eq!(StatementTimeout::new(1, 1_000_000_000), None);
    assert_eq!(StatementTimeout::new(7, 0), Some(StatementTimeout::from_secs(7)));
    let mut builder = ConnectionPool::builder("postgres://db", 5);
    builder.set_statement_timeout(Some(timeout));
    // The database is given whole seconds; the text for logs shows all of it.
    assert_eq!(builder.build().statement_timeout, Some("1s".to_string()));
    assert_eq!(
        builder.debug_text(),
        "ConnectionPoolBuilder { max_size: 5, statement_timeout: Some(1.5s) }"
    );
    builder.set_statement_timeout(Some(StatementTimeout::from_secs(0)));
    assert_eq!(
        builder.debug_text(),
        "ConnectionPoolBuilder { max_size: 5, statement_timeout: Some(0ns) }"
    );
    assert_eq!(
        StatementTimeout::new(0, 2_000_000).unwrap().debug_text(),
        format!("{:?}", std::time::Duration::from_millis(2))
    );
}
