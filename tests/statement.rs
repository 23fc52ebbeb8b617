use ledger::model::Client;
use ledger::statement::{build_statement, parse_sqlite_timestamp, StatementTransaction, Timestamp, Transaction};

fn tx(amount: i32, op: &str, at: i64) -> Transaction {
    Transaction {
        client_id: 1,
        amount,
        operation: op.to_string(),
        description: format!("t{}", amount),
        created_at: Timestamp { unix_seconds: at, nanosecond: 0 },
    }
}

#[test]
fn store_timestamp_is_read_as_utc() {
    let t = parse_sqlite_timestamp("2024-02-10 12:00:00").unwrap();
    assert_eq!(t, Timestamp { unix_seconds: 1707566400, nanosecond: 0 });
    assert_eq!(parse_sqlite_timestamp("1970-01-01 00:00:01").unwrap().unix_seconds, 1);
}

#[test]
fn malformed_timestamp_is_refused() {
    assert!(parse_sqlite_timestamp("2024-02-10T12:00:00Z").is_none());
    assert!(parse_sqlite_timestamp("").is_none());
}

#[test]
fn statement_keeps_snapshot_and_order() {
    let client = Client { id: 1, negative_limit: 1000, balance: -250 };
    let now = Timestamp { unix_seconds: 1707566400, nanosecond: 5 };
    let s = build_statement(&client, vec![tx(50, "d", 30), tx(200, "c", 20), tx(400, "d", 10)], now);
    assert_eq!(s.balance.balance, -250);
    assert_eq!(s.balance.negative_limit, 1000);
    assert_eq!(s.balance.requested_at, now);
    let amounts: Vec<i32> = s.transactions.iter().map(|t| t.amount).collect();
    assert_eq!(amounts, vec![50, 200, 400]);
    assert_eq!(s.transactions[1].operation, "c");
    assert_eq!(s.transactions[1].description, "t200");
    assert_eq!(s.transactions[2].created_at.unix_seconds, 10);
}

#[test]
fn empty_history_gives_empty_statement() {
    let client = Client { id: 2, negative_limit: 0, balance: 0 };
    let s = build_statement(&client, vec![], Timestamp { unix_seconds: 0, nanosecond: 0 });
    assert!(s.transactions.is_empty());
}

#[test]
fn transaction_line_drops_account_id() {
    let line = StatementTransaction::from(tx(7, "c", 99));
    assert_eq!(line.amount, 7);
    assert_eq!(line.operation, "c");
    assert_eq!(line.created_at.unix_seconds, 99);
}
