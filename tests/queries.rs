use ledger::model::{CreateTransactionPayload, CreateTransactionRequest};
use ledger::queries::{balance_update_query, find_latest_query, find_query, insert_query, persist_statements};

fn req() -> CreateTransactionRequest {
    CreateTransactionRequest::new(
        5,
        CreateTransactionPayload { amount: 100, operation: "c".to_string(), description: "it's".to_string() },
    )
}

#[test]
fn select_account_statement() {
    assert_eq!(find_query(1), r#"SELECT "id", "balance", "negative_limit" FROM "clients" WHERE "id" = 1"#);
}

#[test]
fn update_balance_statement() {
    assert_eq!(balance_update_query(1, -500), r#"UPDATE "clients" SET "balance" = -500 WHERE "id" = 1"#);
}

#[test]
fn insert_transaction_statement_escapes_text() {
    assert_eq!(
        insert_query(&req()),
        r#"INSERT INTO "transactions" ("client_id", "amount", "operation", "description") VALUES (5, 100, 'c', 'it''s')"#
    );
}

#[test]
fn latest_transactions_statement() {
    assert_eq!(
        find_latest_query(5),
        r#"SELECT "client_id", "amount", "operation", "description", "created_at" FROM "transactions" WHERE "client_id" = 5 ORDER BY "created_at" DESC LIMIT 10"#
    );
}

#[test]
fn persist_batch_joins_update_and_insert() {
    let batch = persist_statements(&req(), 250);
    assert_eq!(batch, format!("{};{}", balance_update_query(5, 250), insert_query(&req())));
}
