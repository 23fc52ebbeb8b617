//! The SQL statements the core sends to the store, rendered for SQLite by
//! sea-query.

use vstd::prelude::*;
use sea_query::{Alias, Expr, Order, Query, SqliteQueryBuilder};
use crate::text::{decimal, signed_decimal};
use crate::model::{
    client_table_name, transaction_table_name, ClientTable, CreateTransactionRequest,
    TransactionTable,
};

verus! {

/// Most recent transactions listed in a statement.
pub const LATEST_TRANSACTIONS: u64 = 10;

/// `s` with every `q` written twice, as SQL escapes a quote inside quotes.
pub open spec fn doubled(s: Seq<char>, q: char) -> Seq<char>
    decreases s.len(),
{
    if s.len() == 0 {
        s
    } else {
        doubled(s.drop_last(), q) + if s.last() == q { seq![q, q] } else { seq![s.last()] }
    }
}

/// An identifier in SQLite's double quotes.
pub open spec fn quoted_ident(s: Seq<char>) -> Seq<char> {
    seq!['"'] + doubled(s, '"') + seq!['"']
}

/// A string value in SQLite's single quotes.
pub open spec fn quoted_text(s: Seq<char>) -> Seq<char> {
    seq!['\''] + doubled(s, '\'') + seq!['\'']
}

/// Quoted identifiers separated by `, `.
pub open spec fn ident_list(names: Seq<Seq<char>>) -> Seq<char>
    decreases names.len(),
{
    if names.len() == 0 {
        Seq::empty()
    } else if names.len() == 1 {
        quoted_ident(names[0])
    } else {
        ident_list(names.drop_last()) + ", "@ + quoted_ident(names.last())
    }
}

/// `"key_column" = key`, the condition every statement filters by.
pub open spec fn where_eq(key_column: Seq<char>, key: u32) -> Seq<char> {
    " WHERE "@ + quoted_ident(key_column) + " = "@ + decimal(key as nat)
}

/// The text sea-query renders for `SELECT c1, c2, c3 FROM table WHERE key_column = key`.
pub open spec fn sqlite_select_eq(
    table: Seq<char>,
    c1: Seq<char>,
    c2: Seq<char>,
    c3: Seq<char>,
    key_column: Seq<char>,
    key: u32,
) -> Seq<char> {
    "SELECT "@ + ident_list(seq![c1, c2, c3]) + " FROM "@ + quoted_ident(table) + where_eq(key_column, key)
}

/// The text sea-query renders for `SELECT columns FROM table WHERE key_column = key
/// ORDER BY order_column DESC LIMIT limit`.
pub open spec fn sqlite_select_latest(
    table: Seq<char>,
    columns: Seq<Seq<char>>,
    key_column: Seq<char>,
    key: u32,
    order_column: Seq<char>,
    limit: u64,
) -> Seq<char> {
    "SELECT "@ + ident_list(columns) + " FROM "@ + quoted_ident(table) + where_eq(key_column, key)
        + " ORDER BY "@ + quoted_ident(order_column) + " DESC LIMIT "@ + decimal(limit as nat)
}

/// The text sea-query renders for `UPDATE table SET column = value WHERE key_column = key`.
pub open spec fn sqlite_update_eq(
    table: Seq<char>,
    column: Seq<char>,
    value: i32,
    key_column: Seq<char>,
    key: u32,
) -> Seq<char> {
    "UPDATE "@ + quoted_ident(table) + " SET "@ + quoted_ident(column) + " = "@ + signed_decimal(value as int)
        + where_eq(key_column, key)
}

/// The text sea-query renders for inserting one transaction row.
pub open spec fn sqlite_insert_transaction(
    table: Seq<char>,
    columns: Seq<Seq<char>>,
    client_id: u32,
    amount: i32,
    operation: Seq<char>,
    description: Seq<char>,
) -> Seq<char> {
    "INSERT INTO "@ + quoted_ident(table) + " ("@ + ident_list(columns) + ") VALUES ("@
        + decimal(client_id as nat) + ", "@ + signed_decimal(amount as int) + ", "@
        + quoted_text(operation) + ", "@ + quoted_text(description) + ")"@
}

/// Relies on sea-query's `SelectStatement::to_string` with the SQLite builder, which
/// quotes identifiers in `"` and strings in `'`, doubling those quotes
/// inside, and writes integers in decimal.
#[verifier::external_body]
fn render_select_eq(table: &str, c1: &str, c2: &str, c3: &str, key_column: &str, key: u32) -> (r: String)
    ensures
        r@ == sqlite_select_eq(table@, c1@, c2@, c3@, key_column@, key),
{
    Query::select()
        .columns([Alias::new(c1), Alias::new(c2), Alias::new(c3)])
        .from(Alias::new(table))
        .and_where(Expr::col(Alias::new(key_column)).eq(key))
        .to_string(SqliteQueryBuilder)
}

/// Relies on sea-query's `SelectStatement::to_string` with the SQLite builder, which
/// quotes identifiers in `"` and strings in `'`, doubling those quotes
/// inside, and writes integers in decimal.
#[verifier::external_body]
fn render_select_latest(
    table: &str,
    columns: [&str; 5],
    key_column: &str,
    key: u32,
    order_column: &str,
    limit: u64,
) -> (r: String)
    ensures
        r@ == sqlite_select_latest(table@, columns@.map_values(|c: &str| c@), key_column@, key, order_column@, limit),
{
    let [c1, c2, c3, c4, c5] = columns;
    Query::select()
        .columns([Alias::new(c1), Alias::new(c2), Alias::new(c3), Alias::new(c4), Alias::new(c5)])
        .from(Alias::new(table))
        .and_where(Expr::col(Alias::new(key_column)).eq(key))
        .order_by(Alias::new(order_column), Order::Desc)
        .limit(limit)
        .to_string(SqliteQueryBuilder)
}

/// Relies on sea-query's `UpdateStatement::to_string` with the SQLite builder, which
/// quotes identifiers in `"` and strings in `'`, doubling those quotes
/// inside, and writes integers in decimal.
#[verifier::external_body]
fn render_update_eq(table: &str, column: &str, value: i32, key_column: &str, key: u32) -> (r: String)
    ensures
        r@ == sqlite_update_eq(table@, column@, value, key_column@, key),
{
    Query::update()
        .table(Alias::new(table))
        .values([(Alias::new(column), value.into())])
        .and_where(Expr::col(Alias::new(key_column)).eq(key))
        .to_string(SqliteQueryBuilder)
}

/// Relies on sea-query's `InsertStatement::to_string` with the SQLite builder, which
/// quotes identifiers in `"` and strings in `'`, doubling those quotes
/// inside, and writes integers in decimal;
/// four columns and four values, so `values_panic` cannot panic.
#[verifier::external_body]
fn render_insert_transaction(
    table: &str,
    columns: [&str; 4],
    client_id: u32,
    amount: i32,
    operation: &str,
    description: &str,
) -> (r: String)
    ensures
        r@ == sqlite_insert_transaction(table@, columns@.map_values(|c: &str| c@), client_id, amount, operation@, description@),
{
    let [c1, c2, c3, c4] = columns;
    Query::insert()
        .into_table(Alias::new(table))
        .columns([Alias::new(c1), Alias::new(c2), Alias::new(c3), Alias::new(c4)])
        .values_panic([client_id.into(), amount.into(), operation.into(), description.into()])
        .to_string(SqliteQueryBuilder)
}

/// The columns a transaction row is inserted with.
pub open spec fn insert_columns() -> Seq<Seq<char>> {
    seq![
        transaction_table_name(TransactionTable::ClientID),
        transaction_table_name(TransactionTable::Amount),
        transaction_table_name(TransactionTable::Operation),
        transaction_table_name(TransactionTable::Description),
    ]
}

/// The columns a statement lists for each transaction.
pub open spec fn latest_columns() -> Seq<Seq<char>> {
    insert_columns().push(transaction_table_name(TransactionTable::CreatedAt))
}

/// Reads one account's id, balance and negative limit.
pub fn find_query(client_id: u32) -> (r: String)
    ensures
        r@ == sqlite_select_eq(
            client_table_name(ClientTable::Table),
            client_table_name(ClientTable::ID),
            client_table_name(ClientTable::Balance),
            client_table_name(ClientTable::NegativeLimit),
            client_table_name(ClientTable::ID),
            client_id,
        ),
{
    render_select_eq(
        ClientTable::Table.name(),
        ClientTable::ID.name(),
        ClientTable::Balance.name(),
        ClientTable::NegativeLimit.name(),
        ClientTable::ID.name(),
        client_id,
    )
}

/// Sets one account's balance.
pub fn balance_update_query(client_id: u32, balance: i32) -> (r: String)
    ensures
        r@ == sqlite_update_eq(
            client_table_name(ClientTable::Table),
            client_table_name(ClientTable::Balance),
            balance,
            client_table_name(ClientTable::ID),
            client_id,
        ),
{
    render_update_eq(
        ClientTable::Table.name(),
        ClientTable::Balance.name(),
        balance,
        ClientTable::ID.name(),
        client_id,
    )
}

/// Appends the request as an immutable transaction record.
pub fn insert_query(request: &CreateTransactionRequest) -> (r: String)
    ensures
        r@ == sqlite_insert_transaction(
            transaction_table_name(TransactionTable::Table),
            insert_columns(),
            request.client_id,
            request.payload.amount,
            request.payload.operation@,
            request.payload.description@,
        ),
{
    let columns = [
        TransactionTable::ClientID.name(),
        TransactionTable::Amount.name(),
        TransactionTable::Operation.name(),
        TransactionTable::Description.name(),
    ];
    assert(columns@.map_values(|c: &str| c@) =~= insert_columns());
    render_insert_transaction(
        TransactionTable::Table.name(),
        columns,
        request.client_id,
        request.payload.amount,
        request.payload.operation.as_str(),
        request.payload.description.as_str(),
    )
}

/// Reads one account's most recent transactions, newest first.
pub fn find_latest_query(client_id: u32) -> (r: String)
    ensures
        r@ == sqlite_select_latest(
            transaction_table_name(TransactionTable::Table),
            latest_columns(),
            transaction_table_name(TransactionTable::ClientID),
            client_id,
            transaction_table_name(TransactionTable::CreatedAt),
            LATEST_TRANSACTIONS,
        ),
{
    let columns = [
        TransactionTable::ClientID.name(),
        TransactionTable::Amount.name(),
        TransactionTable::Operation.name(),
        TransactionTable::Description.name(),
        TransactionTable::CreatedAt.name(),
    ];
    assert(columns@.map_values(|c: &str| c@) =~= latest_columns());
    render_select_latest(
        TransactionTable::Table.name(),
        columns,
        TransactionTable::ClientID.name(),
        client_id,
        TransactionTable::CreatedAt.name(),
        LATEST_TRANSACTIONS,
    )
}

/// The text of the batch that persists an accepted mutation.
pub open spec fn persist_text(request: &CreateTransactionRequest, new_balance: i32) -> Seq<char> {
    sqlite_update_eq(
        client_table_name(ClientTable::Table),
        client_table_name(ClientTable::Balance),
        new_balance,
        client_table_name(ClientTable::ID),
        request.client_id,
    ) + seq![';'] + sqlite_insert_transaction(
        transaction_table_name(TransactionTable::Table),
        insert_columns(),
        request.client_id,
        request.payload.amount,
        request.payload.operation@,
        request.payload.description@,
    )
}

/// The batch that persists an accepted mutation all at once: the balance
/// update, then the transaction record, joined by `;`.
pub fn persist_statements(request: &CreateTransactionRequest, new_balance: i32) -> (r: String)
    ensures
        r@ == persist_text(request, new_balance),
{
    let mut batch = balance_update_query(request.client_id, new_balance);
    proof { reveal_strlit(";"); }
    batch.append(";");
    let insert = insert_query(request);
    batch.append(insert.as_str());
    batch
}

} // verus!
