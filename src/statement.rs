//! Transaction records as the store returns them, and the account
//! statement built from one consistent snapshot.

use vstd::prelude::*;
use crate::model::Client;

verus! {

/// A moment in UTC: whole seconds since the Unix epoch and the nanoseconds
/// past that second.
#[derive(Clone, Copy, Debug, PartialEq, Eq, Structural)]
pub struct Timestamp {
    pub unix_seconds: i64,
    pub nanosecond: u32,
}

/// The layout of the store's timestamps, `YYYY-MM-DD HH:MM:SS`, in the
/// format-description syntax of the time crate.
pub const SQLITE_TIMESTAMP_FORMAT: &'static str = "[year]-[month]-[day] [hour]:[minute]:[second]";

/// Seconds since the Unix epoch of `text` read in `format` as a UTC time, as
/// the time crate reads it; `None` where either does not parse.
pub uninterp spec fn utc_seconds_of(text: Seq<char>, format: Seq<char>) -> Option<int>;

/// Relies on time's `format_description::parse`, `PrimitiveDateTime::parse`,
/// `assume_utc` and `unix_timestamp`: the text read as a UTC date and time.
#[verifier::external_body]
fn parse_utc_seconds(text: &str, format: &str) -> (r: Option<i64>)
    ensures
        r matches Some(v) ==> utc_seconds_of(text@, format@) == Some(v as int),
        r is None ==> utc_seconds_of(text@, format@) is None,
{
    let items = time::format_description::parse(format).ok()?;
    let parsed = time::PrimitiveDateTime::parse(text, &items).ok()?;
    Some(parsed.assume_utc().unix_timestamp())
}

/// Reads a store timestamp (`YYYY-MM-DD HH:MM:SS`, in UTC).
pub fn parse_sqlite_timestamp(text: &str) -> (r: Option<Timestamp>)
    ensures
        r matches Some(t) ==> utc_seconds_of(text@, SQLITE_TIMESTAMP_FORMAT@) == Some(t.unix_seconds as int)
            && t.nanosecond == 0,
        r is None ==> utc_seconds_of(text@, SQLITE_TIMESTAMP_FORMAT@) is None,
{
    match parse_utc_seconds(text, SQLITE_TIMESTAMP_FORMAT) {
        Some(s) => Some(Timestamp { unix_seconds: s, nanosecond: 0 }),
        None => None,
    }
}

/// A committed mutation as recorded in the store.
pub struct Transaction {
    pub client_id: u32,
    pub amount: i32,
    pub operation: String,
    pub description: String,
    pub created_at: Timestamp,
}

/// A transaction as a statement lists it.
pub struct StatementTransaction {
    pub amount: i32,
    pub operation: String,
    pub description: String,
    pub created_at: Timestamp,
}

/// The statement line of a transaction: everything but the account id.
pub open spec fn listed(t: Transaction) -> StatementTransaction {
    StatementTransaction {
        amount: t.amount,
        operation: t.operation,
        description: t.description,
        created_at: t.created_at,
    }
}

impl From<Transaction> for StatementTransaction {
    fn from(val: Transaction) -> (r: StatementTransaction) {
        StatementTransaction {
            amount: val.amount,
            operation: val.operation,
            description: val.description,
            created_at: val.created_at,
        }
    }
}

impl vstd::std_specs::convert::FromSpecImpl<Transaction> for StatementTransaction {
    open spec fn obeys_from_spec() -> bool {
        true
    }

    open spec fn from_spec(v: Transaction) -> StatementTransaction {
        listed(v)
    }
}

/// Balance, limit and the moment the statement was taken.
#[derive(Clone, Copy, Debug, PartialEq, Eq, Structural)]
pub struct StatementBalance {
    pub balance: i32,
    pub negative_limit: i32,
    pub requested_at: Timestamp,
}

impl StatementBalance {
    pub fn new(balance: i32, negative_limit: i32, requested_at: Timestamp) -> (r: StatementBalance)
        ensures
            r.balance == balance,
            r.negative_limit == negative_limit,
            r.requested_at == requested_at,
    {
        StatementBalance { balance, negative_limit, requested_at }
    }
}

/// An account's balance and its latest transactions, newest first.
pub struct Statement {
    pub balance: StatementBalance,
    pub transactions: Vec<StatementTransaction>,
}

impl Statement {
    pub fn new(balance: StatementBalance, transactions: Vec<StatementTransaction>) -> (r: Statement)
        ensures
            r.balance == balance,
            r.transactions@ == transactions@,
    {
        Statement { balance, transactions }
    }
}

/// The statement of one snapshot: the account as read, and each transaction
/// read with it, in the order read.
pub fn build_statement(client: &Client, transactions: Vec<Transaction>, requested_at: Timestamp) -> (r:
    Statement)
    ensures
        r.balance.balance == client.balance,
        r.balance.negative_limit == client.negative_limit,
        r.balance.requested_at == requested_at,
        r.transactions@ == transactions@.map_values(|t: Transaction| listed(t)),
{
    let balance = StatementBalance::new(client.balance, client.negative_limit, requested_at);
    let ghost all = transactions@;
    let mut rest = transactions;
    let mut lines: Vec<StatementTransaction> = Vec::new();
    let mut i: usize = 0;
    assert(all.len() == rest.len());
    while rest.len() > 0
        invariant
            i <= all.len(),
            all.len() <= usize::MAX,
            rest@ == all.skip(i as int),
            lines@ == all.take(i as int).map_values(|t: Transaction| listed(t)),
        decreases rest@.len(),
    {
        proof {
            assert(all.skip(i as int).len() > 0);
            assert(i < all.len());
        }
        let t = rest.remove(0);
        let line = StatementTransaction::from(t);
        lines.push(line);
        proof {
            assert(all.take(i + 1) =~= all.take(i as int).push(all[i as int]));
        }
        i = i + 1;
        proof {
            assert(lines@ =~= all.take(i as int).map_values(|t: Transaction| listed(t)));
            assert(rest@ =~= all.skip(i as int));
        }
    }
    proof {
        assert(all.take(i as int) =~= all);
    }
    Statement::new(balance, lines)
}

} // verus!
