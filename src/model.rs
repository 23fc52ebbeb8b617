//! The account, transaction and statement records the core works on.

use vstd::prelude::*;
use crate::error::{CustomError, FieldViolation};

verus! {

/// Operation code of a credit, which raises the balance.
pub const OPERATION_CREDIT: &'static str = "c";
/// Operation code of a debit, which lowers the balance.
pub const OPERATION_DEBIT: &'static str = "d";

/// An account: its balance and how far below zero it may go, in minor units.
#[derive(Clone, Copy, Debug, PartialEq, Eq, Structural)]
pub struct Client {
    pub id: u32,
    pub negative_limit: i32,
    pub balance: i32,
}

impl Client {
    /// The balance respects the account's negative limit.
    pub open spec fn within_limit(&self) -> bool {
        self.balance >= -self.negative_limit
    }
}

/// Table and column names of the accounts table.
#[derive(Clone, Copy, Debug, PartialEq, Eq, Structural)]
pub enum ClientTable {
    Table,
    ID,
    NegativeLimit,
    Balance,
}

pub open spec fn client_table_name(t: ClientTable) -> Seq<char> {
    match t {
        ClientTable::Table => seq!['c', 'l', 'i', 'e', 'n', 't', 's'],
        ClientTable::ID => seq!['i', 'd'],
        ClientTable::NegativeLimit => seq!['n', 'e', 'g', 'a', 't', 'i', 'v', 'e', '_', 'l', 'i', 'm', 'i', 't'],
        ClientTable::Balance => seq!['b', 'a', 'l', 'a', 'n', 'c', 'e'],
    }
}

impl ClientTable {
    /// The identifier this table or column has in the store.
    pub fn name(&self) -> (r: &'static str)
        ensures
            r@ == client_table_name(*self),
    {
        proof {
            reveal_strlit("clients");
            reveal_strlit("id");
            reveal_strlit("negative_limit");
            reveal_strlit("balance");
        }
        match self {
            ClientTable::Table => "clients",
            ClientTable::ID => "id",
            ClientTable::NegativeLimit => "negative_limit",
            ClientTable::Balance => "balance",
        }
    }
}

/// Table and column names of the transactions table.
#[derive(Clone, Copy, Debug, PartialEq, Eq, Structural)]
pub enum TransactionTable {
    Table,
    ClientID,
    Amount,
    Operation,
    Description,
    CreatedAt,
}

pub open spec fn transaction_table_name(t: TransactionTable) -> Seq<char> {
    match t {
        TransactionTable::Table => seq!['t', 'r', 'a', 'n', 's', 'a', 'c', 't', 'i', 'o', 'n', 's'],
        TransactionTable::ClientID => seq!['c', 'l', 'i', 'e', 'n', 't', '_', 'i', 'd'],
        TransactionTable::Amount => seq!['a', 'm', 'o', 'u', 'n', 't'],
        TransactionTable::Operation => seq!['o', 'p', 'e', 'r', 'a', 't', 'i', 'o', 'n'],
        TransactionTable::Description => seq!['d', 'e', 's', 'c', 'r', 'i', 'p', 't', 'i', 'o', 'n'],
        TransactionTable::CreatedAt => seq!['c', 'r', 'e', 'a', 't', 'e', 'd', '_', 'a', 't'],
    }
}

impl TransactionTable {
    /// The identifier this table or column has in the store.
    pub fn name(&self) -> (r: &'static str)
        ensures
            r@ == transaction_table_name(*self),
    {
        proof {
            reveal_strlit("transactions");
            reveal_strlit("client_id");
            reveal_strlit("amount");
            reveal_strlit("operation");
            reveal_strlit("description");
            reveal_strlit("created_at");
        }
        match self {
            TransactionTable::Table => "transactions",
            TransactionTable::ClientID => "client_id",
            TransactionTable::Amount => "amount",
            TransactionTable::Operation => "operation",
            TransactionTable::Description => "description",
            TransactionTable::CreatedAt => "created_at",
        }
    }
}

/// A signed operation as a client submits it.
pub struct CreateTransactionPayload {
    pub amount: i32,
    pub operation: String,
    pub description: String,
}

pub open spec fn is_credit(op: Seq<char>) -> bool {
    op == seq!['c']
}

pub open spec fn is_debit(op: Seq<char>) -> bool {
    op == seq!['d']
}

/// The field rules a payload breaks, in field order.
pub open spec fn violations(amount: i32, operation: Seq<char>, description: Seq<char>) -> Seq<FieldViolation> {
    (if amount < 1 { seq![FieldViolation::Amount] } else { Seq::empty() })
    + (if !is_credit(operation) && !is_debit(operation) { seq![FieldViolation::Operation] } else { Seq::empty() })
    + (if description.len() < 1 || description.len() > 10 { seq![FieldViolation::Description] } else { Seq::empty() })
}

fn is_single_char(s: &str, c: char) -> (r: bool)
    ensures
        r == (s@ == seq![c]),
{
    let n = s.unicode_len();
    if n != 1 {
        proof { if s@ == seq![c] { assert(s@.len() == 1); } }
        false
    } else {
        let first = s.get_char(0);
        proof {
            if first == c { assert(s@ =~= seq![c]); }
            if s@ == seq![c] { assert(s@[0] == c); }
        }
        first == c
    }
}

/// Whether the operation code is the credit one.
pub fn is_credit_op(op: &str) -> (r: bool)
    ensures
        r == is_credit(op@),
{
    is_single_char(op, 'c')
}

impl CreateTransactionPayload {
    pub open spec fn violations(&self) -> Seq<FieldViolation> {
        violations(self.amount, self.operation@, self.description@)
    }

    /// The payload is well formed: a positive amount, a credit or debit
    /// operation, and a description of one to ten characters.
    pub open spec fn valid(&self) -> bool {
        self.violations().len() == 0
    }

    /// The amount with its sign: positive for a credit, negative for a debit.
    pub open spec fn signed_amount(&self) -> int {
        if is_credit(self.operation@) { self.amount as int } else { -(self.amount as int) }
    }

    /// Checks the field rules; on failure lists every broken rule.
    pub fn validate(&self) -> (r: Result<(), CustomError>)
        ensures
            r is Ok <==> self.valid(),
            r matches Err(CustomError::Validation(v)) ==> v@ == self.violations() && v@.len() > 0,
            r is Err ==> r matches Err(CustomError::Validation(_)),
    {
        let mut v: Vec<FieldViolation> = Vec::new();
        if self.amount < 1 {
            v.push(FieldViolation::Amount);
        }
        let credit = is_single_char(self.operation.as_str(), 'c');
        let debit = is_single_char(self.operation.as_str(), 'd');
        if !credit && !debit {
            v.push(FieldViolation::Operation);
        }
        let len = self.description.as_str().unicode_len();
        if len < 1 || len > 10 {
            v.push(FieldViolation::Description);
        }
        assert(v@ =~= self.violations());
        if v.len() == 0 {
            Ok(())
        } else {
            Err(CustomError::Validation(v))
        }
    }
}

/// A payload addressed to one account.
pub struct CreateTransactionRequest {
    pub client_id: u32,
    pub payload: CreateTransactionPayload,
}

impl CreateTransactionRequest {
    pub fn new(client_id: u32, payload: CreateTransactionPayload) -> (r: CreateTransactionRequest)
        ensures
            r.client_id == client_id,
            r.payload == payload,
    {
        CreateTransactionRequest { client_id, payload }
    }
}

/// The account state after an accepted mutation.
#[derive(Clone, Copy, Debug, PartialEq, Eq, Structural)]
pub struct CreateTransactionResponse {
    pub negative_limit: i32,
    pub balance: i32,
}

impl CreateTransactionResponse {
    pub fn new(negative_limit: i32, balance: i32) -> (r: CreateTransactionResponse)
        ensures
            r.negative_limit == negative_limit,
            r.balance == balance,
    {
        CreateTransactionResponse { negative_limit, balance }
    }
}

} // verus!
