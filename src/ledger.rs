//! The balance mutation rules: what a signed amount does to an account, when
//! it is refused, and what a run of such mutations leaves behind.

use vstd::prelude::*;
use crate::error::{CustomError, DomainError};
use crate::model::{Client, CreateTransactionRequest, CreateTransactionResponse};
use crate::queries::persist_statements;
use crate::text::{decimal, push_decimal};

verus! {

/// Status of a refused mutation: the request is well formed but cannot be applied.
pub const STATUS_UNPROCESSABLE: u16 = 422;
/// Status of a lookup of an account that does not exist.
pub const STATUS_NOT_FOUND: u16 = 404;

/// The balance an account would have after a signed amount.
pub open spec fn balance_after(c: Client, signed: int) -> int {
    c.balance + signed
}

/// The account's limit allows the new balance, and the balance still fits
/// the stored integer.
pub open spec fn accepted(c: Client, signed: int) -> bool {
    -c.negative_limit <= balance_after(c, signed) <= i32::MAX
}

/// The account after a mutation: changed when accepted, untouched otherwise.
pub open spec fn applied(c: Client, signed: int) -> Client {
    if accepted(c, signed) {
        Client { balance: balance_after(c, signed) as i32, ..c }
    } else {
        c
    }
}

/// The account after a run of mutations applied one after another, in order.
pub open spec fn applied_all(c: Client, ops: Seq<int>) -> Client
    decreases ops.len(),
{
    if ops.len() == 0 {
        c
    } else {
        applied(applied_all(c, ops.drop_last()), ops.last())
    }
}

/// `Insufficient funds for client <id>`.
pub open spec fn insufficient_funds_message(id: u32) -> Seq<char> {
    seq!['I', 'n', 's', 'u', 'f', 'f', 'i', 'c', 'i', 'e', 'n', 't', ' ', 'f', 'u', 'n', 'd', 's', ' ',
        'f', 'o', 'r', ' ', 'c', 'l', 'i', 'e', 'n', 't', ' '] + decimal(id as nat)
}

/// `No matching client meta for client id <id>`.
pub open spec fn not_found_message(id: u32) -> Seq<char> {
    seq!['N', 'o', ' ', 'm', 'a', 't', 'c', 'h', 'i', 'n', 'g', ' ', 'c', 'l', 'i', 'e', 'n', 't', ' ',
        'm', 'e', 't', 'a', ' ', 'f', 'o', 'r', ' ', 'c', 'l', 'i', 'e', 'n', 't', ' ', 'i', 'd', ' ']
        + decimal(id as nat)
}

/// The account a lookup found, or the not-found domain error.
pub fn client_from_row(id: u32, row: Option<Client>) -> (r: Result<Client, CustomError>)
    ensures
        row matches Some(c) ==> r == Ok::<Client, CustomError>(c),
        row is None ==> (r matches Err(CustomError::Domain(e))
            && e.status == STATUS_NOT_FOUND && e.message@ == not_found_message(id)),
{
    match row {
        Some(c) => Ok(c),
        None => {
            proof { reveal_strlit("No matching client meta for client id "); }
            let mut message = String::from_str("No matching client meta for client id ");
            push_decimal(&mut message, id as u64);
            Err(CustomError::Domain(DomainError::new(message, STATUS_NOT_FOUND)))
        },
    }
}

/// The current balance plus the request's signed amount, exactly.
pub fn calculate_new_balance(current_balance: i32, request: &CreateTransactionRequest) -> (r: i64)
    ensures
        r == current_balance + request.payload.signed_amount(),
{
    let credit = crate::model::is_credit_op(request.payload.operation.as_str());
    let amount: i64 = if credit {
        request.payload.amount as i64
    } else {
        -(request.payload.amount as i64)
    };
    current_balance as i64 + amount
}

/// Decides a mutation on the freshly read account: the new state when the
/// negative limit allows it, the insufficient-funds error otherwise.
pub fn process_new_transaction(client: &Client, request: &CreateTransactionRequest) -> (r: Result<
    CreateTransactionResponse,
    CustomError,
>)
    ensures
        r is Ok <==> accepted(*client, request.payload.signed_amount()),
        r matches Ok(resp) ==> resp.balance == balance_after(*client, request.payload.signed_amount())
            && resp.balance == applied(*client, request.payload.signed_amount()).balance
            && resp.negative_limit == client.negative_limit,
        balance_after(*client, request.payload.signed_amount()) < -client.negative_limit
            ==> (r matches Err(CustomError::Domain(e)) && e.status == STATUS_UNPROCESSABLE
            && e.message@ == insufficient_funds_message(client.id)),
        balance_after(*client, request.payload.signed_amount()) > i32::MAX ==> r matches Err(
            CustomError::Unexpected(_),
        ),
{
    let new_balance = calculate_new_balance(client.balance, request);
    if new_balance < -(client.negative_limit as i64) {
        proof { reveal_strlit("Insufficient funds for client "); }
        let mut message = String::from_str("Insufficient funds for client ");
        push_decimal(&mut message, client.id as u64);
        return Err(CustomError::Domain(DomainError::new(message, STATUS_UNPROCESSABLE)));
    }
    if new_balance > i32::MAX as i64 {
        let mut message = String::from_str("balance out of range for client ");
        push_decimal(&mut message, client.id as u64);
        return Err(CustomError::Unexpected(message));
    }
    Ok(CreateTransactionResponse::new(client.negative_limit, new_balance as i32))
}

/// The work done while the account lock is held, from the account row read
/// under the lock: the new state and the batch that persists it, or the
/// error that stops the mutation before anything is written.
pub fn plan_mutation(row: Option<Client>, request: &CreateTransactionRequest) -> (r: Result<
    (CreateTransactionResponse, String),
    CustomError,
>)
    ensures
        row is None ==> (r matches Err(CustomError::Domain(e)) && e.status == STATUS_NOT_FOUND
            && e.message@ == not_found_message(request.client_id)),
        row matches Some(c) ==> (r is Ok <==> accepted(c, request.payload.signed_amount())),
        row is Some && accepted(row->Some_0, request.payload.signed_amount()) ==> (r matches Ok(p)
            && p.0.balance == balance_after(row->Some_0, request.payload.signed_amount())
            && p.0.balance == applied(row->Some_0, request.payload.signed_amount()).balance
            && p.0.negative_limit == row->Some_0.negative_limit
            && p.1@ == crate::queries::persist_text(request, p.0.balance)),
        row matches Some(c) && balance_after(c, request.payload.signed_amount()) < -c.negative_limit
            ==> (r matches Err(CustomError::Domain(e)) && e.status == STATUS_UNPROCESSABLE),
        row matches Some(c) && balance_after(c, request.payload.signed_amount()) > i32::MAX
            ==> r matches Err(CustomError::Unexpected(_)),
{
    let client = client_from_row(request.client_id, row)?;
    let response = process_new_transaction(&client, request)?;
    let batch = persist_statements(request, response.balance);
    Ok((response, batch))
}

/// An accepted mutation leaves the balance at or above the negative limit,
/// and a refused one leaves the account as it was.
pub proof fn lemma_mutation_keeps_limit(c: Client, signed: int)
    ensures
        accepted(c, signed) ==> applied(c, signed).within_limit(),
        !accepted(c, signed) ==> applied(c, signed) == c,
        applied(c, signed).id == c.id,
        applied(c, signed).negative_limit == c.negative_limit,
{
}

/// For every run of mutations on one account that starts within its limit,
/// the account is within its limit after each of them, and a refused
/// mutation changes nothing.
pub proof fn lemma_limit_invariant(c: Client, ops: Seq<int>)
    requires
        c.within_limit(),
    ensures
        forall|i: int| 0 <= i <= ops.len() ==> #[trigger] applied_all(c, ops.take(i)).within_limit(),
        forall|i: int|
            0 <= i < ops.len() && !accepted(applied_all(c, ops.take(i)), ops[i])
                ==> #[trigger] applied_all(c, ops.take(i + 1)) == applied_all(c, ops.take(i)),
        applied_all(c, ops).negative_limit == c.negative_limit,
    decreases ops.len(),
{
    if ops.len() > 0 {
        let prev = ops.drop_last();
        lemma_limit_invariant(c, prev);
        assert forall|i: int| 0 <= i <= ops.len() implies #[trigger] applied_all(c, ops.take(i)).within_limit() by {
            if i < ops.len() {
                assert(ops.take(i) =~= prev.take(i));
            } else {
                assert(ops.take(i) =~= ops);
                assert(prev.take(prev.len() as int) =~= prev);
                lemma_mutation_keeps_limit(applied_all(c, prev), ops.last());
            }
        }
        assert forall|i: int|
            0 <= i < ops.len() && !accepted(applied_all(c, ops.take(i)), ops[i])
                implies #[trigger] applied_all(c, ops.take(i + 1)) == applied_all(c, ops.take(i)) by {
            assert(ops.take(i + 1).drop_last() =~= ops.take(i));
        }
        assert(ops.take(ops.len() as int) =~= ops);
    } else {
        assert forall|i: int| 0 <= i <= ops.len() implies #[trigger] applied_all(c, ops.take(i)).within_limit() by {
            assert(ops.take(i) =~= ops);
        }
    }
}

/// `n` credits of the same amount.
pub open spec fn credits(n: nat, amount: int) -> Seq<int> {
    Seq::new(n, |i: int| amount)
}

/// Credits applied one after another, as the per-account lock orders them,
/// lose no update: `n` credits of `amount` on balance `b` end at `b + n * amount`,
/// as long as that total fits the stored balance.
pub proof fn lemma_credits_serialize(c: Client, n: nat, amount: int)
    requires
        c.within_limit(),
        amount >= 1,
        c.balance + n * amount <= i32::MAX,
    ensures
        applied_all(c, credits(n, amount)).balance == c.balance + n * amount,
        applied_all(c, credits(n, amount)).within_limit(),
    decreases n,
{
    if n > 0 {
        let m = (n - 1) as nat;
        assert(credits(n, amount).drop_last() =~= credits(m, amount));
        assert(m * amount <= n * amount) by (nonlinear_arith)
            requires m == n - 1, amount >= 1;
        lemma_credits_serialize(c, m, amount);
        assert(m * amount + amount == n * amount) by (nonlinear_arith)
            requires m == n - 1;
        assert(credits(n, amount).last() == amount);
        assert(m * amount >= 0) by (nonlinear_arith)
            requires amount >= 1;
    } else {
        assert(credits(n, amount) =~= Seq::<int>::empty());
        assert(n * amount == 0) by (nonlinear_arith)
            requires n == 0;
    }
}

} // verus!
