//! Errors surfaced by the ledger core.

use vstd::prelude::*;
use crate::text::{decimal, push_decimal};

verus! {

/// A rule of the domain that a request broke, with the HTTP status it maps to.
pub struct DomainError {
    pub message: String,
    pub status: u16,
}

/// `[status] - message`.
pub open spec fn pretty_text(message: Seq<char>, status: u16) -> Seq<char> {
    seq!['['] + decimal(status as nat) + seq![']', ' ', '-', ' '] + message
}

impl DomainError {
    pub fn new(message: String, status: u16) -> (r: DomainError)
        ensures
            r.message@ == message@,
            r.status == status,
    {
        DomainError { message, status }
    }

    /// The error as `[status] - message`.
    pub fn pretty(&self) -> (r: String)
        ensures
            r@ == pretty_text(self.message@, self.status),
    {
        proof {
            reveal_strlit("[");
            reveal_strlit("] - ");
        }
        let mut r = String::from_str("[");
        push_decimal(&mut r, self.status as u64);
        r.append("] - ");
        r.append(self.message.as_str());
        r
    }
}

/// A field of a transaction payload that failed validation.
#[derive(Clone, Copy, Debug, PartialEq, Eq, Structural)]
pub enum FieldViolation {
    /// The amount is below one.
    Amount,
    /// The operation is neither credit nor debit.
    Operation,
    /// The description is empty or longer than ten characters.
    Description,
}

/// Every failure the ledger core reports to its callers.
pub enum CustomError {
    /// A backend or transport failure; the message names its cause.
    Unexpected(String),
    /// The payload broke one or more field rules, in field order.
    Validation(Vec<FieldViolation>),
    /// A domain rule was broken (account not found, insufficient funds).
    Domain(DomainError),
    /// The request could not be read.
    Rejection(String),
    /// The account lock stayed held by someone else until the deadline; the
    /// text is the lock key.
    LockHeld(String),
}

/// Body sent for an unexpected failure; its cause is only logged.
pub const UNEXPECTED_BODY: &'static str = r#"{ "code": "unexpected", "message": "erro inesperado", "status": 500 }"#;
/// Body sent for a request that could not be read.
pub const REJECTION_BODY: &'static str = r#"{ "code": "unproc", "message": "requisição inválida", "status": 422 }"#;
/// Body sent when the account lock stayed held.
pub const LOCK_HELD_BODY: &'static str = r#"{ "code": "lockheld", "message": "recurso indisponível", "status": 409 }"#;

/// The HTTP status each kind of error is answered with.
pub open spec fn status_of(e: &CustomError) -> u16 {
    match e {
        CustomError::Unexpected(_) => 500,
        CustomError::Validation(_) => 422,
        CustomError::Domain(d) => d.status,
        CustomError::Rejection(_) => 422,
        CustomError::LockHeld(_) => 423,
    }
}

impl CustomError {
    /// The HTTP status this error is answered with.
    pub fn status(&self) -> (r: u16)
        ensures
            r == status_of(self),
    {
        match self {
            CustomError::Unexpected(_) => 500,
            CustomError::Validation(_) => 422,
            CustomError::Domain(d) => d.status,
            CustomError::Rejection(_) => 422,
            CustomError::LockHeld(_) => 423,
        }
    }

    /// The fixed body of the kinds that hide their details; `None` for the
    /// kinds whose details are sent to the client (validation and domain).
    pub fn fixed_body(&self) -> (r: Option<&'static str>)
        ensures
            self is Unexpected ==> r == Some(UNEXPECTED_BODY),
            self is Rejection ==> r == Some(REJECTION_BODY),
            self is LockHeld ==> r == Some(LOCK_HELD_BODY),
            self is Validation || self is Domain ==> r is None,
    {
        match self {
            CustomError::Unexpected(_) => Some(UNEXPECTED_BODY),
            CustomError::Validation(_) => None,
            CustomError::Domain(_) => None,
            CustomError::Rejection(_) => Some(REJECTION_BODY),
            CustomError::LockHeld(_) => Some(LOCK_HELD_BODY),
        }
    }
}

} // verus!
