use ledger::error::{CustomError, DomainError, FieldViolation, LOCK_HELD_BODY, REJECTION_BODY, UNEXPECTED_BODY};
use ledger::model::{is_credit_op, ClientTable, CreateTransactionPayload, TransactionTable, OPERATION_CREDIT, OPERATION_DEBIT};

fn payload(amount: i32, operation: &str, description: &str) -> CreateTransactionPayload {
    CreateTransactionPayload { amount, operation: operation.to_string(), description: description.to_string() }
}

fn violations(p: &CreateTransactionPayload) -> Vec<FieldViolation> {
    match p.validate() {
        Ok(()) => vec![],
        Err(CustomError::Validation(v)) => v,
        Err(_) => panic!("unexpected error kind"),
    }
}

#[test]
fn valid_payloads_pass() {
    assert!(payload(1, OPERATION_CREDIT, "a").validate().is_ok());
    assert!(payload(i32::MAX, OPERATION_DEBIT, "0123456789").validate().is_ok());
    assert!(payload(5, "d", "ação").validate().is_ok());
}

#[test]
fn each_broken_rule_is_reported() {
    assert_eq!(violations(&payload(0, "c", "x")), vec![FieldViolation::Amount]);
    assert_eq!(violations(&payload(-3, "c", "x")), vec![FieldViolation::Amount]);
    assert_eq!(violations(&payload(1, "x", "x")), vec![FieldViolation::Operation]);
    assert_eq!(violations(&payload(1, "cd", "x")), vec![FieldViolation::Operation]);
    assert_eq!(violations(&payload(1, "c", "")), vec![FieldViolation::Description]);
    assert_eq!(violations(&payload(1, "c", "01234567890")), vec![FieldViolation::Description]);
    assert_eq!(
        violations(&payload(0, "", "")),
        vec![FieldViolation::Amount, FieldViolation::Operation, FieldViolation::Description]
    );
}

#[test]
fn credit_code_is_c() {
    assert!(is_credit_op("c"));
    assert!(!is_credit_op("d"));
    assert!(!is_credit_op("C"));
}

#[test]
fn table_identifiers() {
    assert_eq!(ClientTable::Table.name(), "clients");
    assert_eq!(ClientTable::NegativeLimit.name(), "negative_limit");
    assert_eq!(TransactionTable::Table.name(), "transactions");
    assert_eq!(TransactionTable::ClientID.name(), "client_id");
    assert_eq!(TransactionTable::CreatedAt.name(), "created_at");
}

#[test]
fn domain_error_pretty() {
    let e = DomainError::new("Insufficient funds for client 1".to_string(), 422);
    assert_eq!(e.pretty(), "[422] - Insufficient funds for client 1");
    assert_eq!(DomainError::new(String::new(), 0).pretty(), "[0] - ");
}

#[test]
fn error_statuses_and_bodies() {
    let unexpected = CustomError::Unexpected("boom".to_string());
    assert_eq!(unexpected.status(), 500);
    assert_eq!(unexpected.fixed_body(), Some(UNEXPECTED_BODY));
    assert!(UNEXPECTED_BODY.contains("\"status\": 500"));
    let held = CustomError::LockHeld("account:1".to_string());
    assert_eq!(held.status(), 423);
    assert_eq!(held.fixed_body(), Some(LOCK_HELD_BODY));
    let rejected = CustomError::Rejection("bad path".to_string());
    assert_eq!(rejected.status(), 422);
    assert_eq!(rejected.fixed_body(), Some(REJECTION_BODY));
    let invalid = CustomError::Validation(vec![FieldViolation::Amount]);
    assert_eq!(invalid.status(), 422);
    assert_eq!(invalid.fixed_body(), None);
    let domain = CustomError::Domain(DomainError::new("No matching client meta for client id 6".to_string(), 404));
    assert_eq!(domain.status(), 404);
    assert_eq!(domain.fixed_body(), None);
}
