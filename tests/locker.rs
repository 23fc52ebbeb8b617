use ledger::error::CustomError;
use ledger::locker::{lock_key, AttemptOutcome, LockAction, LockPhase, LockPolicy, LockSession};
use ledger::model::CreateTransactionResponse;

type Outcome = Result<CreateTransactionResponse, CustomError>;

#[test]
fn contender_gives_up_after_the_lease_time() {
    // holder keeps the lock for 2000 ms; policy: ttl 1000 ms, backoff 100 ms
    let policy = LockPolicy::new(1000, 100);
    let start: u64 = 5000;
    let mut now = start;
    let mut session: LockSession<CreateTransactionResponse> = policy.begin(lock_key(1), now);
    let held_until = start + 2000;
    let mut attempts = 0;
    let result = loop {
        attempts += 1;
        let outcome = if now < held_until { AttemptOutcome::Held } else { AttemptOutcome::Acquired };
        match session.on_attempt(outcome, now) {
            LockAction::Sleep(ms) => now += ms,
            LockAction::Return(r) => break r,
            _ => panic!("the lock was never free"),
        }
    };
    match result {
        Err(CustomError::LockHeld(key)) => assert_eq!(key, "account:1"),
        _ => panic!("expected LockHeld"),
    }
    let waited = now - start;
    assert!(waited >= 900 && waited <= 1100);
    assert_eq!(attempts, 11);
    assert_eq!(session.current_phase(), LockPhase::Done);
}

#[test]
fn pause_is_the_fixed_backoff_until_the_deadline() {
    // ttl 1000 ms, backoff 300 ms: attempts at 0, 300, 600, 900 sleep the
    // full backoff; the attempt at 1200 is past the deadline and gives up
    let policy = LockPolicy::new(1000, 300);
    let mut session: LockSession<CreateTransactionResponse> = policy.begin(lock_key(2), 0);
    let mut now: u64 = 0;
    let mut attempts = 0;
    loop {
        attempts += 1;
        match session.on_attempt(AttemptOutcome::Held, now) {
            LockAction::Sleep(ms) => {
                assert_eq!(ms, 300);
                now += ms;
            }
            LockAction::Return(r) => {
                assert!(matches!(r, Err(CustomError::LockHeld(_))));
                break;
            }
            _ => panic!("the lock was never free"),
        }
    }
    assert_eq!(now, 1200);
    assert_eq!(attempts, 5);
}

fn run_to_end(body: Outcome) -> Outcome {
    let policy = LockPolicy::new(1000, 100);
    let mut session: LockSession<CreateTransactionResponse> = policy.begin(lock_key(9), 0);
    assert!(matches!(session.on_attempt(AttemptOutcome::Acquired, 0), LockAction::RunBody));
    assert_eq!(session.current_phase(), LockPhase::Running);
    assert!(matches!(session.on_body_done(body), LockAction::Release));
    assert_eq!(session.current_phase(), LockPhase::Releasing);
    let r = match session.on_released() {
        LockAction::Return(r) => r,
        _ => panic!("expected the result"),
    };
    assert_eq!(session.current_phase(), LockPhase::Done);
    r
}

#[test]
fn lock_is_released_after_success() {
    let r = run_to_end(Ok(CreateTransactionResponse::new(100, -20)));
    assert_eq!(r.ok().unwrap(), CreateTransactionResponse::new(100, -20));
}

#[test]
fn lock_is_released_after_domain_error() {
    let e = ledger::error::DomainError::new("Insufficient funds for client 9".to_string(), 422);
    let r = run_to_end(Err(CustomError::Domain(e)));
    assert!(matches!(r, Err(CustomError::Domain(ref d)) if d.status == 422));
}

#[test]
fn lock_is_released_after_unexpected_error() {
    let r = run_to_end(Err(CustomError::Unexpected("store down".to_string())));
    assert!(matches!(r, Err(CustomError::Unexpected(ref m)) if m == "store down"));
}

#[test]
fn backend_failure_is_unexpected_and_not_retried() {
    let policy = LockPolicy::new(1000, 100);
    let mut session: LockSession<CreateTransactionResponse> = policy.begin(lock_key(3), 0);
    let r = session.on_attempt(AttemptOutcome::Failed("connection refused".to_string()), 0);
    assert!(matches!(r, LockAction::Return(Err(CustomError::Unexpected(ref m))) if m == "connection refused"));
}

#[test]
fn lock_key_names_the_account() {
    assert_eq!(lock_key(0), "account:0");
    assert_eq!(lock_key(4294967295), "account:4294967295");
}

#[test]
fn deadline_saturates_at_the_end_of_time() {
    let policy = LockPolicy::new(100, 50);
    let start = u64::MAX - 5;
    let mut session: LockSession<CreateTransactionResponse> = policy.begin(lock_key(8), start);
    assert!(matches!(session.on_attempt(AttemptOutcome::Held, start), LockAction::Sleep(50)));
    assert!(matches!(
        session.on_attempt(AttemptOutcome::Held, u64::MAX),
        LockAction::Return(Err(CustomError::LockHeld(_)))
    ));
}

#[test]
fn nested_lock_fails_at_once() {
    let policy = LockPolicy::new(1000, 100);
    let held = vec!["account:1".to_string(), "account:2".to_string()];
    let nested = policy.begin_within::<CreateTransactionResponse>(&held, lock_key(2), 0);
    match nested {
        Err(CustomError::Unexpected(m)) => assert_eq!(m, "nested lock: account:2"),
        _ => panic!("expected a nested lock error"),
    }
    let other = policy.begin_within::<CreateTransactionResponse>(&held, lock_key(3), 0);
    assert!(matches!(other.ok().map(|s| s.current_phase()), Some(LockPhase::Acquiring)));
}
