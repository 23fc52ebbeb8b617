//! Acquisition and release of a per-account lock held in an outside
//! coordination service, under a retry-until-deadline policy: an attempt
//! that finds the lock held is repeated after a fixed backoff, and the
//! first attempt made at or after the deadline (the lease's time-to-live
//! after the first attempt) that still finds it held gives up. The caller
//! performs each attempt, each sleep, the protected work and the release;
//! the session decides what comes next.

use vstd::prelude::*;
use crate::error::CustomError;
use crate::text::{decimal, push_decimal};

verus! {

/// `account:<id>`, the lock key of an account.
pub open spec fn lock_key_text(client_id: u32) -> Seq<char> {
    seq!['a', 'c', 'c', 'o', 'u', 'n', 't', ':'] + decimal(client_id as nat)
}

/// The lock key of an account.
pub fn lock_key(client_id: u32) -> (r: String)
    ensures
        r@ == lock_key_text(client_id),
{
    proof { reveal_strlit("account:"); }
    let mut key = String::from_str("account:");
    push_decimal(&mut key, client_id as u64);
    key
}

/// What the coordination service answered to one acquisition attempt.
pub enum AttemptOutcome {
    /// The lock is ours until released or until its time-to-live passes.
    Acquired,
    /// Someone else holds the lock.
    Held,
    /// The service failed; the text names the cause.
    Failed(String),
}

/// What the caller does next.
pub enum LockAction<T> {
    /// Sleep this many milliseconds, then attempt again.
    Sleep(u64),
    /// The lock is held: run the protected work.
    RunBody,
    /// The work is done: release the lock.
    Release,
    /// Hand this result to the caller; the lock is not held.
    Return(Result<T, CustomError>),
}

#[derive(Clone, Copy, Debug, PartialEq, Eq, Structural)]
pub enum LockPhase {
    Acquiring,
    Running,
    Releasing,
    Done,
}

/// How long a lease lasts and how long to wait between attempts.
#[derive(Clone, Copy, Debug, PartialEq, Eq, Structural)]
pub struct LockPolicy {
    pub ttl_ms: u64,
    pub backoff_ms: u64,
}

/// The moment a contender gives up: the time-to-live after the first attempt.
pub open spec fn deadline_of(start: u64, ttl_ms: u64) -> u64 {
    if start + ttl_ms <= u64::MAX { (start + ttl_ms) as u64 } else { u64::MAX }
}


/// `nested lock: <key>`.
pub open spec fn nested_message(key: Seq<char>) -> Seq<char> {
    seq!['n', 'e', 's', 't', 'e', 'd', ' ', 'l', 'o', 'c', 'k', ':', ' '] + key
}

/// Whether `key` is among the keys in `held`.
pub fn already_held(held: &Vec<String>, key: &String) -> (r: bool)
    ensures
        r == exists|i: int| 0 <= i < held@.len() && (#[trigger] held@[i])@ == key@,
{
    let mut i: usize = 0;
    while i < held.len()
        invariant
            i <= held@.len(),
            forall|j: int| 0 <= j < i ==> (#[trigger] held@[j])@ != key@,
        decreases held@.len() - i,
    {
        if held[i] == *key {
            return true;
        }
        i = i + 1;
    }
    false
}

impl LockPolicy {
    pub fn new(ttl_ms: u64, backoff_ms: u64) -> (r: LockPolicy)
        ensures
            r.ttl_ms == ttl_ms,
            r.backoff_ms == backoff_ms,
    {
        LockPolicy { ttl_ms, backoff_ms }
    }

    /// Opens a session for `key`, whose first attempt is made at `now`.
    pub fn begin<T>(&self, key: String, now: u64) -> (r: LockSession<T>)
        ensures
            r.inv(),
            r.phase() == LockPhase::Acquiring,
            r.key() == key@,
            r.deadline() == deadline_of(now, self.ttl_ms),
            r.backoff_ms() == self.backoff_ms,
    {
        let deadline = if self.ttl_ms <= u64::MAX - now { now + self.ttl_ms } else { u64::MAX };
        LockSession { key, deadline, backoff_ms: self.backoff_ms, phase: LockPhase::Acquiring, outcome: None }
    }

    /// Opens a session for `key` on behalf of work that already holds the
    /// locks in `held`. Taking one of those again is a programming error: it
    /// fails at once instead of waiting on itself until the deadline.
    pub fn begin_within<T>(&self, held: &Vec<String>, key: String, now: u64) -> (r: Result<
        LockSession<T>,
        CustomError,
    >)
        ensures
            (exists|i: int| 0 <= i < held@.len() && (#[trigger] held@[i])@ == key@) ==> (r matches Err(
                CustomError::Unexpected(m),
            ) && m@ == nested_message(key@)),
            !(exists|i: int| 0 <= i < held@.len() && (#[trigger] held@[i])@ == key@) ==> (r matches Ok(s)
                && s.inv() && s.phase() == LockPhase::Acquiring && s.key() == key@
                && s.deadline() == deadline_of(now, self.ttl_ms) && s.backoff_ms() == self.backoff_ms),
    {
        if already_held(held, &key) {
            proof { reveal_strlit("nested lock: "); }
            let mut m = String::from_str("nested lock: ");
            m.append(key.as_str());
            Err(CustomError::Unexpected(m))
        } else {
            Ok(self.begin(key, now))
        }
    }
}

/// One use of the lock: acquire, run the work, release, return.
pub struct LockSession<T> {
    key: String,
    deadline: u64,
    backoff_ms: u64,
    phase: LockPhase,
    outcome: Option<Result<T, CustomError>>,
}

impl<T> LockSession<T> {
    pub closed spec fn key(&self) -> Seq<char> {
        self.key@
    }

    pub closed spec fn deadline(&self) -> u64 {
        self.deadline
    }

    pub closed spec fn backoff_ms(&self) -> u64 {
        self.backoff_ms
    }

    pub closed spec fn phase(&self) -> LockPhase {
        self.phase
    }

    /// The result of the work, kept while the lock is being released.
    pub closed spec fn outcome(&self) -> Option<Result<T, CustomError>> {
        self.outcome
    }

    /// The session owns the lock: it was acquired and not yet released.
    pub open spec fn holding(&self) -> bool {
        self.phase() == LockPhase::Running || self.phase() == LockPhase::Releasing
    }

    /// A work result is kept exactly while the lock is being released.
    pub open spec fn inv(&self) -> bool {
        self.phase() == LockPhase::Releasing <==> self.outcome() is Some
    }

    pub open spec fn same_lock(&self, other: &LockSession<T>) -> bool {
        &&& self.key() == other.key()
        &&& self.deadline() == other.deadline()
        &&& self.backoff_ms() == other.backoff_ms()
    }

    /// The session once the work finished with `result`.
    pub closed spec fn after_body(self, result: Result<T, CustomError>) -> LockSession<T> {
        LockSession { phase: LockPhase::Releasing, outcome: Some(result), ..self }
    }

    /// The session once the release was sent.
    pub closed spec fn after_release(self) -> LockSession<T> {
        LockSession { phase: LockPhase::Done, outcome: None, ..self }
    }

    /// Where the session stands.
    pub fn current_phase(&self) -> (r: LockPhase)
        ensures
            r == self.phase(),
    {
        self.phase
    }

    /// Decides what follows an acquisition attempt answered at `now`.
    pub fn on_attempt(&mut self, outcome: AttemptOutcome, now: u64) -> (r: LockAction<T>)
        requires
            old(self).inv(),
            old(self).phase() == LockPhase::Acquiring,
        ensures
            final(self).inv(),
            final(self).same_lock(old(self)),
            r is Return ==> final(self).phase() == LockPhase::Done && !final(self).holding(),
            outcome is Acquired ==> r is RunBody && final(self).phase() == LockPhase::Running,
            outcome is Held && now >= old(self).deadline() ==> (r matches LockAction::Return(
                Err(CustomError::LockHeld(k)),
            ) && k@ == old(self).key()),
            outcome is Held && now < old(self).deadline() ==> r == LockAction::<T>::Sleep(
                old(self).backoff_ms(),
            ) && final(self).phase() == LockPhase::Acquiring,
            outcome matches AttemptOutcome::Failed(m) ==> (r matches LockAction::Return(
                Err(CustomError::Unexpected(e)),
            ) && e@ == m@),
    {
        match outcome {
            AttemptOutcome::Acquired => {
                self.phase = LockPhase::Running;
                LockAction::RunBody
            },
            AttemptOutcome::Held => {
                if now >= self.deadline {
                    self.phase = LockPhase::Done;
                    LockAction::Return(Err(CustomError::LockHeld(self.key.clone())))
                } else {
                    LockAction::Sleep(self.backoff_ms)
                }
            },
            AttemptOutcome::Failed(m) => {
                self.phase = LockPhase::Done;
                LockAction::Return(Err(CustomError::Unexpected(m)))
            },
        }
    }

    /// The protected work finished with `result`, whatever it is: the lock
    /// is released next, and the result is kept for the caller.
    pub fn on_body_done(&mut self, result: Result<T, CustomError>) -> (r: LockAction<T>)
        requires
            old(self).inv(),
            old(self).phase() == LockPhase::Running,
        ensures
            final(self).inv(),
            final(self).same_lock(old(self)),
            r is Release,
            *final(self) == old(self).after_body(result),
            final(self).phase() == LockPhase::Releasing,
            final(self).outcome() == Some(result),
    {
        self.phase = LockPhase::Releasing;
        self.outcome = Some(result);
        LockAction::Release
    }

    /// The release was sent. Whether the service confirmed it or not, the
    /// work's result is handed back unchanged; an unconfirmed release is
    /// bounded by the lease's time-to-live.
    pub fn on_released(&mut self) -> (r: LockAction<T>)
        requires
            old(self).inv(),
            old(self).phase() == LockPhase::Releasing,
        ensures
            final(self).inv(),
            final(self).same_lock(old(self)),
            *final(self) == old(self).after_release(),
            final(self).phase() == LockPhase::Done,
            !final(self).holding(),
            r == LockAction::Return(old(self).outcome()->Some_0),
    {
        self.phase = LockPhase::Done;
        let kept = self.outcome.take();
        match kept {
            Some(result) => LockAction::Return(result),
            // a releasing session always keeps its result (see `inv`)
            None => LockAction::Return(Err(CustomError::Unexpected(String::new()))),
        }
    }
}

/// The attempt, counted from zero, at which a contender facing a lock held
/// throughout gives up, when attempts come every `backoff` milliseconds.
pub open spec fn give_up_attempt(ttl: nat, backoff: nat) -> nat
    recommends
        backoff > 0,
{
    ((ttl + backoff - 1) / backoff as int) as nat
}

/// A contender facing a lock held throughout, attempting every `backoff`
/// milliseconds from the first attempt, sleeps after every attempt made
/// before the time-to-live has passed and gives up at attempt
/// `give_up_attempt(ttl, backoff)`: the first one at or after the deadline,
/// made less than one backoff after it. It thus asks the service
/// `give_up_attempt(ttl, backoff) + 1` times and returns within
/// `ttl + backoff` of its first attempt.
pub proof fn lemma_give_up_time(ttl: nat, backoff: nat)
    requires
        backoff > 0,
    ensures
        give_up_attempt(ttl, backoff) * backoff >= ttl,
        give_up_attempt(ttl, backoff) * backoff < ttl + backoff,
        forall|j: nat| j < give_up_attempt(ttl, backoff) ==> #[trigger] (j * backoff) < ttl,
{
    let k = give_up_attempt(ttl, backoff);
    let q = (ttl + backoff - 1) / backoff as int;
    let r = (ttl + backoff - 1) % backoff as int;
    assert(q * backoff + r == ttl + backoff - 1 && 0 <= r < backoff) by (nonlinear_arith)
        requires backoff > 0, q == (ttl + backoff - 1) / backoff as int, r == (ttl + backoff - 1) % backoff as int;
    assert(q >= 0) by (nonlinear_arith)
        requires backoff > 0, q == (ttl + backoff - 1) / backoff as int, ttl >= 0;
    assert(k == q);
    assert forall|j: nat| j < k implies #[trigger] (j * backoff) < ttl by {
        assert(j * backoff <= (k - 1) * backoff) by (nonlinear_arith)
            requires j < k, backoff > 0;
        assert((k - 1) * backoff == k * backoff - backoff) by (nonlinear_arith);
    }
}

/// Whatever the protected work returns (success, a domain error or an
/// unexpected failure), a session that ran it releases the lock before it
/// hands that result back: after the work the session is releasing and still
/// owns the lock; after the release it owns nothing, is done, concerns the
/// same lock, and the result handed back is the work's own.
pub proof fn lemma_release_on_every_path<T>(s: LockSession<T>, result: Result<T, CustomError>)
    requires
        s.inv(),
        s.phase() == LockPhase::Running,
    ensures
        s.after_body(result).inv(),
        s.after_body(result).phase() == LockPhase::Releasing,
        s.after_body(result).holding(),
        s.after_body(result).outcome() == Some(result),
        s.after_body(result).after_release().inv(),
        s.after_body(result).after_release().phase() == LockPhase::Done,
        !s.after_body(result).after_release().holding(),
        s.after_body(result).after_release().same_lock(&s),
{
}

} // verus!
