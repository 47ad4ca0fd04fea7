//! Retrying the deletion of an intermediate file that the platform briefly
//! keeps locked: up to five attempts, waiting 100 ms after the first lock
//! failure and twice as long after each further one.

use vstd::prelude::*;

verus! {

/// Attempts made before giving up on a locked file.
pub const MAX_DELETE_ATTEMPTS: u32 = 5;

/// Wait after the first lock failure, in milliseconds.
pub const FIRST_DELAY_MS: u64 = 100;

/// OS error code of a file that is still mapped into memory.
pub const USER_MAPPED_FILE_ERROR: i32 = 1224;

/// What one deletion attempt came to.
#[derive(Clone, Copy, Debug, PartialEq, Eq, Structural)]
pub enum DeleteOutcome {
    Removed,
    /// The file is still locked; it may be removable a moment later.
    Locked,
    /// Any other failure: retrying would not help.
    Failed,
}

/// Why an intermediate file was left in place.
#[derive(Clone, Copy, Debug, PartialEq, Eq, Structural)]
pub enum CleanupFailure {
    /// Every attempt found the file locked.
    RetriesExhausted,
    /// Deleting failed for a reason other than a lock.
    NotRemovable,
}

/// What to do after an attempt.
#[derive(Clone, Copy, Debug, PartialEq, Eq, Structural)]
pub enum DeleteStep {
    Done,
    /// Wait this many milliseconds before the next attempt, if one is left.
    Wait(u64),
    GiveUp(CleanupFailure),
}

/// Progress of the retries on one file.
#[derive(Clone, Copy, Debug, PartialEq, Eq, Structural)]
pub struct DeleteRetry {
    /// Attempts that found the file locked.
    pub attempts: u32,
    /// Wait after the next lock failure, in milliseconds.
    pub delay_ms: u64,
}

/// Wait after the lock failure that follows `k` earlier ones.
pub open spec fn backoff_delay(k: nat) -> nat
    decreases k,
{
    if k == 0 {
        FIRST_DELAY_MS as nat
    } else {
        2 * backoff_delay((k - 1) as nat)
    }
}

/// Whether the outcome of a failed deletion with this OS error code is a
/// lock that may clear.
pub open spec fn is_lock_error(raw_os_error: Option<i32>) -> bool {
    raw_os_error == Some(USER_MAPPED_FILE_ERROR)
}

/// The state after an attempt with outcome `o`, and what to do next.
pub open spec fn retry_step(s: DeleteRetry, o: DeleteOutcome) -> (DeleteRetry, DeleteStep) {
    match o {
        DeleteOutcome::Removed => (s, DeleteStep::Done),
        DeleteOutcome::Locked => (
            DeleteRetry { attempts: (s.attempts + 1) as u32, delay_ms: (2 * s.delay_ms) as u64 },
            DeleteStep::Wait(s.delay_ms),
        ),
        DeleteOutcome::Failed => (s, DeleteStep::GiveUp(CleanupFailure::NotRemovable)),
    }
}

/// The steps taken when the attempts come out as `outcomes`, until the
/// file is removed, given up on, or no attempt is left.
pub open spec fn retry_run(s: DeleteRetry, outcomes: Seq<DeleteOutcome>) -> Seq<DeleteStep>
    decreases outcomes.len(),
{
    if outcomes.len() == 0 || s.attempts >= MAX_DELETE_ATTEMPTS {
        Seq::empty()
    } else {
        let (next, step) = retry_step(s, outcomes[0]);
        if step is Wait {
            seq![step] + retry_run(next, outcomes.drop_first())
        } else {
            seq![step]
        }
    }
}

impl DeleteRetry {
    pub open spec fn wf(&self) -> bool {
        &&& self.attempts <= MAX_DELETE_ATTEMPTS
        &&& self.delay_ms == backoff_delay(self.attempts as nat)
    }

    /// No attempt made yet.
    pub fn new() -> (r: DeleteRetry)
        ensures
            r.wf(),
            r.attempts == 0,
    {
        DeleteRetry { attempts: 0, delay_ms: FIRST_DELAY_MS }
    }

    /// Whether another attempt may be made.
    pub fn may_attempt(&self) -> (r: bool)
        ensures
            r == (self.attempts < MAX_DELETE_ATTEMPTS),
    {
        self.attempts < MAX_DELETE_ATTEMPTS
    }

    /// Records the outcome of an attempt and says what to do next.
    pub fn record(&mut self, outcome: DeleteOutcome) -> (r: DeleteStep)
        requires
            old(self).wf(),
            old(self).attempts < MAX_DELETE_ATTEMPTS,
        ensures
            *final(self) == retry_step(*old(self), outcome).0,
            r == retry_step(*old(self), outcome).1,
            final(self).wf(),
    {
        match outcome {
            DeleteOutcome::Removed => DeleteStep::Done,
            DeleteOutcome::Locked => {
                proof {
                    lemma_backoff_delay_bound(self.attempts as nat);
                }
                let wait = self.delay_ms;
                self.attempts = self.attempts + 1;
                self.delay_ms = 2 * self.delay_ms;
                DeleteStep::Wait(wait)
            },
            DeleteOutcome::Failed => DeleteStep::GiveUp(CleanupFailure::NotRemovable),
        }
    }
}

/// Sorts a failed deletion by its OS error code.
pub fn classify_delete_error(raw_os_error: Option<i32>) -> (r: DeleteOutcome)
    ensures
        r == (if is_lock_error(raw_os_error) {
            DeleteOutcome::Locked
        } else {
            DeleteOutcome::Failed
        }),
{
    match raw_os_error {
        Some(code) => if code == USER_MAPPED_FILE_ERROR {
            DeleteOutcome::Locked
        } else {
            DeleteOutcome::Failed
        },
        None => DeleteOutcome::Failed,
    }
}

proof fn lemma_backoff_delay_values()
    ensures
        backoff_delay(0) == 100,
        backoff_delay(1) == 200,
        backoff_delay(2) == 400,
        backoff_delay(3) == 800,
        backoff_delay(4) == 1600,
        backoff_delay(5) == 3200,
{
    reveal_with_fuel(backoff_delay, 6);
}

proof fn lemma_backoff_delay_bound(k: nat)
    requires
        k < MAX_DELETE_ATTEMPTS,
    ensures
        backoff_delay(k) <= 1600,
        backoff_delay(k + 1) == 2 * backoff_delay(k),
{
    lemma_backoff_delay_values();
}

/// Whatever the attempts come to, no more than five are made, counted from
/// any state that the retries can reach.
pub proof fn retries_are_bounded(s: DeleteRetry, outcomes: Seq<DeleteOutcome>)
    requires
        s.wf(),
    ensures
        retry_run(s, outcomes).len() <= MAX_DELETE_ATTEMPTS - s.attempts,
    decreases outcomes.len(),
{
    if outcomes.len() > 0 && s.attempts < MAX_DELETE_ATTEMPTS {
        let (next, step) = retry_step(s, outcomes[0]);
        if step is Wait {
            lemma_backoff_delay_bound(s.attempts as nat);
            retries_are_bounded(next, outcomes.drop_first());
        }
    }
}

/// A file that stays locked is tried five times, with waits of 100, 200,
/// 400, 800 and 1600 ms, and then no attempt is left.
pub proof fn locked_file_is_given_up_after_five_attempts(outcomes: Seq<DeleteOutcome>)
    requires
        outcomes.len() >= 5,
        forall|i: int| 0 <= i < outcomes.len() ==> outcomes[i] == DeleteOutcome::Locked,
    ensures
        retry_run(DeleteRetry { attempts: 0, delay_ms: FIRST_DELAY_MS }, outcomes) == seq![
            DeleteStep::Wait(100),
            DeleteStep::Wait(200),
            DeleteStep::Wait(400),
            DeleteStep::Wait(800),
            DeleteStep::Wait(1600),
        ],
{
    let o1 = outcomes.drop_first();
    let o2 = o1.drop_first();
    let o3 = o2.drop_first();
    let o4 = o3.drop_first();
    let o5 = o4.drop_first();
    let s5 = DeleteRetry { attempts: 5, delay_ms: 3200 };
    assert(retry_run(s5, o5) =~= Seq::<DeleteStep>::empty());
    assert(o4[0] == DeleteOutcome::Locked);
    assert(o3[0] == DeleteOutcome::Locked);
    assert(o2[0] == DeleteOutcome::Locked);
    assert(o1[0] == DeleteOutcome::Locked);
    assert(outcomes[0] == DeleteOutcome::Locked);
    let s4 = DeleteRetry { attempts: 4, delay_ms: 1600 };
    assert(retry_run(s4, o4) =~= seq![DeleteStep::Wait(1600)]);
    let s3 = DeleteRetry { attempts: 3, delay_ms: 800 };
    assert(retry_run(s3, o3) =~= seq![DeleteStep::Wait(800), DeleteStep::Wait(1600)]);
    let s2 = DeleteRetry { attempts: 2, delay_ms: 400 };
    assert(retry_run(s2, o2) =~= seq![DeleteStep::Wait(400), DeleteStep::Wait(800), DeleteStep::Wait(1600)]);
    let s1 = DeleteRetry { attempts: 1, delay_ms: 200 };
    assert(retry_run(s1, o1) =~= seq![
        DeleteStep::Wait(200),
        DeleteStep::Wait(400),
        DeleteStep::Wait(800),
        DeleteStep::Wait(1600),
    ]);
}

} // verus!
