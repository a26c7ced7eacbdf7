//! Reserving a fresh share code: each attempt inserts a newly drawn code into
//! the code table; a duplicate draws again, anything else ends the search.
//! The caller performs the inserts and hands each answer to
//! `reservation_step`, which decides what comes next.
use vstd::prelude::*;

verus! {

/// How many codes are drawn before the reservation gives up.
pub const MAX_SHARE_CODE_RESERVATION_ATTEMPTS: u32 = 16;

/// SQLSTATE of an insert that hit an existing key.
pub const DUPLICATE_KEY_SQLSTATE: &'static str = "23000";

/// What the store answered to the insert of one drawn code.
#[derive(Debug, Clone, Copy, PartialEq, Eq, Structural)]
pub enum InsertOutcome {
    /// The code is now reserved.
    Inserted,
    /// The code was already taken.
    DuplicateCode,
    /// Any other store error.
    Failed,
}

/// What follows an attempt.
#[derive(Debug, Clone, Copy, PartialEq, Eq, Structural)]
pub enum ReservationStep {
    /// The drawn code is the reserved one.
    Reserved,
    /// Draw another code and insert it.
    TryAnother,
    /// The store error ends the reservation and is handed to the caller.
    Failed,
    /// Every attempt hit a taken code; the reservation fails.
    GaveUp,
}

/// The step that follows attempt number `attempt` (counted from 0).
pub open spec fn spec_reservation_step(attempt: nat, outcome: InsertOutcome) -> ReservationStep {
    match outcome {
        InsertOutcome::Inserted => ReservationStep::Reserved,
        InsertOutcome::Failed => ReservationStep::Failed,
        InsertOutcome::DuplicateCode => if attempt + 1 < MAX_SHARE_CODE_RESERVATION_ATTEMPTS {
            ReservationStep::TryAnother
        } else {
            ReservationStep::GaveUp
        },
    }
}

/// Decides what follows attempt number `attempt` (counted from 0).
pub fn reservation_step(attempt: u32, outcome: InsertOutcome) -> (r: ReservationStep)
    requires
        attempt < MAX_SHARE_CODE_RESERVATION_ATTEMPTS,
    ensures
        r == spec_reservation_step(attempt as nat, outcome),
{
    match outcome {
        InsertOutcome::Inserted => ReservationStep::Reserved,
        InsertOutcome::Failed => ReservationStep::Failed,
        InsertOutcome::DuplicateCode => {
            if attempt + 1 < MAX_SHARE_CODE_RESERVATION_ATTEMPTS {
                ReservationStep::TryAnother
            } else {
                ReservationStep::GaveUp
            }
        },
    }
}

/// Classifies a store error by its SQLSTATE: `23000` is a taken code.
pub fn classify_insert_error(sqlstate: Option<&str>) -> (r: InsertOutcome)
    ensures
        r == (if sqlstate matches Some(s) && s@ == DUPLICATE_KEY_SQLSTATE@ {
            InsertOutcome::DuplicateCode
        } else {
            InsertOutcome::Failed
        }),
{
    match sqlstate {
        Some(s) => {
            if crate::text::eq_str(&crate::text::to_chars(s), DUPLICATE_KEY_SQLSTATE) {
                InsertOutcome::DuplicateCode
            } else {
                InsertOutcome::Failed
            }
        },
        None => InsertOutcome::Failed,
    }
}

/// The error of a reservation that gave up.
pub fn gave_up_message() -> (r: String)
    ensures
        r@ == "Failed to reserve share code after repeated attempts (code pool may be nearly full)"@,
{
    "Failed to reserve share code after repeated attempts (code pool may be nearly full)".to_string()
}

/// A whole reservation from attempt `i` on, when attempt `j` is answered by
/// `outcomes[j]`: how many attempts were made in all, and how it ended.
pub open spec fn reservation_run(outcomes: Seq<InsertOutcome>, i: nat) -> (nat, ReservationStep)
    decreases MAX_SHARE_CODE_RESERVATION_ATTEMPTS - i,
{
    if i >= MAX_SHARE_CODE_RESERVATION_ATTEMPTS || i >= outcomes.len() {
        (i, ReservationStep::GaveUp)
    } else {
        match spec_reservation_step(i, outcomes[i as int]) {
            ReservationStep::TryAnother => reservation_run(outcomes, i + 1),
            s => (i + 1, s),
        }
    }
}

proof fn lemma_run_from(outcomes: Seq<InsertOutcome>, i: nat)
    requires
        outcomes.len() >= MAX_SHARE_CODE_RESERVATION_ATTEMPTS,
        i < MAX_SHARE_CODE_RESERVATION_ATTEMPTS,
    ensures
        ({
            let (n, step) = reservation_run(outcomes, i);
            &&& i < n <= MAX_SHARE_CODE_RESERVATION_ATTEMPTS
            &&& forall|j: int| i <= j < n - 1 ==> outcomes[j] == InsertOutcome::DuplicateCode
            &&& step != ReservationStep::TryAnother
            &&& (step == ReservationStep::Reserved <==> outcomes[n - 1] == InsertOutcome::Inserted)
            &&& (step == ReservationStep::Failed <==> outcomes[n - 1] == InsertOutcome::Failed)
            &&& (step == ReservationStep::GaveUp <==> (n == MAX_SHARE_CODE_RESERVATION_ATTEMPTS
                && outcomes[n - 1] == InsertOutcome::DuplicateCode))
        }),
    decreases MAX_SHARE_CODE_RESERVATION_ATTEMPTS - i,
{
    if outcomes[i as int] == InsertOutcome::DuplicateCode && i + 1 < MAX_SHARE_CODE_RESERVATION_ATTEMPTS {
        lemma_run_from(outcomes, i + 1);
    }
}

/// Law: a reservation makes at least one and at most
/// `MAX_SHARE_CODE_RESERVATION_ATTEMPTS` attempts; every attempt but the
/// last hit a taken code; the last one decides: a stored code is reserved,
/// a store error fails, and a taken code fails with `GaveUp` only when it
/// was the last attempt allowed.
pub proof fn lemma_reservation_is_bounded(outcomes: Seq<InsertOutcome>)
    requires
        outcomes.len() >= MAX_SHARE_CODE_RESERVATION_ATTEMPTS,
    ensures
        ({
            let (n, step) = reservation_run(outcomes, 0);
            &&& 1 <= n <= MAX_SHARE_CODE_RESERVATION_ATTEMPTS
            &&& forall|j: int| 0 <= j < n - 1 ==> outcomes[j] == InsertOutcome::DuplicateCode
            &&& step != ReservationStep::TryAnother
            &&& (step == ReservationStep::Reserved <==> outcomes[n - 1] == InsertOutcome::Inserted)
            &&& (step == ReservationStep::Failed <==> outcomes[n - 1] == InsertOutcome::Failed)
            &&& (step == ReservationStep::GaveUp <==> (n == MAX_SHARE_CODE_RESERVATION_ATTEMPTS
                && outcomes[n - 1] == InsertOutcome::DuplicateCode))
        }),
{
    lemma_run_from(outcomes, 0);
}

} // verus!
