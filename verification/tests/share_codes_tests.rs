use share_anything::share_codes::{
    classify_insert_error, gave_up_message, reservation_step, InsertOutcome, ReservationStep,
    MAX_SHARE_CODE_RESERVATION_ATTEMPTS,
};

/// Runs a reservation against a list of store answers, as the caller does.
fn run(outcomes: &[InsertOutcome]) -> (u32, ReservationStep) {
    let mut attempt: u32 = 0;
    loop {
        let step = reservation_step(attempt, outcomes[attempt as usize]);
        if step != ReservationStep::TryAnother {
            return (attempt + 1, step);
        }
        attempt += 1;
    }
}

#[test]
fn first_free_code_is_reserved() {
    assert_eq!(reservation_step(0, InsertOutcome::Inserted), ReservationStep::Reserved);
    assert_eq!(run(&[InsertOutcome::Inserted]), (1, ReservationStep::Reserved));
}

#[test]
fn taken_code_draws_another() {
    assert_eq!(reservation_step(0, InsertOutcome::DuplicateCode), ReservationStep::TryAnother);
    let answers = [InsertOutcome::DuplicateCode, InsertOutcome::DuplicateCode, InsertOutcome::Inserted];
    assert_eq!(run(&answers), (3, ReservationStep::Reserved));
}

#[test]
fn store_error_ends_the_reservation() {
    let answers = [InsertOutcome::DuplicateCode, InsertOutcome::Failed, InsertOutcome::Inserted];
    assert_eq!(run(&answers), (2, ReservationStep::Failed));
}

#[test]
fn gives_up_after_sixteen_taken_codes() {
    assert_eq!(MAX_SHARE_CODE_RESERVATION_ATTEMPTS, 16);
    let answers = [InsertOutcome::DuplicateCode; 20];
    assert_eq!(run(&answers), (16, ReservationStep::GaveUp));
    assert_eq!(reservation_step(15, InsertOutcome::DuplicateCode), ReservationStep::GaveUp);
    assert_eq!(reservation_step(14, InsertOutcome::DuplicateCode), ReservationStep::TryAnother);
    assert_eq!(
        gave_up_message(),
        "Failed to reserve share code after repeated attempts (code pool may be nearly full)"
    );
}

#[test]
fn duplicate_key_is_sqlstate_23000() {
    assert_eq!(classify_insert_error(Some("23000")), InsertOutcome::DuplicateCode);
    assert_eq!(classify_insert_error(Some("42000")), InsertOutcome::Failed);
    assert_eq!(classify_insert_error(Some("2300")), InsertOutcome::Failed);
    assert_eq!(classify_insert_error(None), InsertOutcome::Failed);
}
