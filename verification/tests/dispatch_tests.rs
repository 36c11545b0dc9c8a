use rustfinal::dispatch::UnitOutcome::{Completed, Failed};
use rustfinal::dispatch::{Action, Dispatch, Report, TaskFailure, UnitOutcome};

fn joined(outcome: UnitOutcome) -> Report {
    Report::Joined { outcome }
}

/// Drives a dispatch to its end with units that end as `outcomes` says, and
/// checks on the way that it asks for each launch and each join in order.
fn run(outcomes: &[UnitOutcome]) -> Result<(), TaskFailure> {
    let mut dispatch = Dispatch::new(outcomes.len());
    for unit in 0..outcomes.len() {
        assert_eq!(dispatch.pending(), Action::Launch { unit });
        assert!(dispatch.advance(Report::Launched));
    }
    for (unit, outcome) in outcomes.iter().enumerate() {
        assert_eq!(dispatch.pending(), Action::Join { unit });
        assert!(dispatch.advance(joined(*outcome)));
    }
    match dispatch.pending() {
        Action::Finish { result } => result,
        other => panic!("dispatch is not finished: {:?}", other),
    }
}

#[test]
fn no_units_finish_at_once() {
    let dispatch = Dispatch::new(0);
    assert_eq!(dispatch.pending(), Action::Finish { result: Ok(()) });
    assert_eq!(run(&[]), Ok(()));
}

#[test]
fn all_completed_is_success() {
    assert_eq!(run(&[UnitOutcome::Completed]), Ok(()));
    assert_eq!(run(&[UnitOutcome::Completed; 5]), Ok(()));
    assert_eq!(run(&[UnitOutcome::Completed; 100]), Ok(()));
}

#[test]
fn single_failure_is_reported_with_its_position() {
    assert_eq!(run(&[Failed]), Err(TaskFailure { unit: 0 }));
    assert_eq!(
        run(&[Completed, Completed, Failed, Completed]),
        Err(TaskFailure { unit: 2 })
    );
    assert_eq!(
        run(&[Completed, Completed, Completed, Failed]),
        Err(TaskFailure { unit: 3 })
    );
}

#[test]
fn first_of_several_failures_is_reported() {
    assert_eq!(
        run(&[Completed, Failed, Completed, Failed, Failed]),
        Err(TaskFailure { unit: 1 })
    );
    assert_eq!(run(&[Failed, Failed]), Err(TaskFailure { unit: 0 }));
}

#[test]
fn failure_does_not_end_the_joins_early() {
    let mut dispatch = Dispatch::new(3);
    for _ in 0..3 {
        assert!(dispatch.advance(Report::Launched));
    }
    assert!(dispatch.advance(joined(UnitOutcome::Failed)));
    assert_eq!(dispatch.pending(), Action::Join { unit: 1 });
    assert!(dispatch.advance(joined(UnitOutcome::Completed)));
    assert_eq!(dispatch.pending(), Action::Join { unit: 2 });
    assert!(dispatch.advance(joined(UnitOutcome::Completed)));
    assert_eq!(
        dispatch.pending(),
        Action::Finish {
            result: Err(TaskFailure { unit: 0 })
        }
    );
}

#[test]
fn join_before_all_launched_is_ignored() {
    let mut dispatch = Dispatch::new(2);
    assert!(!dispatch.advance(joined(UnitOutcome::Failed)));
    assert_eq!(dispatch.pending(), Action::Launch { unit: 0 });
    assert!(dispatch.advance(Report::Launched));
    assert!(!dispatch.advance(joined(UnitOutcome::Failed)));
    assert_eq!(dispatch.pending(), Action::Launch { unit: 1 });
    assert!(dispatch.advance(Report::Launched));
    assert_eq!(dispatch.pending(), Action::Join { unit: 0 });
    assert!(dispatch.advance(joined(UnitOutcome::Completed)));
    assert!(dispatch.advance(joined(UnitOutcome::Completed)));
    assert_eq!(dispatch.pending(), Action::Finish { result: Ok(()) });
}

#[test]
fn launch_beyond_the_count_is_ignored() {
    let mut dispatch = Dispatch::new(1);
    assert!(dispatch.advance(Report::Launched));
    assert!(!dispatch.advance(Report::Launched));
    assert_eq!(dispatch.pending(), Action::Join { unit: 0 });
}

#[test]
fn reports_after_the_end_are_ignored() {
    let mut dispatch = Dispatch::new(1);
    assert!(dispatch.advance(Report::Launched));
    assert!(dispatch.advance(joined(UnitOutcome::Completed)));
    assert_eq!(dispatch.pending(), Action::Finish { result: Ok(()) });
    assert!(!dispatch.advance(joined(UnitOutcome::Failed)));
    assert!(!dispatch.advance(Report::Launched));
    assert_eq!(dispatch.pending(), Action::Finish { result: Ok(()) });
}

#[test]
fn pending_does_not_advance() {
    let dispatch = Dispatch::new(4);
    assert_eq!(dispatch.pending(), Action::Launch { unit: 0 });
    assert_eq!(dispatch.pending(), Action::Launch { unit: 0 });
}

#[test]
fn largest_count_starts_with_a_launch() {
    let mut dispatch = Dispatch::new(usize::MAX);
    assert_eq!(dispatch.pending(), Action::Launch { unit: 0 });
    assert!(dispatch.advance(Report::Launched));
    assert_eq!(dispatch.pending(), Action::Launch { unit: 1 });
}
