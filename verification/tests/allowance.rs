use tswap::allowance::{check_allowance, AllowanceAction, AllowanceGuard};

#[test]
fn one_approval_for_a_deficiency_episode() {
    // Allowance observed short twice, then at the requirement: one
    // submission in all, not three.
    let observations = vec![0, 0, 100];
    let (submissions, satisfied) = check_allowance(100, &observations);
    assert_eq!(submissions, 1);
    assert!(satisfied);
}

#[test]
fn no_approval_when_the_allowance_already_clears() {
    let observations = vec![100];
    let (submissions, satisfied) = check_allowance(100, &observations);
    assert_eq!(submissions, 0);
    assert!(satisfied);
}

#[test]
fn still_one_approval_while_never_satisfied() {
    let observations = vec![0, 0, 0, 0];
    let (submissions, satisfied) = check_allowance(1, &observations);
    assert_eq!(submissions, 1);
    assert!(!satisfied);
}

#[test]
fn no_polls_no_approvals() {
    let observations = vec![];
    let (submissions, satisfied) = check_allowance(5, &observations);
    assert_eq!(submissions, 0);
    assert!(!satisfied);
}

#[test]
fn polling_stops_at_the_first_satisfying_observation() {
    let observations = vec![50, 200, 10];
    let (submissions, satisfied) = check_allowance(100, &observations);
    assert_eq!(submissions, 1);
    assert!(satisfied);
}

#[test]
fn guard_submits_once_then_waits() {
    let mut guard = AllowanceGuard::new(10);
    assert_eq!(guard.poll(5), AllowanceAction::Submit { amount: 10 });
    assert_eq!(guard.poll(5), AllowanceAction::Wait);
    assert_eq!(guard.poll(10), AllowanceAction::Satisfied);
}
