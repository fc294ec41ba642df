use homemagic_application::automation_compiler::AutomationApprovalRequirement;
use homemagic_application::automation_lifecycle::{
    activation_check, approval_decision, cancel_run, ensure_owner, listing_limit, simulation_transitions, trace_page,
    AutomationApprovalState, AutomationLifecycleError, AutomationTimer, AutomationVersionState, TracePaging,
    VersionTransition,
};
use homemagic_application::automation_runtime::{AutomationRun, AutomationRunState, AutomationTimerState};
use homemagic_application::automation_simulator::AutomationSimulationStatus;

fn run(state: AutomationRunState) -> AutomationRun {
    AutomationRun { id: 3, state, node_id: Some(2), continuations: Vec::new(), revision: 4, updated_at: 10 }
}

fn timer(id: u64, run_id: u64, state: AutomationTimerState) -> AutomationTimer {
    AutomationTimer { id, run_id, node_id: 2, ready_at: 20, state }
}

#[test]
fn only_the_author_may_act() {
    assert_eq!(ensure_owner(5, 5), Ok(()));
    assert_eq!(ensure_owner(5, 6), Err(AutomationLifecycleError::NotAuthorized));
}

#[test]
fn listings_are_bounded() {
    assert_eq!(listing_limit(0), 1);
    assert_eq!(listing_limit(25), 25);
    assert_eq!(listing_limit(1_000), 100);
}

#[test]
fn completed_simulation_makes_a_validated_version_ready() {
    let simulated = VersionTransition { expected: AutomationVersionState::Validated, next: AutomationVersionState::Simulated };
    assert_eq!(
        simulation_transitions(
            AutomationVersionState::Validated,
            AutomationSimulationStatus::Completed,
            AutomationApprovalRequirement::ActivationGrant,
        ),
        Ok(vec![simulated, VersionTransition { expected: AutomationVersionState::Simulated, next: AutomationVersionState::Ready }])
    );
    assert_eq!(
        simulation_transitions(
            AutomationVersionState::Validated,
            AutomationSimulationStatus::Completed,
            AutomationApprovalRequirement::ExplicitUserApproval,
        ),
        Ok(vec![
            simulated,
            VersionTransition { expected: AutomationVersionState::Simulated, next: AutomationVersionState::AwaitingApproval },
        ])
    );
    assert_eq!(
        simulation_transitions(
            AutomationVersionState::Validated,
            AutomationSimulationStatus::Failed,
            AutomationApprovalRequirement::ActivationGrant,
        ),
        Ok(vec![simulated])
    );
    assert_eq!(
        simulation_transitions(
            AutomationVersionState::Ready,
            AutomationSimulationStatus::Completed,
            AutomationApprovalRequirement::ActivationGrant,
        ),
        Err(AutomationLifecycleError::InvalidState)
    );
}

#[test]
fn approval_decides_only_awaiting_versions() {
    assert_eq!(
        approval_decision(AutomationVersionState::AwaitingApproval, true),
        Ok((AutomationApprovalState::Approved, AutomationVersionState::Ready))
    );
    assert_eq!(
        approval_decision(AutomationVersionState::AwaitingApproval, false),
        Ok((AutomationApprovalState::Rejected, AutomationVersionState::Rejected))
    );
    assert_eq!(approval_decision(AutomationVersionState::Ready, true), Err(AutomationLifecycleError::InvalidState));
    assert_eq!(activation_check(AutomationVersionState::Ready), Ok(()));
    assert_eq!(activation_check(AutomationVersionState::Simulated), Err(AutomationLifecycleError::InvalidState));
}

#[test]
fn cancelling_a_run_cancels_its_open_timers() {
    let mut active = run(AutomationRunState::Waiting);
    let timers = vec![
        timer(1, 3, AutomationTimerState::Pending),
        timer(2, 3, AutomationTimerState::Consumed),
        timer(3, 9, AutomationTimerState::Ready),
        timer(4, 3, AutomationTimerState::Ready),
    ];
    let cancelled = cancel_run(&mut active, &timers, 50).expect("cancellable");
    assert_eq!(cancelled, vec![timer(1, 3, AutomationTimerState::Cancelled), timer(4, 3, AutomationTimerState::Cancelled)]);
    assert_eq!(active.state, AutomationRunState::Cancelled);
    assert_eq!(active.revision, 5);
    assert_eq!(active.updated_at, 50);

    let mut done = run(AutomationRunState::Completed);
    assert_eq!(cancel_run(&mut done, &timers, 50), Err(AutomationLifecycleError::InvalidState));
    assert_eq!(done.revision, 4);
}

#[test]
fn trace_paging_finds_the_next_sequence() {
    assert_eq!(trace_page(None, None, 0, 100), TracePaging::Next(0));
    assert_eq!(trace_page(Some(199), None, 0, 100), TracePaging::Next(200));
    assert_eq!(trace_page(None, Some(41), 42, 100), TracePaging::Next(42));
    assert_eq!(trace_page(None, Some(99), 100, 100), TracePaging::After(99));
}
