use procedure_engine::execution::{Execution, ExecutionKind};
use procedure_engine::resolver::{
    dispatch, execute_execution, inspect, Dispatch, ExecutionError, HandlerOutcome,
};
use procedure_engine::update::{Operation, ResourceTarget, Update};

fn record(id: &str, success: bool) -> Update {
    let mut update = Update::open(
        String::from(id),
        ResourceTarget::System,
        Operation::StartContainer,
        String::from("procedure"),
        0,
    );
    update.success = success;
    update.end_ts = Some(10);
    update
}

#[test]
fn the_execution_that_does_nothing_is_skipped() {
    assert_eq!(dispatch(&Execution::Noop, "proc_a", "nightly"), Dispatch::Skip);
    assert_eq!(
        execute_execution(&Execution::Noop, "proc_a", "nightly", &HandlerOutcome::NotInvoked),
        Some(Ok(()))
    );
}

#[test]
fn no_answer_is_accepted_for_the_execution_that_does_nothing() {
    let returned = HandlerOutcome::Returned(record("u9", false));
    assert_eq!(execute_execution(&Execution::Noop, "proc_a", "nightly", &returned), None);
    let failed = HandlerOutcome::Failed(String::from("boom"));
    assert_eq!(execute_execution(&Execution::Noop, "proc_a", "nightly", &failed), None);
}

#[test]
fn a_procedure_that_runs_itself_by_id_is_rejected() {
    let execution = Execution::RunProcedure(String::from("proc_a"));
    assert_eq!(dispatch(&execution, "proc_a", "nightly"), Dispatch::Reject);
    assert_eq!(
        execute_execution(&execution, "proc_a", "nightly", &HandlerOutcome::NotInvoked),
        Some(Err(ExecutionError::SelfReferential))
    );
}

#[test]
fn a_procedure_that_runs_itself_by_name_is_rejected() {
    let execution = Execution::RunProcedure(String::from("nightly"));
    assert_eq!(dispatch(&execution, "proc_a", "nightly"), Dispatch::Reject);
    assert_eq!(
        execute_execution(&execution, "proc_a", "nightly", &HandlerOutcome::NotInvoked),
        Some(Err(ExecutionError::SelfReferential))
    );
}

#[test]
fn no_answer_is_accepted_for_a_rejected_execution() {
    let execution = Execution::RunProcedure(String::from("proc_a"));
    let returned = HandlerOutcome::Returned(record("u9", true));
    assert_eq!(execute_execution(&execution, "proc_a", "nightly", &returned), None);
}

#[test]
fn another_procedure_goes_to_its_handler() {
    let execution = Execution::RunProcedure(String::from("proc_b"));
    assert_eq!(dispatch(&execution, "proc_a", "nightly"), Dispatch::Invoke);
    let returned = HandlerOutcome::Returned(record("u2", true));
    assert_eq!(execute_execution(&execution, "proc_a", "nightly", &returned), Some(Ok(())));
    assert_eq!(execute_execution(&execution, "proc_a", "nightly", &HandlerOutcome::NotInvoked), None);
}

#[test]
fn other_kinds_go_to_their_handler_whatever_their_target() {
    for execution in [
        Execution::RunBuild(String::from("proc_a")),
        Execution::Deploy(String::from("nightly")),
        Execution::StartContainer(String::from("proc_a")),
        Execution::StopContainer(String::from("proc_a")),
        Execution::StopAllContainers(String::from("proc_a")),
        Execution::RemoveContainer(String::from("proc_a")),
        Execution::CloneRepo(String::from("proc_a")),
        Execution::PullRepo(String::from("proc_a")),
        Execution::PruneNetworks(String::from("proc_a")),
        Execution::PruneImages(String::from("proc_a")),
        Execution::PruneContainers(String::from("nightly")),
    ] {
        assert_eq!(dispatch(&execution, "proc_a", "nightly"), Dispatch::Invoke);
    }
}

#[test]
fn a_record_without_success_is_a_failure() {
    let execution = Execution::StartContainer(String::from("web"));
    let returned = HandlerOutcome::Returned(record("u7", false));
    assert_eq!(
        execute_execution(&execution, "proc_a", "nightly", &returned),
        Some(Err(ExecutionError::Unsuccessful { update_id: String::from("u7") }))
    );
    assert_eq!(
        inspect(ExecutionKind::Deploy, &returned),
        Some(Err(ExecutionError::Unsuccessful { update_id: String::from("u7") }))
    );
}

#[test]
fn a_failed_handler_is_a_failure_of_its_kind() {
    let execution = Execution::StopContainer(String::from("web"));
    let failed = HandlerOutcome::Failed(String::from("agent not reachable"));
    assert_eq!(
        execute_execution(&execution, "proc_a", "nightly", &failed),
        Some(Err(ExecutionError::Handler {
            kind: ExecutionKind::StopContainer,
            cause: String::from("agent not reachable"),
        }))
    );
    assert_eq!(inspect(ExecutionKind::StopContainer, &HandlerOutcome::NotInvoked), None);
}

#[test]
fn execution_errors_in_words() {
    assert_eq!(ExecutionError::SelfReferential.message(), "Self referential procedure detected");
    assert_eq!(
        ExecutionError::Handler { kind: ExecutionKind::PruneImages, cause: String::from("boom") }
            .message(),
        "failed at PruneImages: boom"
    );
    assert_eq!(
        ExecutionError::Unsuccessful { update_id: String::from("u7") }.message(),
        "execution not successful. see update u7"
    );
}
