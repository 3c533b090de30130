use procedure_engine::execution::{EnabledExecution, Execution, ExecutionKind, Stage};
use procedure_engine::resolver::{Dispatch, ExecutionError, HandlerOutcome};
use procedure_engine::stage::{StageError, StageRun};
use procedure_engine::timing::Elapsed;
use procedure_engine::update::{Operation, ResourceTarget, Update};

fn live() -> Update {
    Update::open(
        String::from("u1"),
        ResourceTarget::Procedure(String::from("proc_a")),
        Operation::RunProcedure,
        String::from("ann"),
        0,
    )
}

fn record(id: &str, success: bool) -> HandlerOutcome {
    let mut update = live();
    update.id = String::from(id);
    update.success = success;
    HandlerOutcome::Returned(update)
}

fn item(execution: Execution, enabled: bool) -> EnabledExecution {
    EnabledExecution { execution, enabled }
}

fn lines(update: &Update) -> Vec<String> {
    update.logs[0].stdout.split('\n').skip(1).map(String::from).collect()
}

fn two() -> Stage {
    Stage {
        name: String::from("build"),
        executions: vec![
            item(Execution::StartContainer(String::from("a")), true),
            item(Execution::StopContainer(String::from("b")), true),
        ],
    }
}

#[test]
fn a_stage_announces_and_reports_each_execution() {
    let mut update = live();
    let mut run = StageRun::open(&two(), "proc_a", "nightly", "procedure");
    assert_eq!(run.len(), 2);
    assert_eq!(run.outcome(), None);
    let started = run.start(0, &mut update).unwrap();
    assert_eq!(started.dispatch, Dispatch::Invoke);
    assert_eq!(started.execution, Execution::StartContainer(String::from("a")));
    assert_eq!(started.user, "procedure");
    assert_eq!(started.snapshot, update);
    assert_eq!(lines(&update), vec!["executing: StartContainer(a)"]);
    let snapshot = run.finish(0, &record("r0", true), Elapsed::from_millis(10), &mut update);
    assert_eq!(snapshot, Some(update.snapshot()));
    assert_eq!(
        lines(&update),
        vec!["executing: StartContainer(a)", "finished in 10ms: StartContainer(a)"]
    );
    assert_eq!(run.outcome(), None);
    assert!(run.start(1, &mut update).is_some());
    assert!(run.finish(1, &record("r1", true), Elapsed::from_millis(3), &mut update).is_some());
    assert_eq!(run.outcome(), Some(Ok(())));
    assert_eq!(lines(&update).len(), 4);
}

#[test]
fn a_stage_waits_for_every_execution() {
    let mut update = live();
    let mut run = StageRun::open(&two(), "proc_a", "nightly", "procedure");
    run.start(0, &mut update).unwrap();
    run.start(1, &mut update).unwrap();
    let failed = HandlerOutcome::Failed(String::from("boom"));
    run.finish(1, &failed, Elapsed::from_millis(5), &mut update).unwrap();
    assert_eq!(run.outcome(), None);
    run.finish(0, &record("r0", true), Elapsed::from_millis(10), &mut update).unwrap();
    assert_eq!(
        run.outcome(),
        Some(Err(StageError {
            index: 1,
            execution: Execution::StopContainer(String::from("b")),
            cause: ExecutionError::Handler {
                kind: ExecutionKind::StopContainer,
                cause: String::from("boom"),
            },
        }))
    );
}

#[test]
fn the_first_failure_by_position_is_reported() {
    let mut update = live();
    let mut run = StageRun::open(&two(), "proc_a", "nightly", "procedure");
    run.start(0, &mut update).unwrap();
    run.start(1, &mut update).unwrap();
    let fast = HandlerOutcome::Failed(String::from("b failed fast"));
    run.finish(1, &fast, Elapsed::from_millis(1), &mut update).unwrap();
    let slow = HandlerOutcome::Failed(String::from("a failed slowly"));
    run.finish(0, &slow, Elapsed::from_millis(900), &mut update).unwrap();
    let error = run.outcome().unwrap().unwrap_err();
    assert_eq!(error.index, 0);
    assert_eq!(error.execution, Execution::StartContainer(String::from("a")));
    assert_eq!(
        error.cause,
        ExecutionError::Handler {
            kind: ExecutionKind::StartContainer,
            cause: String::from("a failed slowly"),
        }
    );
    assert_eq!(
        error.message(),
        "failed on StartContainer(a): failed at StartContainer: a failed slowly"
    );
    assert_eq!(
        lines(&update),
        vec![
            "executing: StartContainer(a)",
            "executing: StopContainer(b)",
            "finished in 1ms: StopContainer(b)",
            "finished in 900ms: StartContainer(a)",
        ]
    );
}

#[test]
fn a_record_without_success_fails_the_stage() {
    let mut update = live();
    let mut run = StageRun::open(&two(), "proc_a", "nightly", "procedure");
    run.start(0, &mut update).unwrap();
    run.start(1, &mut update).unwrap();
    run.finish(0, &record("r0", true), Elapsed::from_millis(1), &mut update).unwrap();
    run.finish(1, &record("r1", false), Elapsed::from_millis(2), &mut update).unwrap();
    let error = run.outcome().unwrap().unwrap_err();
    assert_eq!(error.index, 1);
    assert_eq!(error.cause, ExecutionError::Unsuccessful { update_id: String::from("r1") });
    assert_eq!(
        error.message(),
        "failed on StopContainer(b): execution not successful. see update r1"
    );
}

#[test]
fn disabled_executions_leave_no_trace() {
    let stage = Stage {
        name: String::from("mixed"),
        executions: vec![
            item(Execution::Deploy(String::from("off")), false),
            item(Execution::PullRepo(String::from("on")), true),
            item(Execution::PruneImages(String::from("off too")), false),
        ],
    };
    let mut update = live();
    let mut run = StageRun::open(&stage, "proc_a", "nightly", "procedure");
    assert_eq!(run.len(), 1);
    assert_eq!(run.execution(0), Some(&Execution::PullRepo(String::from("on"))));
    assert_eq!(run.execution(1), None);
    assert_eq!(run.dispatch(1), None);
    assert!(run.start(1, &mut update).is_none());
    assert!(run.start(2, &mut update).is_none());
    assert!(lines(&update).is_empty());
    run.start(0, &mut update).unwrap();
    run.finish(0, &record("r", true), Elapsed::from_millis(7), &mut update).unwrap();
    assert_eq!(run.outcome(), Some(Ok(())));
    assert_eq!(lines(&update), vec!["executing: PullRepo(on)", "finished in 7ms: PullRepo(on)"]);
}

#[test]
fn a_stage_with_nothing_enabled_succeeds_at_once() {
    let stage = Stage {
        name: String::from("idle"),
        executions: vec![item(Execution::Deploy(String::from("off")), false)],
    };
    let run = StageRun::open(&stage, "proc_a", "nightly", "procedure");
    assert_eq!(run.len(), 0);
    assert_eq!(run.outcome(), Some(Ok(())));
}

#[test]
fn events_out_of_order_are_refused_and_change_nothing() {
    let mut update = live();
    let mut run = StageRun::open(&two(), "proc_a", "nightly", "procedure");
    let ok = record("r", true);
    assert!(run.finish(0, &ok, Elapsed::from_millis(1), &mut update).is_none());
    assert!(run.start(2, &mut update).is_none());
    run.start(0, &mut update).unwrap();
    assert!(run.start(0, &mut update).is_none());
    assert!(run.finish(0, &HandlerOutcome::NotInvoked, Elapsed::from_millis(1), &mut update).is_none());
    assert!(run.finish(1, &ok, Elapsed::from_millis(1), &mut update).is_none());
    run.finish(0, &ok, Elapsed::from_millis(1), &mut update).unwrap();
    assert!(run.finish(0, &ok, Elapsed::from_millis(1), &mut update).is_none());
    assert!(run.start(0, &mut update).is_none());
    assert_eq!(
        lines(&update),
        vec!["executing: StartContainer(a)", "finished in 1ms: StartContainer(a)"]
    );
}

#[test]
fn a_self_reference_fails_without_a_handler() {
    let stage = Stage {
        name: String::from("loop"),
        executions: vec![
            item(Execution::RunProcedure(String::from("nightly")), true),
            item(Execution::RunProcedure(String::from("proc_a")), true),
            item(Execution::RunProcedure(String::from("other")), true),
        ],
    };
    let mut update = live();
    let mut run = StageRun::open(&stage, "proc_a", "nightly", "procedure");
    assert_eq!(run.dispatch(0), Some(Dispatch::Reject));
    assert_eq!(run.dispatch(1), Some(Dispatch::Reject));
    assert_eq!(run.dispatch(2), Some(Dispatch::Invoke));
    assert_eq!(run.start(0, &mut update).unwrap().dispatch, Dispatch::Reject);
    assert!(run.finish(0, &record("r", true), Elapsed::from_millis(1), &mut update).is_none());
    run.finish(0, &HandlerOutcome::NotInvoked, Elapsed::from_millis(0), &mut update).unwrap();
    run.start(1, &mut update).unwrap();
    run.finish(1, &HandlerOutcome::NotInvoked, Elapsed::from_millis(0), &mut update).unwrap();
    run.start(2, &mut update).unwrap();
    run.finish(2, &record("r", true), Elapsed::from_millis(4), &mut update).unwrap();
    let error = run.outcome().unwrap().unwrap_err();
    assert_eq!(error.index, 0);
    assert_eq!(error.cause, ExecutionError::SelfReferential);
    assert_eq!(
        error.message(),
        "failed on RunProcedure(nightly): Self referential procedure detected"
    );
    assert_eq!(
        lines(&update),
        vec![
            "executing: RunProcedure(nightly)",
            "finished in 0ns: RunProcedure(nightly)",
            "executing: RunProcedure(proc_a)",
            "finished in 0ns: RunProcedure(proc_a)",
            "executing: RunProcedure(other)",
            "finished in 4ms: RunProcedure(other)",
        ]
    );
}

#[test]
fn the_execution_that_does_nothing_succeeds_without_a_handler() {
    let stage = Stage { name: String::from("rest"), executions: vec![item(Execution::Noop, true)] };
    let mut update = live();
    let mut run = StageRun::open(&stage, "proc_a", "nightly", "procedure");
    assert_eq!(run.start(0, &mut update).unwrap().dispatch, Dispatch::Skip);
    assert!(run.finish(0, &record("r", false), Elapsed::from_millis(1), &mut update).is_none());
    run.finish(0, &HandlerOutcome::NotInvoked, Elapsed::from_millis(0), &mut update).unwrap();
    assert_eq!(run.outcome(), Some(Ok(())));
    assert_eq!(lines(&update), vec!["executing: None", "finished in 0ns: None"]);
}
