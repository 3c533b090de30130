use procedure_engine::execution::{EnabledExecution, Execution, ExecutionKind, Procedure, Stage};
use procedure_engine::procedure::{execute_procedure, Event, Phase, ProcedureRun, Reply};
use procedure_engine::resolver::{Dispatch, ExecutionError, HandlerOutcome};
use procedure_engine::timing::Elapsed;
use procedure_engine::update::{Operation, ResourceTarget, Update};

fn live() -> Update {
    Update::open(
        String::from("u1"),
        ResourceTarget::Procedure(String::from("proc_a")),
        Operation::RunProcedure,
        String::from("ann"),
        1_000,
    )
}

fn record(id: &str, success: bool) -> HandlerOutcome {
    let mut update = live();
    update.id = String::from(id);
    update.success = success;
    update.end_ts = Some(2_000);
    HandlerOutcome::Returned(update)
}

fn item(execution: Execution, enabled: bool) -> EnabledExecution {
    EnabledExecution { execution, enabled }
}

fn lines(update: &Update) -> Vec<String> {
    update.logs[0].stdout.split('\n').skip(1).map(String::from).collect()
}

fn build_and_cleanup() -> Procedure {
    Procedure {
        id: String::from("proc_a"),
        name: String::from("P"),
        stages: vec![
            Stage {
                name: String::from("build"),
                executions: vec![
                    item(Execution::StartContainer(String::from("a")), true),
                    item(Execution::StopContainer(String::from("b")), true),
                ],
            },
            Stage {
                name: String::from("cleanup"),
                executions: vec![item(Execution::PruneImages(String::from("s")), true)],
            },
        ],
    }
}

#[test]
fn a_failing_stage_ends_the_run() {
    let procedure = build_and_cleanup();
    let mut update = live();
    let events = vec![
        Event::BeginStage,
        Event::Start(0),
        Event::Start(1),
        Event::Finish(1, HandlerOutcome::Failed(String::from("no such container")), Elapsed::from_millis(5)),
        Event::Finish(0, record("r0", true), Elapsed::from_millis(10)),
        Event::EndStage(1_012),
        Event::BeginStage,
        Event::Start(0),
        Event::Finish(0, record("r2", true), Elapsed::from_millis(1)),
        Event::EndStage(1_020),
    ];
    let result = execute_procedure(&procedure, &mut update, "procedure", 1_000, &events);
    let error = result.unwrap().unwrap_err();
    assert_eq!(error.stage, "build");
    assert_eq!(error.elapsed, Elapsed::from_millis(12));
    assert_eq!(error.cause.index, 1);
    assert_eq!(
        error.message(),
        "failed stage 'build' execution after 12ms: failed on StopContainer(b): failed at StopContainer: no such container"
    );
    assert_eq!(
        lines(&update),
        vec![
            "executing stage: build",
            "executing: StartContainer(a)",
            "executing: StopContainer(b)",
            "finished in 5ms: StopContainer(b)",
            "finished in 10ms: StartContainer(a)",
        ]
    );
    assert!(!update.logs[0].stdout.contains("cleanup"));
    assert!(!update.logs[0].stdout.contains("PruneImages"));
}

#[test]
fn every_stage_runs_when_none_fails() {
    let procedure = build_and_cleanup();
    let mut update = live();
    let events = vec![
        Event::BeginStage,
        Event::Start(1),
        Event::Start(0),
        Event::Finish(0, record("r0", true), Elapsed::from_millis(10)),
        Event::Finish(1, record("r1", true), Elapsed::from_millis(11)),
        Event::EndStage(1_015),
        Event::BeginStage,
        Event::Start(0),
        Event::Finish(0, record("r2", true), Elapsed::new(2, 0).unwrap()),
        Event::EndStage(3_500),
    ];
    let result = execute_procedure(&procedure, &mut update, "procedure", 1_000, &events);
    assert_eq!(result, Some(Ok(())));
    assert_eq!(
        lines(&update),
        vec![
            "executing stage: build",
            "executing: StopContainer(b)",
            "executing: StartContainer(a)",
            "finished in 10ms: StartContainer(a)",
            "finished in 11ms: StopContainer(b)",
            "finished stage 'build' execution in 15ms",
            "executing stage: cleanup",
            "executing: PruneImages(s)",
            "finished in 2s: PruneImages(s)",
            "finished stage 'cleanup' execution in 2.5s",
        ]
    );
    assert_eq!(update.end_ts, None);
    assert_eq!(update.operator, "ann");
}

#[test]
fn a_procedure_without_stages_succeeds_at_once() {
    let procedure = Procedure { id: String::from("proc_z"), name: String::from("empty"), stages: vec![] };
    let mut update = live();
    assert_eq!(execute_procedure(&procedure, &mut update, "procedure", 5, &vec![]), Some(Ok(())));
    let events = vec![Event::BeginStage, Event::Start(0), Event::EndStage(9)];
    assert_eq!(execute_procedure(&procedure, &mut update, "procedure", 5, &events), Some(Ok(())));
    assert!(lines(&update).is_empty());
    let run = ProcedureRun::new(&procedure, "procedure", 5);
    assert_eq!(run.phase(), Phase::Completed);
    assert_eq!(run.result(), Some(Ok(())));
}

#[test]
fn a_run_that_has_not_ended_has_no_result() {
    let procedure = build_and_cleanup();
    let mut update = live();
    assert_eq!(execute_procedure(&procedure, &mut update, "procedure", 0, &vec![]), None);
    let events = vec![Event::BeginStage, Event::Start(0)];
    assert_eq!(execute_procedure(&procedure, &mut update, "procedure", 0, &events), None);
}

#[test]
fn a_stage_is_not_closed_before_all_its_executions_ended() {
    let procedure = build_and_cleanup();
    let mut update = live();
    let mut run = ProcedureRun::new(&procedure, "procedure", 1_000);
    assert_eq!(run.phase(), Phase::Queued(0));
    assert_eq!(run.width(), None);
    assert!(matches!(run.end_stage(1_001, &mut update), Reply::Refused));
    run.begin_stage(&mut update).unwrap();
    assert_eq!(run.phase(), Phase::Running(0));
    assert_eq!(run.width(), Some(2));
    assert!(run.begin_stage(&mut update).is_none());
    assert!(matches!(run.end_stage(1_001, &mut update), Reply::Refused));
    run.start(0, &mut update).unwrap();
    run.start(1, &mut update).unwrap();
    let failed = HandlerOutcome::Failed(String::from("boom"));
    run.finish(0, &failed, Elapsed::from_millis(1), &mut update).unwrap();
    assert!(matches!(run.end_stage(1_002, &mut update), Reply::Refused));
    assert_eq!(run.phase(), Phase::Running(0));
    run.finish(1, &record("r1", true), Elapsed::from_millis(2), &mut update).unwrap();
    let before = update.snapshot();
    match run.end_stage(1_003, &mut update) {
        Reply::Failed(error) => {
            assert_eq!(error.stage, "build");
            assert_eq!(error.elapsed, Elapsed::from_millis(3));
            assert_eq!(error.cause.index, 0);
            assert_eq!(run.result(), Some(Err(error)));
        },
        other => panic!("unexpected reply: {:?}", other),
    }
    assert_eq!(update, before);
    assert_eq!(run.phase(), Phase::Failed(0));
}

#[test]
fn a_run_that_has_ended_takes_no_event() {
    let procedure = build_and_cleanup();
    let mut update = live();
    let mut run = ProcedureRun::new(&procedure, "procedure", 0);
    run.begin_stage(&mut update).unwrap();
    run.start(0, &mut update).unwrap();
    run.start(1, &mut update).unwrap();
    run.finish(0, &record("r0", false), Elapsed::from_millis(1), &mut update).unwrap();
    run.finish(1, &record("r1", true), Elapsed::from_millis(1), &mut update).unwrap();
    assert!(matches!(run.end_stage(9, &mut update), Reply::Failed(_)));
    let before = update.snapshot();
    assert!(run.begin_stage(&mut update).is_none());
    assert!(run.start(0, &mut update).is_none());
    assert!(run.finish(0, &record("r", true), Elapsed::from_millis(1), &mut update).is_none());
    assert!(matches!(run.end_stage(10, &mut update), Reply::Refused));
    for event in [Event::BeginStage, Event::Start(0), Event::EndStage(11)] {
        assert!(matches!(run.apply(&event, &mut update), Reply::Refused));
    }
    assert_eq!(update, before);
    assert_eq!(run.phase(), Phase::Failed(0));
    let error = run.result().unwrap().unwrap_err();
    assert_eq!(error.cause.cause, ExecutionError::Unsuccessful { update_id: String::from("r0") });
}

#[test]
fn the_time_of_a_stage_counts_from_the_start_of_the_run() {
    let procedure = Procedure {
        id: String::from("proc_c"),
        name: String::from("three"),
        stages: vec![
            Stage { name: String::from("one"), executions: vec![] },
            Stage { name: String::from("two"), executions: vec![item(Execution::Noop, false)] },
            Stage { name: String::from("three"), executions: vec![item(Execution::Noop, true)] },
        ],
    };
    let mut update = live();
    let events = vec![
        Event::BeginStage,
        Event::EndStage(10_100),
        Event::BeginStage,
        Event::EndStage(10_250),
        Event::BeginStage,
        Event::Start(0),
        Event::Finish(0, HandlerOutcome::NotInvoked, Elapsed::from_millis(0)),
        Event::EndStage(11_000),
    ];
    let result = execute_procedure(&procedure, &mut update, "procedure", 10_000, &events);
    assert_eq!(result, Some(Ok(())));
    assert_eq!(
        lines(&update),
        vec![
            "executing stage: one",
            "finished stage 'one' execution in 100ms",
            "executing stage: two",
            "finished stage 'two' execution in 250ms",
            "executing stage: three",
            "executing: None",
            "finished in 0ns: None",
            "finished stage 'three' execution in 1s",
        ]
    );
}

#[test]
fn a_procedure_that_runs_itself_fails_at_that_stage() {
    let procedure = Procedure {
        id: String::from("proc_a"),
        name: String::from("nightly"),
        stages: vec![
            Stage {
                name: String::from("again"),
                executions: vec![item(Execution::RunProcedure(String::from("nightly")), true)],
            },
            Stage {
                name: String::from("after"),
                executions: vec![item(Execution::Deploy(String::from("web")), true)],
            },
        ],
    };
    let mut update = live();
    let mut run = ProcedureRun::new(&procedure, "procedure", 0);
    run.begin_stage(&mut update).unwrap();
    let started = run.start(0, &mut update).unwrap();
    assert_eq!(started.dispatch, Dispatch::Reject);
    assert!(run.finish(0, &record("r", true), Elapsed::from_millis(1), &mut update).is_none());
    run.finish(0, &HandlerOutcome::NotInvoked, Elapsed::from_millis(0), &mut update).unwrap();
    match run.end_stage(2_000, &mut update) {
        Reply::Failed(error) => assert_eq!(
            error.message(),
            "failed stage 'again' execution after 2s: failed on RunProcedure(nightly): Self referential procedure detected"
        ),
        other => panic!("unexpected reply: {:?}", other),
    }
    assert_eq!(
        lines(&update),
        vec![
            "executing stage: again",
            "executing: RunProcedure(nightly)",
            "finished in 0ns: RunProcedure(nightly)",
        ]
    );
}

#[test]
fn the_handler_gets_the_execution_and_the_acting_identity() {
    let procedure = build_and_cleanup();
    let mut update = live();
    let mut run = ProcedureRun::new(&procedure, "service", 0);
    run.begin_stage(&mut update).unwrap();
    let started = run.start(1, &mut update).unwrap();
    assert_eq!(started.dispatch, Dispatch::Invoke);
    assert_eq!(started.execution, Execution::StopContainer(String::from("b")));
    assert_eq!(started.execution.kind(), ExecutionKind::StopContainer);
    assert_eq!(started.user, "service");
    assert_eq!(started.snapshot, update);
}

#[test]
fn each_accepted_event_hands_back_the_record_as_it_stands() {
    let procedure = build_and_cleanup();
    let mut update = live();
    let mut run = ProcedureRun::new(&procedure, "procedure", 0);
    let events = vec![
        Event::BeginStage,
        Event::Start(0),
        Event::Finish(0, record("r0", true), Elapsed::from_millis(1)),
        Event::Start(1),
        Event::Finish(1, record("r1", true), Elapsed::from_millis(1)),
        Event::EndStage(5),
    ];
    let mut count = 0;
    for event in &events {
        match run.apply(event, &mut update) {
            Reply::Logged(snapshot) => {
                count += 1;
                assert_eq!(snapshot, update);
                assert_eq!(lines(&snapshot).len(), count);
            },
            other => panic!("unexpected reply: {:?}", other),
        }
    }
    assert_eq!(run.phase(), Phase::Queued(1));
    assert_eq!(run.result(), None);
}
