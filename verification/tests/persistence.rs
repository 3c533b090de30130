use procedure_engine::execution::{EnabledExecution, Execution, Procedure, Stage};
use procedure_engine::persistence::Durability;
use procedure_engine::procedure::{Event, ProcedureRun, Reply};
use procedure_engine::resolver::HandlerOutcome;
use procedure_engine::timing::Elapsed;
use procedure_engine::update::{Operation, ResourceTarget, Update};

#[test]
fn a_saved_copy_leaves_no_note() {
    let mut tally = Durability::new();
    assert!(tally.intact());
    assert_eq!(tally.note(&Ok(())), None);
    assert!(tally.intact());
    assert_eq!(tally.losses(), 0);
    assert_eq!(tally.line(0), None);
}

#[test]
fn a_lost_copy_is_noted_in_order() {
    let mut tally = Durability::new();
    let first = tally.note(&Err(String::from("db down")));
    assert_eq!(
        first,
        Some(String::from("failed to update an update during procedure | db down"))
    );
    tally.note(&Ok(()));
    tally.note(&Err(String::from("timeout")));
    assert!(!tally.intact());
    assert_eq!(tally.losses(), 2);
    assert_eq!(
        tally.line(0),
        Some(&String::from("failed to update an update during procedure | db down"))
    );
    assert_eq!(
        tally.line(1),
        Some(&String::from("failed to update an update during procedure | timeout"))
    );
    assert_eq!(tally.line(2), None);
}

#[test]
fn a_run_succeeds_though_no_copy_was_saved() {
    let procedure = Procedure {
        id: String::from("proc_a"),
        name: String::from("P"),
        stages: vec![Stage {
            name: String::from("only"),
            executions: vec![EnabledExecution { execution: Execution::Noop, enabled: true }],
        }],
    };
    let mut update = Update::open(
        String::from("u1"),
        ResourceTarget::Procedure(String::from("proc_a")),
        Operation::RunProcedure,
        String::from("ann"),
        0,
    );
    let mut run = ProcedureRun::new(&procedure, "procedure", 0);
    let mut tally = Durability::new();
    let events = [
        Event::BeginStage,
        Event::Start(0),
        Event::Finish(0, HandlerOutcome::NotInvoked, Elapsed::from_millis(0)),
        Event::EndStage(1),
    ];
    for event in &events {
        assert!(matches!(run.apply(event, &mut update), Reply::Logged(_)));
        tally.note(&Err(String::from("db down")));
    }
    assert_eq!(run.result(), Some(Ok(())));
    assert_eq!(tally.losses(), 4);
    assert_eq!(update.logs[0].stdout.split('\n').count(), 5);
}
