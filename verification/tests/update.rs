use procedure_engine::update::{Log, Operation, ResourceTarget, Update};

fn live() -> Update {
    Update::open(
        String::from("u1"),
        ResourceTarget::Procedure(String::from("proc_a")),
        Operation::RunProcedure,
        String::from("ann"),
        1_000,
    )
}

#[test]
fn an_open_record_has_its_first_log_entry() {
    let update = live();
    assert_eq!(update.id, "u1");
    assert_eq!(update.target, ResourceTarget::Procedure(String::from("proc_a")));
    assert_eq!(update.operation, Operation::RunProcedure);
    assert_eq!(update.operator, "ann");
    assert_eq!(update.start_ts, 1_000);
    assert_eq!(update.end_ts, None);
    assert!(!update.success);
    assert_eq!(update.logs.len(), 1);
    assert_eq!(update.logs[0].stdout, "");
}

#[test]
fn the_empty_record() {
    let update = Update::default();
    assert_eq!(update.id, "");
    assert_eq!(update.target, ResourceTarget::System);
    assert_eq!(update.operation, Operation::Unspecified);
    assert_eq!(update.operator, "");
    assert_eq!(update.start_ts, 0);
    assert_eq!(update.end_ts, None);
    assert!(!update.success);
    assert!(update.logs.is_empty());
}

#[test]
fn a_simple_log_entry_holds_its_message() {
    let log = Log::simple(String::from("done"));
    assert_eq!(log.stdout, "done");
    assert_eq!(log.stderr, "");
    assert_eq!(log.stage, "");
    assert!(log.success);
}

#[test]
fn a_line_goes_on_a_new_line_of_the_first_entry() {
    let mut update = live();
    update.add_line("executing stage: build");
    assert_eq!(update.logs[0].stdout, "\nexecuting stage: build");
    update.add_line("executing: StartContainer(web)");
    assert_eq!(update.logs[0].stdout, "\nexecuting stage: build\nexecuting: StartContainer(web)");
}

#[test]
fn appending_changes_nothing_else() {
    let mut update = live();
    update.end_ts = Some(5);
    update.success = true;
    update.logs[0].stderr = String::from("warn");
    update.logs[0].stage = String::from("run");
    update.logs.push(Log::simple(String::from("second")));
    let before = update.snapshot();
    update.add_line("line");
    assert_eq!(update.id, before.id);
    assert_eq!(update.target, before.target);
    assert_eq!(update.operation, before.operation);
    assert_eq!(update.operator, before.operator);
    assert_eq!(update.start_ts, before.start_ts);
    assert_eq!(update.end_ts, Some(5));
    assert!(update.success);
    assert_eq!(update.logs.len(), 2);
    assert_eq!(update.logs[0].stderr, "warn");
    assert_eq!(update.logs[0].stage, "run");
    assert_eq!(update.logs[0].success, before.logs[0].success);
    assert_eq!(update.logs[0].stdout, "\nline");
    assert_eq!(update.logs[1], before.logs[1]);
}

#[test]
fn the_copy_after_each_append_matches_the_record() {
    let mut update = live();
    let mut last = update.snapshot();
    assert_eq!(last, update);
    for line in ["one", "two", "three"] {
        let before = update.logs[0].stdout.clone();
        last = update.add_line(line);
        assert_eq!(last, update);
        assert!(update.logs[0].stdout.starts_with(&before));
    }
    let lines: Vec<&str> = last.logs[0].stdout.split('\n').collect();
    assert_eq!(lines, vec!["", "one", "two", "three"]);
}

#[test]
fn an_empty_line_is_still_a_line() {
    let mut update = live();
    update.add_line("");
    update.add_line("x");
    assert_eq!(update.logs[0].stdout, "\n\nx");
}
