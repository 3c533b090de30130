//! What holds of every run of a procedure: where its lines can come from,
//! in what order they stand, and what a stage that fails or closes entails.

use vstd::prelude::*;
use crate::execution::{enabled_are_listed, enabled_executions, Procedure};
use crate::procedure::{replay, trace, Entry, Event, Phase, ProcedureError, RunState};
use crate::stage::{lemma_first_failure_fails, stage_succeeds_iff_none_failed};

verus! {

/// No event changes the procedure or the start of a run.
pub proof fn lemma_replay_keeps_procedure(start: RunState, events: Seq<Event>)
    ensures
        replay(start, events).procedure == start.procedure,
        replay(start, events).start_ts == start.start_ts,
    decreases events.len(),
{
    if events.len() > 0 {
        lemma_replay_keeps_procedure(start, events.drop_last());
    }
}

/// One event keeps a state that fits its procedure fitting, never moves the
/// frontier back, and leaves a line only for a stage behind the frontier.
pub proof fn lemma_step(state: RunState, event: Event)
    requires
        state.wf(),
    ensures
        state.after(event).wf(),
        state.after(event).procedure == state.procedure,
        state.after(event).start_ts == state.start_ts,
        state.after(event).operator == state.operator,
        state.frontier() <= state.after(event).frontier() <= state.procedure.stages@.len(),
        state.entry(event) matches Some(entry) ==> entry.stage() < state.after(event).frontier()
            && entry.stage() + 1 >= state.frontier() && entry.listed(state.procedure),
{
}

/// Any events keep a state that fits its procedure fitting, never move the
/// frontier back, and leave lines only for stages behind the frontier.
pub proof fn lemma_replay(start: RunState, events: Seq<Event>)
    requires
        start.wf(),
    ensures
        replay(start, events).wf(),
        replay(start, events).procedure == start.procedure,
        replay(start, events).start_ts == start.start_ts,
        replay(start, events).operator == start.operator,
        start.frontier() <= replay(start, events).frontier() <= start.procedure.stages@.len(),
        forall|i: int|
            0 <= i < trace(start, events).len() ==> (#[trigger] trace(start, events)[i]).stage()
                < replay(start, events).frontier(),
        forall|i: int|
            0 <= i < trace(start, events).len() ==> (#[trigger] trace(start, events)[i]).listed(
                start.procedure,
            ),
        forall|i: int, j: int|
            0 <= i <= j < trace(start, events).len() ==> (#[trigger] trace(
                start,
                events,
            )[i]).stage() <= (#[trigger] trace(start, events)[j]).stage(),
    decreases events.len(),
{
    if events.len() > 0 {
        let before = replay(start, events.drop_last());
        let so_far = trace(start, events.drop_last());
        let now = trace(start, events);
        lemma_replay(start, events.drop_last());
        lemma_step(before, events.last());
        assert forall|i: int| 0 <= i < now.len() implies (#[trigger] now[i]).stage() < replay(
            start,
            events,
        ).frontier() && now[i].listed(start.procedure) by {
            if i < so_far.len() {
                assert(now[i] == so_far[i]);
            }
        }
        assert forall|i: int, j: int| 0 <= i <= j < now.len() implies (#[trigger] now[i]).stage()
            <= (#[trigger] now[j]).stage() by {
            if j < so_far.len() {
                assert(now[i] == so_far[i]);
                assert(now[j] == so_far[j]);
            } else if i < so_far.len() {
                assert(now[i] == so_far[i]);
            }
        }
    }
}

/// A run before its first event fits its procedure.
pub proof fn lemma_initial(procedure: Procedure, operator: Seq<char>, start_ts: i64)
    ensures
        RunState::initial(procedure, operator, start_ts).wf(),
{
    broadcast use vstd::std_specs::vec::axiom_spec_len;

    assert(procedure.stages.len() == procedure.stages@.len());
}

/// Events taken in two rounds lead where they lead taken in one, and leave
/// the same lines.
pub proof fn lemma_replay_in_rounds(start: RunState, first: Seq<Event>, second: Seq<Event>)
    ensures
        replay(start, first + second) == replay(replay(start, first), second),
        trace(start, first + second) == trace(start, first) + trace(
            replay(start, first),
            second,
        ),
    decreases second.len(),
{
    if second.len() == 0 {
        assert(first + second =~= first);
        assert(trace(start, first) + Seq::<Entry>::empty() =~= trace(start, first));
    } else {
        lemma_replay_in_rounds(start, first, second.drop_last());
        assert((first + second).drop_last() =~= first + second.drop_last());
        assert((first + second).last() == second.last());
        let between = replay(start, first);
        let before = replay(between, second.drop_last());
        match before.entry(second.last()) {
            Some(entry) => {
                assert(trace(start, first + second) =~= trace(start, first) + trace(
                    between,
                    second,
                ));
            },
            None => {},
        }
    }
}

/// A run that has ended takes no event: whatever comes, its state stays
/// and no line is left.
pub proof fn ended_run_takes_nothing(state: RunState, events: Seq<Event>)
    requires
        state.ended(),
    ensures
        replay(state, events) == state,
        trace(state, events) == Seq::<Entry>::empty(),
        forall|event: Event| !state.accepts(event),
    decreases events.len(),
{
    if events.len() > 0 {
        ended_run_takes_nothing(state, events.drop_last());
    }
}

/// If the stage at position `at` fails, the run returns an error under the
/// name of that stage, every line of the journal belongs to that stage or
/// to one before it, and whatever events follow change neither the state
/// nor the journal: no line of a later stage is ever appended.
pub proof fn failed_stage_ends_the_run(
    procedure: Procedure,
    operator: Seq<char>,
    start_ts: i64,
    events: Seq<Event>,
    at: usize,
    more: Seq<Event>,
)
    requires
        replay(RunState::initial(procedure, operator, start_ts), events).phase == Phase::Failed(at),
    ensures
        at < procedure.stages@.len(),
        replay(RunState::initial(procedure, operator, start_ts), events).result() matches Some(Err(error))
            && error.stage == procedure.stages@[at as int].name,
        forall|i: int|
            0 <= i < trace(RunState::initial(procedure, operator, start_ts), events).len() ==> (
            #[trigger] trace(RunState::initial(procedure, operator, start_ts), events)[i]).stage() <= at,
        replay(RunState::initial(procedure, operator, start_ts), events + more) == replay(
            RunState::initial(procedure, operator, start_ts),
            events,
        ),
        trace(RunState::initial(procedure, operator, start_ts), events + more) == trace(
            RunState::initial(procedure, operator, start_ts),
            events,
        ),
{
    let start = RunState::initial(procedure, operator, start_ts);
    lemma_initial(procedure, operator, start_ts);
    lemma_replay(start, events);
    lemma_replay_in_rounds(start, events, more);
    ended_run_takes_nothing(replay(start, events), more);
    assert(trace(start, events) + Seq::<Entry>::empty() =~= trace(start, events));
}

/// Every line of the journal that reports an execution reports one that
/// its stage lists as switched on: an execution that is switched off is
/// never announced, never handed on and never reported.
pub proof fn only_enabled_executions_run(
    procedure: Procedure,
    operator: Seq<char>,
    start_ts: i64,
    events: Seq<Event>,
    i: int,
)
    requires
        0 <= i < trace(RunState::initial(procedure, operator, start_ts), events).len(),
    ensures
        trace(RunState::initial(procedure, operator, start_ts), events)[i].listed(procedure),
        match trace(RunState::initial(procedure, operator, start_ts), events)[i] {
            Entry::ExecutionStarted(stage, index) => exists|j: int|
                0 <= j < procedure.stages@[stage as int].executions@.len() && (
                #[trigger] procedure.stages@[stage as int].executions@[j]).enabled
                    && procedure.stages@[stage as int].executions@[j].execution
                    == enabled_executions(procedure.stages@[stage as int].executions@)[index as int],
            Entry::ExecutionFinished(stage, index, _) => exists|j: int|
                0 <= j < procedure.stages@[stage as int].executions@.len() && (
                #[trigger] procedure.stages@[stage as int].executions@[j]).enabled
                    && procedure.stages@[stage as int].executions@[j].execution
                    == enabled_executions(procedure.stages@[stage as int].executions@)[index as int],
            _ => true,
        },
{
    let start = RunState::initial(procedure, operator, start_ts);
    lemma_initial(procedure, operator, start_ts);
    lemma_replay(start, events);
    match trace(start, events)[i] {
        Entry::ExecutionStarted(stage, index) => {
            enabled_are_listed(procedure.stages@[stage as int].executions@, index as int);
        },
        Entry::ExecutionFinished(stage, index, _) => {
            enabled_are_listed(procedure.stages@[stage as int].executions@, index as int);
        },
        _ => {},
    }
}

/// A stage is closed only when each of its executions has been reported,
/// failed ones or not; if one failed, the run ends with the first failure
/// by position.
pub proof fn stage_closes_when_all_reported(state: RunState, now_ts: i64)
    requires
        state.wf(),
        state.accepts(Event::EndStage(now_ts)),
    ensures
        state.stage.unwrap().settled(),
        state.after(Event::EndStage(now_ts)).ended() || state.after(
            Event::EndStage(now_ts),
        ).phase is Queued,
        state.after(Event::EndStage(now_ts)).phase is Failed <==> exists|i: int|
            state.stage.unwrap().failed_at(i),
        state.after(Event::EndStage(now_ts)).phase is Failed ==> state.after(
            Event::EndStage(now_ts),
        ).failure.unwrap().cause == state.stage.unwrap().failure_at(
            state.stage.unwrap().first_failure(0),
        ),
{
    let stage = state.stage.unwrap();
    stage_succeeds_iff_none_failed(stage);
    lemma_first_failure_fails(stage, 0);
}

/// A procedure without stages is complete before any event.
pub proof fn empty_procedure_succeeds(
    procedure: Procedure,
    operator: Seq<char>,
    start_ts: i64,
    events: Seq<Event>,
)
    requires
        procedure.stages@.len() == 0,
    ensures
        replay(RunState::initial(procedure, operator, start_ts), events).result() == Some(
            Ok::<(), ProcedureError>(()),
        ),
        trace(RunState::initial(procedure, operator, start_ts), events) == Seq::<Entry>::empty(),
{
    ended_run_takes_nothing(RunState::initial(procedure, operator, start_ts), events);
}

/// Among the first `before` lines of `entries`, one announces the execution
/// at `index` of the stage at `stage`.
pub open spec fn announced(entries: Seq<Entry>, before: int, stage: usize, index: usize) -> bool {
    exists|i: int|
        0 <= i < before && i < entries.len() && #[trigger] entries[i] == Entry::ExecutionStarted(
            stage,
            index,
        )
}

/// Every execution of the running stage that is past pending has its
/// announcement among `entries`.
pub open spec fn started_are_announced(state: RunState, entries: Seq<Entry>) -> bool {
    state.phase matches Phase::Running(at) ==> forall|index: usize|
        index < state.stage.unwrap().progress.len() && !(
        #[trigger] state.stage.unwrap().progress[index as int] is Pending) ==> announced(
            entries,
            entries.len() as int,
            at,
            index,
        )
}

/// Every line of `entries` that reports an execution has the announcement
/// of that execution before it.
pub open spec fn reports_follow_announcements(entries: Seq<Entry>) -> bool {
    forall|j: int|
        0 <= j < entries.len() ==> ((#[trigger] entries[j]) matches Entry::ExecutionFinished(
            stage,
            index,
            _,
        ) ==> announced(entries, j, stage, index))
}

/// In a run from a state without a running stage, an execution is reported
/// only after it was announced.
pub proof fn lemma_trace_order(start: RunState, events: Seq<Event>)
    requires
        start.wf(),
        !(start.phase is Running),
    ensures
        started_are_announced(replay(start, events), trace(start, events)),
        reports_follow_announcements(trace(start, events)),
    decreases events.len(),
{
    if events.len() > 0 {
        let before = replay(start, events.drop_last());
        let so_far = trace(start, events.drop_last());
        let event = events.last();
        let after = replay(start, events);
        let now = trace(start, events);
        lemma_trace_order(start, events.drop_last());
        lemma_replay(start, events.drop_last());
        lemma_step(before, event);
        match before.entry(event) {
            None => {},
            Some(entry) => {
                assert(now == so_far.push(entry));
                assert forall|n: int, stage: usize, index: usize|
                    n <= so_far.len() && announced(so_far, n, stage, index) implies announced(
                    now,
                    n,
                    stage,
                    index,
                ) by {
                    let i = choose|i: int|
                        0 <= i < n && i < so_far.len() && #[trigger] so_far[i]
                            == Entry::ExecutionStarted(stage, index);
                    assert(now[i] == so_far[i]);
                }
                assert forall|j: int| 0 <= j < now.len() implies ((
                #[trigger] now[j]) matches Entry::ExecutionFinished(stage, index, _) ==> announced(
                    now,
                    j,
                    stage,
                    index,
                )) by {
                    if j < so_far.len() {
                        assert(now[j] == so_far[j]);
                    } else if let Entry::ExecutionFinished(stage, index, _) = now[j] {
                        assert(before.stage.unwrap().progress[index as int] is Started);
                        assert(announced(so_far, so_far.len() as int, stage, index));
                    }
                }
                if let Phase::Running(at) = after.phase {
                    assert forall|index: usize|
                        index < after.stage.unwrap().progress.len() && !(
                        #[trigger] after.stage.unwrap().progress[index as int] is Pending) implies announced(
                        now,
                        now.len() as int,
                        at,
                        index,
                    ) by {
                        if entry == Entry::ExecutionStarted(at, index) {
                            assert(now[so_far.len() as int] == entry);
                        } else {
                            assert(!(before.stage.unwrap().progress[index as int] is Pending));
                            assert(announced(so_far, so_far.len() as int, at, index));
                            let i = choose|i: int|
                                0 <= i < so_far.len() && #[trigger] so_far[i]
                                    == Entry::ExecutionStarted(at, index);
                            assert(now[i] == so_far[i]);
                        }
                    }
                }
            },
        }
    }
}

/// Stages leave their lines in order: no line of a stage comes after a
/// line of a later stage.
pub proof fn stages_run_in_order(
    procedure: Procedure,
    operator: Seq<char>,
    start_ts: i64,
    events: Seq<Event>,
    i: int,
    j: int,
)
    requires
        0 <= i <= j < trace(RunState::initial(procedure, operator, start_ts), events).len(),
    ensures
        trace(RunState::initial(procedure, operator, start_ts), events)[i].stage() <= trace(
            RunState::initial(procedure, operator, start_ts),
            events,
        )[j].stage(),
{
    lemma_initial(procedure, operator, start_ts);
    lemma_replay(RunState::initial(procedure, operator, start_ts), events);
}

/// The line that reports the end of an execution comes after the line
/// that announced it.
pub proof fn report_follows_announcement(
    procedure: Procedure,
    operator: Seq<char>,
    start_ts: i64,
    events: Seq<Event>,
    j: int,
)
    requires
        0 <= j < trace(RunState::initial(procedure, operator, start_ts), events).len(),
        trace(RunState::initial(procedure, operator, start_ts), events)[j] is ExecutionFinished,
    ensures
        exists|i: int|
            0 <= i < j && #[trigger] trace(
                RunState::initial(procedure, operator, start_ts),
                events,
            )[i] == Entry::ExecutionStarted(
                trace(RunState::initial(procedure, operator, start_ts), events)[j].stage(),
                trace(
                    RunState::initial(procedure, operator, start_ts),
                    events,
                )[j]->ExecutionFinished_1,
            ),
{
    let start = RunState::initial(procedure, operator, start_ts);
    lemma_initial(procedure, operator, start_ts);
    lemma_trace_order(start, events);
    let entries = trace(start, events);
    assert(entries[j] is ExecutionFinished);
    let stage = entries[j].stage();
    let index = entries[j]->ExecutionFinished_1;
    assert(announced(entries, j, stage, index));
}

/// Among `entries`, one reports the end of the execution at `index` of the
/// stage at `stage`.
pub open spec fn reported(entries: Seq<Entry>, stage: usize, index: usize) -> bool {
    exists|j: int|
        0 <= j < entries.len() && (#[trigger] entries[j]).reports(stage, index)
}

/// Every enabled execution of every closed stage has its report among
/// `entries`.
pub open spec fn closed_are_reported(state: RunState, entries: Seq<Entry>) -> bool {
    forall|stage: usize, index: usize|
        stage < state.closed() && index < enabled_executions(
            state.procedure.stages@[stage as int].executions@,
        ).len() ==> #[trigger] reported(entries, stage, index)
}

/// Every execution of the running stage that has finished has its report
/// among `entries`.
pub open spec fn finished_are_reported(state: RunState, entries: Seq<Entry>) -> bool {
    state.phase matches Phase::Running(at) ==> forall|index: usize|
        index < state.stage.unwrap().progress.len() && (
        #[trigger] state.stage.unwrap().progress[index as int]) is Finished ==> reported(
            entries,
            at,
            index,
        )
}

/// In a run from a state in which no stage is closed or running, every
/// enabled execution of a closed stage has been reported.
pub proof fn lemma_trace_complete(start: RunState, events: Seq<Event>)
    requires
        start.wf(),
        start.closed() == 0,
        !(start.phase is Running),
    ensures
        closed_are_reported(replay(start, events), trace(start, events)),
        finished_are_reported(replay(start, events), trace(start, events)),
    decreases events.len(),
{
    if events.len() > 0 {
        let before = replay(start, events.drop_last());
        let so_far = trace(start, events.drop_last());
        let event = events.last();
        let after = replay(start, events);
        let now = trace(start, events);
        lemma_trace_complete(start, events.drop_last());
        lemma_replay(start, events.drop_last());
        lemma_step(before, event);
        assert forall|stage: usize, index: usize| reported(so_far, stage, index) implies reported(
            now,
            stage,
            index,
        ) by {
            let j = choose|j: int|
                0 <= j < so_far.len() && (#[trigger] so_far[j]).reports(stage, index);
            assert(now[j] == so_far[j]);
        }
        if let Phase::Running(at) = after.phase {
            assert forall|index: usize|
                index < after.stage.unwrap().progress.len() && (
                #[trigger] after.stage.unwrap().progress[index as int]) is Finished implies reported(
                now,
                at,
                index,
            ) by {
                if before.phase is Running && before.stage.unwrap().progress[index as int] is Finished {
                    assert(reported(so_far, at, index));
                } else {
                    assert(now == so_far.push(before.entry(event).unwrap()));
                    assert(now[so_far.len() as int].reports(at, index));
                }
            }
        }
        assert forall|stage: usize, index: usize|
            stage < after.closed() && index < enabled_executions(
                after.procedure.stages@[stage as int].executions@,
            ).len() implies #[trigger] reported(now, stage, index) by {
            if stage < before.closed() {
                assert(reported(so_far, stage, index));
            } else {
                assert(before.phase == Phase::Running(stage));
                assert(before.stage.unwrap().settled());
                assert(before.stage.unwrap().progress[index as int] is Finished);
                assert(reported(so_far, stage, index));
            }
        }
    }
}

/// Every enabled execution of a stage that has been closed, in success or
/// in failure, was announced and then reported: a stage waits for each of
/// its executions, also when another one has failed.
pub proof fn closed_stage_reported_every_execution(
    procedure: Procedure,
    operator: Seq<char>,
    start_ts: i64,
    events: Seq<Event>,
    stage: usize,
    index: usize,
)
    requires
        stage < replay(RunState::initial(procedure, operator, start_ts), events).closed(),
        index < enabled_executions(procedure.stages@[stage as int].executions@).len(),
    ensures
        exists|i: int, j: int|
            0 <= i < j < trace(RunState::initial(procedure, operator, start_ts), events).len()
                && #[trigger] trace(RunState::initial(procedure, operator, start_ts), events)[i]
                == Entry::ExecutionStarted(stage, index) && (#[trigger] trace(
                RunState::initial(procedure, operator, start_ts),
                events,
            )[j]).reports(stage, index),
{
    let start = RunState::initial(procedure, operator, start_ts);
    let entries = trace(start, events);
    lemma_initial(procedure, operator, start_ts);
    lemma_replay(start, events);
    lemma_trace_complete(start, events);
    lemma_trace_order(start, events);
    assert(reported(entries, stage, index));
    let j = choose|j: int|
        0 <= j < entries.len() && (#[trigger] entries[j]).reports(stage, index);
    assert(announced(entries, j, stage, index));
    let i = choose|i: int|
        0 <= i < j && i < entries.len() && #[trigger] entries[i] == Entry::ExecutionStarted(
            stage,
            index,
        );
    assert(entries[i] == Entry::ExecutionStarted(stage, index) && entries[j].reports(stage, index));
}

} // verus!
