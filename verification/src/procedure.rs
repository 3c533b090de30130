//! The procedure driver: the stages of a procedure run one after the other,
//! the run stops at the first stage that fails, and every step leaves its
//! line in the audit record.

use vstd::prelude::*;
use crate::execution::{enabled_executions, Procedure, Stage};
use crate::resolver::HandlerOutcome;
use crate::run_laws::lemma_replay_keeps_procedure;
use crate::stage::{finishing_line, starting_line, StageError, StageRun, StageState, Started};
use crate::text::{join2, join4, owned};
use crate::timing::Elapsed;
use crate::update::{lemma_extends_by_nothing, lemma_extends_further, Update};

verus! {

/// Where a run stands.
#[derive(Clone, Copy, Debug, PartialEq, Eq, Structural, Hash)]
pub enum Phase {
    /// The stage at this position is the next to run; at position 0 the run
    /// has not started.
    Queued(usize),
    /// The stage at this position is running.
    Running(usize),
    /// Every stage has run and none failed.
    Completed,
    /// The stage at this position failed, and the run ended there.
    Failed(usize),
}

/// The failure of a run: the stage that failed, the time from the start of
/// the run to the failure, and the failure of the stage.
#[derive(Debug, PartialEq, Eq)]
pub struct ProcedureError {
    pub stage: String,
    pub elapsed: Elapsed,
    pub cause: StageError,
}

/// What can happen to a run.
#[derive(Debug, PartialEq, Eq)]
pub enum Event {
    /// The next stage is taken up.
    BeginStage,
    /// The execution at this position of the running stage is announced.
    Start(usize),
    /// The execution at this position of the running stage has ended, with
    /// what came back for it and the time it took.
    Finish(usize, HandlerOutcome, Elapsed),
    /// The running stage is closed, at this clock reading in milliseconds.
    EndStage(i64),
}

/// One line of a run's journal, by what it reports: the position of the
/// stage, and for an execution its position among the enabled ones.
#[derive(Debug, PartialEq, Eq)]
pub enum Entry {
    StageOpened(usize),
    ExecutionStarted(usize, usize),
    ExecutionFinished(usize, usize, Elapsed),
    StageClosed(usize, Elapsed),
}

/// What a run answers to an event.
#[derive(Debug)]
pub enum Reply {
    /// The event does not fit the state of the run; nothing has changed.
    Refused,
    /// The event was taken and left a line; the record now stands like this.
    Logged(Update),
    /// The event was taken and ended the run with this failure.
    Failed(ProcedureError),
}

/// A run as a value: the procedure, the identity under which its
/// executions are handed on, the clock reading at its start, where it
/// stands, the running stage if there is one, and its failure if it failed.
pub struct RunState {
    pub procedure: Procedure,
    pub operator: Seq<char>,
    pub start_ts: i64,
    pub phase: Phase,
    pub stage: Option<StageState>,
    pub failure: Option<ProcedureError>,
}

/// The line that opens `stage`.
pub open spec fn opening_line(stage: Stage) -> Seq<char> {
    "executing stage: "@ + stage.name@
}

/// The line that closes `stage`, `elapsed` after the start of the run.
pub open spec fn closing_line(stage: Stage, elapsed: Elapsed) -> Seq<char> {
    "finished stage '"@ + stage.name@ + "' execution in "@ + elapsed.text_spec()
}

impl Entry {
    /// The position of the stage that the line belongs to.
    pub open spec fn stage(self) -> usize {
        match self {
            Entry::StageOpened(stage) => stage,
            Entry::ExecutionStarted(stage, _) => stage,
            Entry::ExecutionFinished(stage, _, _) => stage,
            Entry::StageClosed(stage, _) => stage,
        }
    }

    /// The line as text, in a run of `procedure`.
    pub open spec fn text(self, procedure: Procedure) -> Seq<char> {
        match self {
            Entry::StageOpened(stage) => opening_line(procedure.stages@[stage as int]),
            Entry::ExecutionStarted(stage, index) => starting_line(
                enabled_executions(procedure.stages@[stage as int].executions@)[index as int],
            ),
            Entry::ExecutionFinished(stage, index, elapsed) => finishing_line(
                enabled_executions(procedure.stages@[stage as int].executions@)[index as int],
                elapsed,
            ),
            Entry::StageClosed(stage, elapsed) => closing_line(
                procedure.stages@[stage as int],
                elapsed,
            ),
        }
    }

    /// The line is that of a stage of `procedure`, and where it reports an
    /// execution, of an execution that the stage lists as switched on.
    pub open spec fn listed(self, procedure: Procedure) -> bool {
        &&& self.stage() < procedure.stages@.len()
        &&& match self {
            Entry::ExecutionStarted(stage, index) => index < enabled_executions(
                procedure.stages@[stage as int].executions@,
            ).len(),
            Entry::ExecutionFinished(stage, index, _) => index < enabled_executions(
                procedure.stages@[stage as int].executions@,
            ).len(),
            _ => true,
        }
    }

    /// The line reports the end of the execution at `index` of the stage
    /// at `stage`.
    pub open spec fn reports(self, stage: usize, index: usize) -> bool {
        match self {
            Entry::ExecutionFinished(at, which, _) => at == stage && which == index,
            _ => false,
        }
    }
}

/// The lines of `entries` as text, in a run of `procedure`.
pub open spec fn texts(procedure: Procedure, entries: Seq<Entry>) -> Seq<Seq<char>> {
    entries.map_values(|entry: Entry| entry.text(procedure))
}

impl RunState {
    /// The state fits the procedure: a position is that of a stage, a stage
    /// is running exactly in `Running`, it is then the stage at that
    /// position with its enabled executions, and a failure is kept exactly
    /// in `Failed`, under the name of the stage at that position.
    pub open spec fn wf(self) -> bool {
        &&& self.procedure.stages@.len() <= usize::MAX
        &&& match self.phase {
            Phase::Queued(at) => {
                &&& at < self.procedure.stages@.len()
                &&& self.stage is None
                &&& self.failure is None
            },
            Phase::Running(at) => {
                &&& at < self.procedure.stages@.len()
                &&& self.failure is None
                &&& self.stage matches Some(stage)
                &&& stage.wf()
                &&& stage.executions == enabled_executions(
                    self.procedure.stages@[at as int].executions@,
                )
                &&& stage.parent_id == self.procedure.id@
                &&& stage.parent_name == self.procedure.name@
                &&& stage.operator == self.operator
            },
            Phase::Completed => self.stage is None && self.failure is None,
            Phase::Failed(at) => {
                &&& at < self.procedure.stages@.len()
                &&& self.stage is None
                &&& self.failure matches Some(error)
                &&& error.stage == self.procedure.stages@[at as int].name
            },
        }
    }

    /// A run of `procedure` before its first event. A procedure without
    /// stages is complete at once.
    pub open spec fn initial(procedure: Procedure, operator: Seq<char>, start_ts: i64) -> RunState {
        RunState {
            procedure,
            operator,
            start_ts,
            phase: if procedure.stages@.len() == 0 {
                Phase::Completed
            } else {
                Phase::Queued(0)
            },
            stage: None,
            failure: None,
        }
    }

    /// The run has ended, in success or in failure.
    pub open spec fn ended(self) -> bool {
        self.phase is Completed || self.phase is Failed
    }

    /// The result of the run, once it has ended.
    pub open spec fn result(self) -> Option<Result<(), ProcedureError>> {
        match self.phase {
            Phase::Completed => Some(Ok(())),
            Phase::Failed(_) => Some(Err(self.failure.unwrap())),
            _ => None,
        }
    }

    /// Whether `event` fits the state. A stage is taken up only when one is
    /// queued; an execution is announced or reported only in the running
    /// stage and in that order; a stage is closed only when each of its
    /// executions has been reported. A run that has ended takes no event.
    pub open spec fn accepts(self, event: Event) -> bool {
        match (self.phase, event) {
            (Phase::Queued(_), Event::BeginStage) => true,
            (Phase::Running(_), Event::Start(index)) => self.stage.unwrap().can_start(
                index as int,
            ),
            (Phase::Running(_), Event::Finish(index, outcome, _)) => self.stage.unwrap().can_finish(
                index as int,
                outcome,
            ),
            (Phase::Running(_), Event::EndStage(_)) => self.stage.unwrap().outcome().is_some(),
            _ => false,
        }
    }

    /// The line that `event` leaves in the journal, if the state takes the
    /// event and the event leaves one: every event does, but the close of a
    /// stage that failed.
    pub open spec fn entry(self, event: Event) -> Option<Entry> {
        if !self.accepts(event) {
            None
        } else {
            match (self.phase, event) {
                (Phase::Queued(at), Event::BeginStage) => Some(Entry::StageOpened(at)),
                (Phase::Running(at), Event::Start(index)) => Some(
                    Entry::ExecutionStarted(at, index),
                ),
                (Phase::Running(at), Event::Finish(index, _, elapsed)) => Some(
                    Entry::ExecutionFinished(at, index, elapsed),
                ),
                (Phase::Running(at), Event::EndStage(now_ts)) => if self.stage.unwrap().outcome()
                    == Some(Ok::<(), StageError>(())) {
                    Some(Entry::StageClosed(at, Elapsed::spec_between(self.start_ts, now_ts)))
                } else {
                    None
                },
                _ => None,
            }
        }
    }

    /// The state after `event`: unchanged if the state does not take it.
    pub open spec fn after(self, event: Event) -> RunState {
        if !self.accepts(event) {
            self
        } else {
            match (self.phase, event) {
                (Phase::Queued(at), Event::BeginStage) => RunState {
                    phase: Phase::Running(at),
                    stage: Some(
                        StageState::fresh(
                            enabled_executions(self.procedure.stages@[at as int].executions@),
                            self.procedure.id@,
                            self.procedure.name@,
                            self.operator,
                        ),
                    ),
                    ..self
                },
                (Phase::Running(_), Event::Start(index)) => RunState {
                    stage: Some(self.stage.unwrap().started(index as int)),
                    ..self
                },
                (Phase::Running(_), Event::Finish(index, outcome, _)) => RunState {
                    stage: Some(self.stage.unwrap().finished(index as int, outcome)),
                    ..self
                },
                (Phase::Running(at), Event::EndStage(now_ts)) => match self.stage.unwrap().outcome() {
                    Some(Err(cause)) => RunState {
                        phase: Phase::Failed(at),
                        stage: None,
                        failure: Some(
                            ProcedureError {
                                stage: self.procedure.stages@[at as int].name,
                                elapsed: Elapsed::spec_between(self.start_ts, now_ts),
                                cause,
                            },
                        ),
                        ..self
                    },
                    _ => RunState {
                        phase: if at + 1 < self.procedure.stages@.len() {
                            Phase::Queued((at + 1) as usize)
                        } else {
                            Phase::Completed
                        },
                        stage: None,
                        ..self
                    },
                },
                _ => self,
            }
        }
    }

    /// Number of stages that have been closed, in success or in failure.
    pub open spec fn closed(self) -> int {
        match self.phase {
            Phase::Queued(at) => at as int,
            Phase::Running(at) => at as int,
            Phase::Failed(at) => at + 1,
            Phase::Completed => self.procedure.stages@.len() as int,
        }
    }

    /// One more than the position of the last stage that can have left a
    /// line so far.
    pub open spec fn frontier(self) -> int {
        match self.phase {
            Phase::Queued(at) => at as int,
            Phase::Running(at) => at + 1,
            Phase::Failed(at) => at + 1,
            Phase::Completed => self.procedure.stages@.len() as int,
        }
    }
}

/// The state that `events`, taken in order, lead to from `start`.
pub open spec fn replay(start: RunState, events: Seq<Event>) -> RunState
    decreases events.len(),
{
    if events.len() == 0 {
        start
    } else {
        replay(start, events.drop_last()).after(events.last())
    }
}

/// The lines that `events`, taken in order from `start`, leave in the
/// journal.
pub open spec fn trace(start: RunState, events: Seq<Event>) -> Seq<Entry>
    decreases events.len(),
{
    if events.len() == 0 {
        Seq::empty()
    } else {
        let so_far = trace(start, events.drop_last());
        match replay(start, events.drop_last()).entry(events.last()) {
            Some(entry) => so_far.push(entry),
            None => so_far,
        }
    }
}

/// What one event does to a run and to the record: the run goes to the
/// state after the event, and the record gains the line of the event, or
/// stays as it was if the event leaves none.
pub open spec fn effect(
    before: RunState,
    event: Event,
    after: RunState,
    record_before: Update,
    record_after: Update,
) -> bool {
    &&& after == before.after(event)
    &&& after.wf()
    &&& match before.entry(event) {
        Some(entry) => record_after.extends(record_before, seq![entry.text(before.procedure)]),
        None => record_after == record_before,
    }
}

impl Clone for ProcedureError {
    fn clone(&self) -> (copy: Self)
        ensures
            copy == *self,
    {
        ProcedureError {
            stage: self.stage.clone(),
            elapsed: self.elapsed,
            cause: self.cause.clone(),
        }
    }
}

impl ProcedureError {
    /// The failure in words: the stage and the time, then the failure of
    /// the stage.
    pub open spec fn message_spec(self) -> Seq<char> {
        "failed stage '"@ + self.stage@ + "' execution after "@ + self.elapsed.text_spec() + ": "@
            + self.cause.message_spec()
    }

    /// The failure in words.
    pub fn message(&self) -> (text: String)
        ensures
            text@ == self.message_spec(),
    {
        let span = self.elapsed.text();
        let cause = self.cause.message();
        let mut text = join4(
            "failed stage '",
            self.stage.as_str(),
            "' execution after ",
            span.as_str(),
        );
        text.append(": ");
        text.append(cause.as_str());
        text
    }
}

/// Where a run stands, with what belongs to the place: the running stage,
/// or the failure.
#[derive(Debug)]
enum Position {
    Queued(usize),
    Running(usize, StageRun),
    Completed,
    Failed(usize, ProcedureError),
}

/// One run of a procedure.
#[derive(Debug)]
pub struct ProcedureRun<'a> {
    procedure: &'a Procedure,
    operator: String,
    start_ts: i64,
    position: Position,
}

impl<'a> View for ProcedureRun<'a> {
    type V = RunState;

    closed spec fn view(&self) -> RunState {
        RunState {
            procedure: *self.procedure,
            operator: self.operator@,
            start_ts: self.start_ts,
            phase: match self.position {
                Position::Queued(at) => Phase::Queued(at),
                Position::Running(at, _) => Phase::Running(at),
                Position::Completed => Phase::Completed,
                Position::Failed(at, _) => Phase::Failed(at),
            },
            stage: match self.position {
                Position::Running(_, stage) => Some(stage@),
                _ => None,
            },
            failure: match self.position {
                Position::Failed(_, error) => Some(error),
                _ => None,
            },
        }
    }
}

impl<'a> ProcedureRun<'a> {
    #[verifier::type_invariant]
    spec fn fits(&self) -> bool {
        self@.wf()
    }

    /// A run of `procedure` under the identity `operator` that starts at
    /// the clock reading `start_ts`, in milliseconds.
    pub fn new(procedure: &'a Procedure, operator: &str, start_ts: i64) -> (run: ProcedureRun<'a>)
        ensures
            run@ == RunState::initial(*procedure, operator@, start_ts),
            run@.wf(),
    {
        let position = if procedure.stages.len() == 0 {
            Position::Completed
        } else {
            Position::Queued(0)
        };
        ProcedureRun { procedure, operator: owned(operator), start_ts, position }
    }

    /// Where the run stands.
    pub fn phase(&self) -> (phase: Phase)
        ensures
            phase == self@.phase,
            self@.wf(),
    {
        proof {
            use_type_invariant(self);
        }
        match &self.position {
            Position::Queued(at) => Phase::Queued(*at),
            Position::Running(at, _) => Phase::Running(*at),
            Position::Completed => Phase::Completed,
            Position::Failed(at, _) => Phase::Failed(*at),
        }
    }

    /// The result of the run, once it has ended.
    pub fn result(&self) -> (result: Option<Result<(), ProcedureError>>)
        ensures
            result == self@.result(),
    {
        match &self.position {
            Position::Completed => Some(Ok(())),
            Position::Failed(_, error) => Some(Err(error.clone())),
            _ => None,
        }
    }

    /// Number of executions of the running stage; none if no stage runs.
    pub fn width(&self) -> (count: Option<usize>)
        ensures
            count.is_some() <==> self@.phase is Running,
            count.is_some() ==> count.unwrap() == self@.stage.unwrap().executions.len(),
    {
        match &self.position {
            Position::Running(_, stage) => Some(stage.len()),
            _ => None,
        }
    }

    /// Takes up the queued stage: its opening line is appended to the
    /// record, and none of its executions has started. Refused, with nothing
    /// changed, unless a stage is queued.
    pub fn begin_stage(&mut self, update: &mut Update) -> (snapshot: Option<Update>)
        requires
            old(update).logs@.len() > 0,
        ensures
            old(self)@.wf(),
            effect(old(self)@, Event::BeginStage, final(self)@, *old(update), *final(update)),
            snapshot.is_some() <==> old(self)@.accepts(Event::BeginStage),
            snapshot.is_some() ==> snapshot.unwrap().matches(*final(update)),
    {
        proof {
            use_type_invariant(&*self);
        }
        let at = match &self.position {
            Position::Queued(at) => *at,
            _ => {
                return None;
            },
        };
        let stage = &self.procedure.stages[at];
        let line = join2("executing stage: ", stage.name.as_str());
        let snapshot = update.add_line(line.as_str());
        let opened = StageRun::open(
            stage,
            self.procedure.id.as_str(),
            self.procedure.name.as_str(),
            self.operator.as_str(),
        );
        self.position = Position::Running(at, opened);
        Some(snapshot)
    }

    /// Announces the execution at `index` of the running stage: one line is
    /// appended to the record, and the decision on the execution comes back
    /// with the execution, the acting identity and a copy of the record.
    /// Refused, with nothing changed, unless a stage is running and the
    /// execution is one of its pending ones.
    pub fn start(&mut self, index: usize, update: &mut Update) -> (reply: Option<Started>)
        requires
            old(update).logs@.len() > 0,
        ensures
            old(self)@.wf(),
            effect(old(self)@, Event::Start(index), final(self)@, *old(update), *final(update)),
            reply.is_some() <==> old(self)@.accepts(Event::Start(index)),
            reply.is_some() ==> {
                &&& reply.unwrap().dispatch == old(self)@.stage.unwrap().dispatch_at(index as int)
                &&& reply.unwrap().execution == old(self)@.stage.unwrap().executions[index as int]
                &&& reply.unwrap().user@ == old(self)@.operator
                &&& reply.unwrap().snapshot.matches(*final(update))
            },
    {
        proof {
            use_type_invariant(&*self);
        }
        let mut position = Position::Completed;
        core::mem::swap(&mut self.position, &mut position);
        let reply = match &mut position {
            Position::Running(_, stage) => stage.start(index, update),
            _ => None,
        };
        self.position = position;
        reply
    }

    /// Reports the end of the execution at `index` of the running stage
    /// after `elapsed`, with what came back for it: one line is appended to
    /// the record, whatever the result. Refused, with nothing changed,
    /// unless a stage is running, the execution was announced and not yet
    /// reported, and `outcome` fits it.
    pub fn finish(
        &mut self,
        index: usize,
        outcome: &HandlerOutcome,
        elapsed: Elapsed,
        update: &mut Update,
    ) -> (snapshot: Option<Update>)
        requires
            old(update).logs@.len() > 0,
        ensures
            old(self)@.wf(),
            effect(
                old(self)@,
                Event::Finish(index, *outcome, elapsed),
                final(self)@,
                *old(update),
                *final(update),
            ),
            snapshot.is_some() <==> old(self)@.accepts(Event::Finish(index, *outcome, elapsed)),
            snapshot.is_some() ==> snapshot.unwrap().matches(*final(update)),
    {
        proof {
            use_type_invariant(&*self);
        }
        let mut position = Position::Completed;
        core::mem::swap(&mut self.position, &mut position);
        let snapshot = match &mut position {
            Position::Running(_, stage) => stage.finish(index, outcome, elapsed, update),
            _ => None,
        };
        self.position = position;
        snapshot
    }

    /// Closes the running stage at the clock reading `now_ts`. If none of
    /// its executions failed, the closing line is appended to the record and
    /// the next stage is queued, or the run is complete. If one failed, the
    /// run ends with the failure of the stage under its name, nothing is
    /// appended, and no later stage is ever taken up. Refused, with nothing
    /// changed, unless a stage is running and each of its executions has
    /// been reported.
    pub fn end_stage(&mut self, now_ts: i64, update: &mut Update) -> (reply: Reply)
        requires
            old(update).logs@.len() > 0,
        ensures
            old(self)@.wf(),
            effect(old(self)@, Event::EndStage(now_ts), final(self)@, *old(update), *final(update)),
            reply is Refused <==> !old(self)@.accepts(Event::EndStage(now_ts)),
            reply is Logged <==> old(self)@.entry(Event::EndStage(now_ts)).is_some(),
            reply matches Reply::Logged(snapshot) ==> snapshot.matches(*final(update))
                && !(final(self)@.phase is Failed),
            reply matches Reply::Failed(error) ==> final(self)@.result() == Some(
                Err::<(), ProcedureError>(error),
            ),
    {
        proof {
            use_type_invariant(&*self);
        }
        let (at, outcome) = match &self.position {
            Position::Running(at, stage) => (*at, stage.outcome()),
            _ => {
                return Reply::Refused;
            },
        };
        let elapsed = Elapsed::between(self.start_ts, now_ts);
        let count = self.procedure.stages.len();
        match outcome {
            None => Reply::Refused,
            Some(Ok(())) => {
                let span = elapsed.text();
                let line = join4(
                    "finished stage '",
                    self.procedure.stages[at].name.as_str(),
                    "' execution in ",
                    span.as_str(),
                );
                let snapshot = update.add_line(line.as_str());
                self.position = if at + 1 < count {
                    Position::Queued(at + 1)
                } else {
                    Position::Completed
                };
                Reply::Logged(snapshot)
            },
            Some(Err(cause)) => {
                let error = ProcedureError {
                    stage: self.procedure.stages[at].name.clone(),
                    elapsed,
                    cause,
                };
                self.position = Position::Failed(at, error.clone());
                Reply::Failed(error)
            },
        }
    }

    /// Applies `event` to the run and the record.
    pub fn apply(&mut self, event: &Event, update: &mut Update) -> (reply: Reply)
        requires
            old(update).logs@.len() > 0,
        ensures
            old(self)@.wf(),
            effect(old(self)@, *event, final(self)@, *old(update), *final(update)),
            reply is Refused <==> !old(self)@.accepts(*event),
            reply is Logged <==> old(self)@.entry(*event).is_some(),
            reply matches Reply::Logged(snapshot) ==> snapshot.matches(*final(update)),
            reply matches Reply::Failed(error) ==> final(self)@.result() == Some(
                Err::<(), ProcedureError>(error),
            ),
    {
        match event {
            Event::BeginStage => match self.begin_stage(update) {
                Some(snapshot) => Reply::Logged(snapshot),
                None => Reply::Refused,
            },
            Event::Start(index) => match self.start(*index, update) {
                Some(started) => Reply::Logged(started.snapshot),
                None => Reply::Refused,
            },
            Event::Finish(index, outcome, elapsed) => match self.finish(
                *index,
                outcome,
                *elapsed,
                update,
            ) {
                Some(snapshot) => Reply::Logged(snapshot),
                None => Reply::Refused,
            },
            Event::EndStage(now_ts) => self.end_stage(*now_ts, update),
        }
    }
}

/// Runs `procedure` under the identity `operator` from the clock reading
/// `start_ts` through `events`, in order, and appends to `update` the line
/// of each event that the run takes. Gives the result of the run if the
/// events brought it to its end.
pub fn execute_procedure(
    procedure: &Procedure,
    update: &mut Update,
    operator: &str,
    start_ts: i64,
    events: &Vec<Event>,
) -> (result: Option<Result<(), ProcedureError>>)
    requires
        old(update).logs@.len() > 0,
    ensures
        result == replay(RunState::initial(*procedure, operator@, start_ts), events@).result(),
        final(update).extends(
            *old(update),
            texts(*procedure, trace(RunState::initial(*procedure, operator@, start_ts), events@)),
        ),
{
    let ghost before = *update;
    let ghost start = RunState::initial(*procedure, operator@, start_ts);
    let mut run = ProcedureRun::new(procedure, operator, start_ts);
    let mut i: usize = 0;
    proof {
        assert(events@.take(0) =~= Seq::<Event>::empty());
        assert(texts(*procedure, Seq::<Entry>::empty()) =~= Seq::<Seq<char>>::empty());
        lemma_extends_by_nothing(before);
    }
    while i < events.len()
        invariant
            i <= events@.len(),
            start == RunState::initial(*procedure, operator@, start_ts),
            run@ == replay(start, events@.take(i as int)),
            run@.wf(),
            update.extends(before, texts(*procedure, trace(start, events@.take(i as int)))),
        decreases events@.len() - i,
    {
        let ghost record = *update;
        let ghost state = run@;
        let ghost so_far = trace(start, events@.take(i as int));
        run.apply(&events[i], update);
        proof {
            let next = events@.take(i + 1);
            assert(next.drop_last() =~= events@.take(i as int));
            assert(next.last() == events@[i as int]);
            lemma_replay_keeps_procedure(start, events@.take(i as int));
            match state.entry(events@[i as int]) {
                Some(entry) => {
                    assert(texts(*procedure, so_far.push(entry)) =~= texts(*procedure, so_far)
                        + seq![entry.text(*procedure)]);
                    lemma_extends_further(
                        before,
                        record,
                        *update,
                        texts(*procedure, so_far),
                        seq![entry.text(*procedure)],
                    );
                },
                None => {},
            }
        }
        i = i + 1;
    }
    proof {
        assert(events@.take(i as int) =~= events@);
    }
    run.result()
}

} // verus!
