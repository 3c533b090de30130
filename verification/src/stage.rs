//! The stage executor: the executions of one stage run side by side, each
//! is announced before it starts and reported when it ends, and the stage
//! ends when all of them have, with the first failure by position.

use vstd::prelude::*;
use crate::execution::{enabled_executions, Execution, Stage};
use crate::resolver::{
    dispatch,
    dispatch_of,
    execute_execution,
    resolution,
    Dispatch,
    ExecutionError,
    HandlerOutcome,
};
use crate::text::{join2, join4, owned};
use crate::timing::Elapsed;
use crate::update::Update;

verus! {

/// How far one execution of a running stage has come.
#[derive(Debug, PartialEq, Eq)]
pub enum Progress {
    /// Not announced yet.
    Pending,
    /// Announced in the log; its result is awaited.
    Started,
    /// Reported in the log, with its result.
    Finished(Result<(), ExecutionError>),
}

/// The failure of a stage: the first of its executions, by position, that
/// failed, and why.
#[derive(Debug, PartialEq, Eq)]
pub struct StageError {
    pub index: usize,
    pub execution: Execution,
    pub cause: ExecutionError,
}

/// A running stage as a value: its enabled executions in order, the
/// procedure that holds it, the identity under which its executions are
/// handed on, and how far each execution has come.
pub struct StageState {
    pub executions: Seq<Execution>,
    pub parent_id: Seq<char>,
    pub parent_name: Seq<char>,
    pub operator: Seq<char>,
    pub progress: Seq<Progress>,
}

/// The line that announces `execution`.
pub open spec fn starting_line(execution: Execution) -> Seq<char> {
    "executing: "@ + execution.description()
}

/// The line that reports the end of `execution` after `elapsed`.
pub open spec fn finishing_line(execution: Execution, elapsed: Elapsed) -> Seq<char> {
    "finished in "@ + elapsed.text_spec() + ": "@ + execution.description()
}

impl StageState {
    /// Each execution has its progress.
    pub open spec fn wf(self) -> bool {
        self.progress.len() == self.executions.len()
    }

    /// The stage before anything has started.
    pub open spec fn fresh(
        executions: Seq<Execution>,
        parent_id: Seq<char>,
        parent_name: Seq<char>,
        operator: Seq<char>,
    ) -> StageState {
        StageState {
            executions,
            parent_id,
            parent_name,
            operator,
            progress: Seq::new(executions.len(), |i: int| Progress::Pending),
        }
    }

    /// What is done with the execution at `index` before any handler.
    pub open spec fn dispatch_at(self, index: int) -> Dispatch {
        dispatch_of(self.executions[index], self.parent_id, self.parent_name)
    }

    /// The execution at `index` can be announced: it exists and is pending.
    pub open spec fn can_start(self, index: int) -> bool {
        0 <= index < self.progress.len() && self.progress[index] is Pending
    }

    /// The stage after the execution at `index` was announced.
    pub open spec fn started(self, index: int) -> StageState {
        StageState { progress: self.progress.update(index, Progress::Started), ..self }
    }

    /// The result of the execution at `index`, given what came back for it.
    pub open spec fn result_at(self, index: int, outcome: HandlerOutcome) -> Option<
        Result<(), ExecutionError>,
    > {
        resolution(self.executions[index], self.parent_id, self.parent_name, outcome)
    }

    /// The execution at `index` can be reported with `outcome`: it was
    /// announced, has not been reported, and `outcome` fits it.
    pub open spec fn can_finish(self, index: int, outcome: HandlerOutcome) -> bool {
        &&& 0 <= index < self.progress.len()
        &&& self.progress[index] is Started
        &&& self.result_at(index, outcome).is_some()
    }

    /// The stage after the execution at `index` was reported with `outcome`.
    pub open spec fn finished(self, index: int, outcome: HandlerOutcome) -> StageState {
        StageState {
            progress: self.progress.update(
                index,
                Progress::Finished(self.result_at(index, outcome).unwrap()),
            ),
            ..self
        }
    }

    /// Every execution has been reported.
    pub open spec fn settled(self) -> bool {
        forall|i: int| 0 <= i < self.progress.len() ==> (#[trigger] self.progress[i]) is Finished
    }

    /// The execution at `index` has been reported as failed.
    pub open spec fn failed_at(self, index: int) -> bool {
        &&& 0 <= index < self.progress.len()
        &&& self.progress[index] matches Progress::Finished(result)
        &&& result is Err
    }

    /// The least position at or after `from` of an execution reported as
    /// failed, or the number of executions if there is none.
    pub open spec fn first_failure(self, from: int) -> int
        decreases self.progress.len() - from,
    {
        if from < 0 || from >= self.progress.len() {
            self.progress.len() as int
        } else if self.failed_at(from) {
            from
        } else {
            self.first_failure(from + 1)
        }
    }

    /// The failure that the stage reports for the execution at `index`.
    pub open spec fn failure_at(self, index: int) -> StageError {
        StageError {
            index: index as usize,
            execution: self.executions[index],
            cause: self.progress[index]->Finished_0->Err_0,
        }
    }

    /// The result of the stage: none while an execution is still to be
    /// reported; then success if none failed, else the first failure by
    /// position.
    pub open spec fn outcome(self) -> Option<Result<(), StageError>> {
        if !self.settled() {
            None
        } else if self.first_failure(0) >= self.progress.len() {
            Some(Ok(()))
        } else {
            Some(Err(self.failure_at(self.first_failure(0))))
        }
    }
}

impl Clone for StageError {
    fn clone(&self) -> (copy: Self)
        ensures
            copy == *self,
    {
        StageError {
            index: self.index,
            execution: self.execution.clone(),
            cause: self.cause.clone(),
        }
    }
}

impl StageError {
    /// The failure in words: the execution it came from, then the cause.
    pub open spec fn message_spec(self) -> Seq<char> {
        "failed on "@ + self.execution.description() + ": "@ + self.cause.message_spec()
    }

    /// The failure in words.
    pub fn message(&self) -> (text: String)
        ensures
            text@ == self.message_spec(),
    {
        let description = self.execution.describe();
        let cause = self.cause.message();
        join4("failed on ", description.as_str(), ": ", cause.as_str())
    }
}

/// What announcing an execution gives back: the decision on it, the
/// execution and the identity to hand to its handler where the decision is
/// to invoke one, and the record as it stands after the announcement.
#[derive(Debug)]
pub struct Started {
    pub dispatch: Dispatch,
    pub execution: Execution,
    pub user: String,
    pub snapshot: Update,
}

/// One execution of a stage in progress, and how far it has come.
#[derive(Debug)]
struct Slot {
    execution: Execution,
    progress: Progress,
}

/// One stage in progress.
#[derive(Debug)]
pub struct StageRun {
    slots: Vec<Slot>,
    parent_id: String,
    parent_name: String,
    operator: String,
}

impl View for StageRun {
    type V = StageState;

    closed spec fn view(&self) -> StageState {
        StageState {
            executions: self.slots@.map_values(|slot: Slot| slot.execution),
            parent_id: self.parent_id@,
            parent_name: self.parent_name@,
            operator: self.operator@,
            progress: self.slots@.map_values(|slot: Slot| slot.progress),
        }
    }
}

impl StageRun {
    /// Takes up `stage` inside the procedure with id `parent_id` and name
    /// `parent_name`, to be run under the identity `operator`: its enabled
    /// executions, in order, none of them started.
    pub fn open(stage: &Stage, parent_id: &str, parent_name: &str, operator: &str) -> (run:
        StageRun)
        ensures
            run@ == StageState::fresh(
                enabled_executions(stage.executions@),
                parent_id@,
                parent_name@,
                operator@,
            ),
            run@.wf(),
    {
        let executions = stage.enabled();
        let mut slots: Vec<Slot> = Vec::new();
        let mut i: usize = 0;
        while i < executions.len()
            invariant
                i <= executions@.len(),
                slots@.len() == i,
                forall|k: int|
                    0 <= k < i ==> (#[trigger] slots@[k]).execution == executions@[k]
                        && slots@[k].progress is Pending,
            decreases executions@.len() - i,
        {
            slots.push(Slot { execution: executions[i].clone(), progress: Progress::Pending });
            i = i + 1;
        }
        let run = StageRun {
            slots,
            parent_id: owned(parent_id),
            parent_name: owned(parent_name),
            operator: owned(operator),
        };
        proof {
            let fresh = StageState::fresh(executions@, parent_id@, parent_name@, operator@);
            assert(run@.executions =~= fresh.executions);
            assert(run@.progress =~= fresh.progress);
        }
        run
    }

    /// Number of executions that the stage runs.
    pub fn len(&self) -> (count: usize)
        ensures
            count == self@.executions.len(),
            self@.wf(),
    {
        self.slots.len()
    }

    /// The execution at `index`, if the stage runs that many.
    pub fn execution(&self, index: usize) -> (found: Option<&Execution>)
        ensures
            found.is_some() <==> index < self@.executions.len(),
            found.is_some() ==> *found.unwrap() == self@.executions[index as int],
    {
        if index < self.slots.len() {
            Some(&self.slots[index].execution)
        } else {
            None
        }
    }

    /// What is done with the execution at `index` before any handler, if
    /// the stage runs that many.
    pub fn dispatch(&self, index: usize) -> (decision: Option<Dispatch>)
        ensures
            decision.is_some() <==> index < self@.executions.len(),
            decision.is_some() ==> decision.unwrap() == self@.dispatch_at(index as int),
    {
        if index < self.slots.len() {
            Some(
                dispatch(
                    &self.slots[index].execution,
                    self.parent_id.as_str(),
                    self.parent_name.as_str(),
                ),
            )
        } else {
            None
        }
    }

    /// Announces the execution at `index`: one line is appended to the
    /// record, and the decision on the execution comes back with the
    /// execution, the acting identity and a copy of the record. Refused,
    /// with nothing changed, unless the execution exists and is pending.
    pub fn start(&mut self, index: usize, update: &mut Update) -> (reply: Option<Started>)
        requires
            old(update).logs@.len() > 0,
        ensures
            old(self)@.wf(),
            final(self)@.wf(),
            reply.is_some() <==> old(self)@.can_start(index as int),
            reply.is_some() ==> {
                &&& final(self)@ == old(self)@.started(index as int)
                &&& final(update).extends(
                    *old(update),
                    seq![starting_line(old(self)@.executions[index as int])],
                )
                &&& reply.unwrap().dispatch == old(self)@.dispatch_at(index as int)
                &&& reply.unwrap().execution == old(self)@.executions[index as int]
                &&& reply.unwrap().user@ == old(self)@.operator
                &&& reply.unwrap().snapshot.matches(*final(update))
            },
            reply.is_none() ==> final(self)@ == old(self)@ && *final(update) == *old(update),
    {
        if index >= self.slots.len() {
            return None;
        }
        match &self.slots[index].progress {
            Progress::Pending => {},
            _ => {
                return None;
            },
        }
        let execution = self.slots[index].execution.clone();
        let description = execution.describe();
        let line = join2("executing: ", description.as_str());
        let snapshot = update.add_line(line.as_str());
        let decision = dispatch(&execution, self.parent_id.as_str(), self.parent_name.as_str());
        self.slots[index].progress = Progress::Started;
        proof {
            let after = old(self)@.started(index as int);
            assert(self@.executions =~= after.executions);
            assert(self@.progress =~= after.progress);
        }
        Some(Started { dispatch: decision, execution, user: self.operator.clone(), snapshot })
    }

    /// Reports the end of the execution at `index` after `elapsed`, with
    /// what came back for it: one line is appended to the record, whatever
    /// the result, and a copy of the record comes back. Refused, with
    /// nothing changed, unless the execution was announced, has not been
    /// reported, and `outcome` fits it.
    pub fn finish(
        &mut self,
        index: usize,
        outcome: &HandlerOutcome,
        elapsed: Elapsed,
        update: &mut Update,
    ) -> (snapshot: Option<Update>)
        requires
            old(update).logs@.len() > 0,
        ensures
            old(self)@.wf(),
            final(self)@.wf(),
            snapshot.is_some() <==> old(self)@.can_finish(index as int, *outcome),
            snapshot.is_some() ==> {
                &&& final(self)@ == old(self)@.finished(index as int, *outcome)
                &&& final(update).extends(
                    *old(update),
                    seq![finishing_line(old(self)@.executions[index as int], elapsed)],
                )
                &&& snapshot.unwrap().matches(*final(update))
            },
            snapshot.is_none() ==> final(self)@ == old(self)@ && *final(update) == *old(update),
    {
        if index >= self.slots.len() {
            return None;
        }
        match &self.slots[index].progress {
            Progress::Started => {},
            _ => {
                return None;
            },
        }
        let result = execute_execution(
            &self.slots[index].execution,
            self.parent_id.as_str(),
            self.parent_name.as_str(),
            outcome,
        );
        match result {
            None => None,
            Some(result) => {
                let description = self.slots[index].execution.describe();
                let span = elapsed.text();
                let line = join4("finished in ", span.as_str(), ": ", description.as_str());
                let snapshot = update.add_line(line.as_str());
                self.slots[index].progress = Progress::Finished(result);
                proof {
                    let after = old(self)@.finished(index as int, *outcome);
                    assert(self@.executions =~= after.executions);
                    assert(self@.progress =~= after.progress);
                }
                Some(snapshot)
            },
        }
    }

    /// The result of the stage: none while an execution is still to be
    /// reported; then success if none failed, else the first failure by
    /// position, whichever failed first in time.
    pub fn outcome(&self) -> (result: Option<Result<(), StageError>>)
        ensures
            result == self@.outcome(),
    {
        let mut first: Option<usize> = None;
        let mut i: usize = 0;
        while i < self.slots.len()
            invariant
                self@.wf(),
                i <= self.slots@.len(),
                self@.progress.len() == self.slots@.len(),
                forall|j: int| 0 <= j < i ==> (#[trigger] self@.progress[j]) is Finished,
                first.is_none() ==> forall|j: int| 0 <= j < i ==> !self@.failed_at(j),
                first.is_some() ==> {
                    &&& first.unwrap() < i
                    &&& self@.failed_at(first.unwrap() as int)
                    &&& forall|j: int| 0 <= j < first.unwrap() ==> !self@.failed_at(j)
                },
            decreases self.slots@.len() - i,
        {
            match &self.slots[i].progress {
                Progress::Finished(result) => {
                    if first.is_none() && result.is_err() {
                        first = Some(i);
                    }
                },
                _ => {
                    assert(!(self@.progress[i as int] is Finished));
                    return None;
                },
            }
            i = i + 1;
        }
        match first {
            None => {
                proof {
                    lemma_first_failure(self@, 0, self@.progress.len() as int);
                }
                Some(Ok(()))
            },
            Some(at) => {
                proof {
                    lemma_first_failure(self@, 0, at as int);
                }
                match &self.slots[at].progress {
                    Progress::Finished(Err(cause)) => Some(
                        Err(
                            StageError {
                                index: at,
                                execution: self.slots[at].execution.clone(),
                                cause: cause.clone(),
                            },
                        ),
                    ),
                    _ => None,
                }
            },
        }
    }
}

/// If no execution from `from` up to `at` failed, and `at` is a failed one
/// or the end, then `at` is the first failure from `from`.
pub proof fn lemma_first_failure(stage: StageState, from: int, at: int)
    requires
        0 <= from <= at <= stage.progress.len(),
        forall|j: int| from <= j < at ==> !stage.failed_at(j),
        at == stage.progress.len() || stage.failed_at(at),
    ensures
        stage.first_failure(from) == at,
    decreases at - from,
{
    if from < at {
        lemma_first_failure(stage, from + 1, at);
    }
}

/// A stage has a result exactly when every one of its executions has been
/// reported: none is left behind because another one failed.
pub proof fn stage_waits_for_all(stage: StageState)
    requires
        stage.wf(),
    ensures
        stage.outcome().is_some() <==> stage.settled(),
        stage.outcome().is_some() ==> forall|i: int|
            0 <= i < stage.executions.len() ==> (#[trigger] stage.progress[i]) is Finished,
{
}

/// The failure that a stage reports is the first by position: the
/// execution at `index` failed, and none before it did.
pub proof fn first_failure_by_position(stage: StageState, index: int)
    requires
        stage.wf(),
        stage.settled(),
        stage.failed_at(index),
        forall|j: int| 0 <= j < index ==> !stage.failed_at(j),
    ensures
        stage.outcome() == Some(Err::<(), StageError>(stage.failure_at(index))),
        stage.failure_at(index).execution == stage.executions[index],
        stage.progress[index] == Progress::Finished(Err(stage.failure_at(index).cause)),
{
    lemma_first_failure(stage, 0, index);
}

/// A stage succeeds exactly when every execution has been reported and none
/// of them failed.
pub proof fn stage_succeeds_iff_none_failed(stage: StageState)
    requires
        stage.wf(),
    ensures
        stage.outcome() == Some(Ok::<(), StageError>(())) <==> stage.settled() && forall|i: int|
            0 <= i < stage.progress.len() ==> !stage.failed_at(i),
{
    if stage.settled() {
        if forall|i: int| 0 <= i < stage.progress.len() ==> !stage.failed_at(i) {
            lemma_first_failure(stage, 0, stage.progress.len() as int);
        } else {
            lemma_first_failure_fails(stage, 0);
        }
    }
}

/// The first failure from `from`, where it is not the end, is a failure.
pub proof fn lemma_first_failure_fails(stage: StageState, from: int)
    requires
        0 <= from,
    ensures
        from <= stage.first_failure(from) <= stage.progress.len() || from > stage.progress.len(),
        stage.first_failure(from) < stage.progress.len() ==> stage.failed_at(
            stage.first_failure(from),
        ),
        forall|j: int| from <= j < stage.first_failure(from) ==> !stage.failed_at(j),
    decreases stage.progress.len() - from,
{
    if from < stage.progress.len() && !stage.failed_at(from) {
        lemma_first_failure_fails(stage, from + 1);
    }
}

/// A handler that returns a record without success fails the stage: once
/// the execution is reported with it, the stage cannot succeed.
pub proof fn unsuccessful_record_fails_the_stage(stage: StageState, index: int, update: Update)
    requires
        stage.wf(),
        !update.success,
        stage.can_finish(index, HandlerOutcome::Returned(update)),
    ensures
        stage.finished(index, HandlerOutcome::Returned(update)).failed_at(index),
        stage.finished(index, HandlerOutcome::Returned(update)).outcome() != Some(
            Ok::<(), StageError>(()),
        ),
        stage.finished(index, HandlerOutcome::Returned(update)).settled() ==> stage.finished(
            index,
            HandlerOutcome::Returned(update),
        ).outcome() matches Some(Err(_)),
{
    let after = stage.finished(index, HandlerOutcome::Returned(update));
    stage_succeeds_iff_none_failed(after);
}

} // verus!
