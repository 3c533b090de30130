//! The audit record of a run: what was done, to what, by whom, and the log
//! that grows while the run goes on.

use vstd::prelude::*;

verus! {

/// The resource that a record or a request is about.
#[derive(Debug, PartialEq, Eq)]
pub enum ResourceTarget {
    System,
    Build(String),
    Builder(String),
    Deployment(String),
    Server(String),
    Repo(String),
    Procedure(String),
}

/// What a record reports.
#[derive(Clone, Copy, Debug, PartialEq, Eq, Structural, Hash)]
pub enum Operation {
    Unspecified,
    RunProcedure,
    RunBuild,
    Deploy,
    StartContainer,
    StopContainer,
    StopAllContainers,
    RemoveContainer,
    CloneRepo,
    PullRepo,
    PruneNetworks,
    PruneImages,
    PruneContainers,
    CreateServer,
    UpdateServer,
    DeleteServer,
    RenameServer,
    CreateDeployment,
    DeleteDeployment,
}

/// One entry of a record's log: the text that one step of the work wrote.
#[derive(Debug, PartialEq, Eq)]
pub struct Log {
    pub stage: String,
    pub stdout: String,
    pub stderr: String,
    pub success: bool,
}

/// The live, persisted record of one invoked workflow or operation.
#[derive(Debug, PartialEq, Eq)]
pub struct Update {
    pub id: String,
    pub target: ResourceTarget,
    pub operation: Operation,
    pub operator: String,
    pub start_ts: i64,
    pub end_ts: Option<i64>,
    pub success: bool,
    pub logs: Vec<Log>,
}

/// `text` with `line` written on a new line after it.
pub open spec fn with_line(text: Seq<char>, line: Seq<char>) -> Seq<char> {
    text + seq!['\n'] + line
}

/// `text` with each of `lines` written on a new line after it, in order.
pub open spec fn with_lines(text: Seq<char>, lines: Seq<Seq<char>>) -> Seq<char>
    decreases lines.len(),
{
    if lines.len() == 0 {
        text
    } else {
        with_line(with_lines(text, lines.drop_last()), lines.last())
    }
}

impl Clone for ResourceTarget {
    fn clone(&self) -> (copy: Self)
        ensures
            copy == *self,
    {
        match self {
            ResourceTarget::System => ResourceTarget::System,
            ResourceTarget::Build(id) => ResourceTarget::Build(id.clone()),
            ResourceTarget::Builder(id) => ResourceTarget::Builder(id.clone()),
            ResourceTarget::Deployment(id) => ResourceTarget::Deployment(id.clone()),
            ResourceTarget::Server(id) => ResourceTarget::Server(id.clone()),
            ResourceTarget::Repo(id) => ResourceTarget::Repo(id.clone()),
            ResourceTarget::Procedure(id) => ResourceTarget::Procedure(id.clone()),
        }
    }
}

impl Clone for Log {
    fn clone(&self) -> (copy: Self)
        ensures
            copy == *self,
    {
        Log {
            stage: self.stage.clone(),
            stdout: self.stdout.clone(),
            stderr: self.stderr.clone(),
            success: self.success,
        }
    }
}

impl Log {
    /// A successful entry that holds `message` and nothing else.
    pub fn simple(message: String) -> (log: Log)
        ensures
            log.stdout == message,
            log.stage@ == Seq::<char>::empty(),
            log.stderr@ == Seq::<char>::empty(),
            log.success,
    {
        Log { stage: String::new(), stdout: message, stderr: String::new(), success: true }
    }
}

impl Default for Update {
    /// The empty record: about the system, of no stated operation, by
    /// nobody, at time zero, open, not successful, without log entries.
    fn default() -> (update: Update)
        ensures
            update.id@ == Seq::<char>::empty(),
            update.target == ResourceTarget::System,
            update.operation == Operation::Unspecified,
            update.operator@ == Seq::<char>::empty(),
            update.start_ts == 0,
            update.end_ts.is_none(),
            !update.success,
            update.logs@ == Seq::<Log>::empty(),
    {
        Update {
            id: String::new(),
            target: ResourceTarget::System,
            operation: Operation::Unspecified,
            operator: String::new(),
            start_ts: 0,
            end_ts: None,
            success: false,
            logs: Vec::new(),
        }
    }
}

impl Update {
    /// The text that a run appends to: the output of the first log entry.
    pub open spec fn journal(self) -> Seq<char>
        recommends
            self.logs@.len() > 0,
    {
        self.logs@[0].stdout@
    }

    /// The two records hold the same: field for field, log entry for log
    /// entry.
    pub open spec fn matches(self, other: Update) -> bool {
        &&& self.id == other.id
        &&& self.target == other.target
        &&& self.operation == other.operation
        &&& self.operator == other.operator
        &&& self.start_ts == other.start_ts
        &&& self.end_ts == other.end_ts
        &&& self.success == other.success
        &&& self.logs@ == other.logs@
    }

    /// This record is `before` with `lines` appended to its journal, each on
    /// a new line, and is otherwise as `before` was.
    pub open spec fn extends(self, before: Update, lines: Seq<Seq<char>>) -> bool {
        &&& self.id == before.id
        &&& self.target == before.target
        &&& self.operation == before.operation
        &&& self.operator == before.operator
        &&& self.start_ts == before.start_ts
        &&& self.end_ts == before.end_ts
        &&& self.success == before.success
        &&& self.logs@.len() == before.logs@.len()
        &&& self.logs@.len() > 0
        &&& self.journal() == with_lines(before.journal(), lines)
        &&& self.logs@[0].stage == before.logs@[0].stage
        &&& self.logs@[0].stderr == before.logs@[0].stderr
        &&& self.logs@[0].success == before.logs@[0].success
        &&& forall|i: int| 0 < i < self.logs@.len() ==> self.logs@[i] == before.logs@[i]
    }

    /// A record of `operation` on `target` by `operator`, begun at
    /// `start_ts`, still open, not yet marked successful, with one empty log
    /// entry for the run to append to.
    pub fn open(
        id: String,
        target: ResourceTarget,
        operation: Operation,
        operator: String,
        start_ts: i64,
    ) -> (update: Update)
        ensures
            update.id == id,
            update.target == target,
            update.operation == operation,
            update.operator == operator,
            update.start_ts == start_ts,
            update.end_ts.is_none(),
            !update.success,
            update.logs@.len() == 1,
            update.journal() == Seq::<char>::empty(),
    {
        let mut logs: Vec<Log> = Vec::new();
        logs.push(Log::simple(String::new()));
        Update { id, target, operation, operator, start_ts, end_ts: None, success: false, logs }
    }

    /// A copy of the record as it stands, to hand to persistence.
    pub fn snapshot(&self) -> (copy: Update)
        ensures
            copy.matches(*self),
    {
        let mut logs: Vec<Log> = Vec::new();
        let mut i: usize = 0;
        while i < self.logs.len()
            invariant
                i <= self.logs@.len(),
                logs@ == self.logs@.take(i as int),
            decreases self.logs@.len() - i,
        {
            logs.push(self.logs[i].clone());
            proof {
                assert(logs@ =~= self.logs@.take(i + 1));
            }
            i = i + 1;
        }
        proof {
            assert(self.logs@.take(i as int) =~= self.logs@);
        }
        Update {
            id: self.id.clone(),
            target: self.target.clone(),
            operation: self.operation,
            operator: self.operator.clone(),
            start_ts: self.start_ts,
            end_ts: self.end_ts,
            success: self.success,
            logs,
        }
    }

    /// Appends `line` on a new line of the journal and returns a copy of the
    /// record as it then stands. Nothing else of the record changes, and the
    /// first log entry must exist already.
    pub fn add_line(&mut self, line: &str) -> (snapshot: Update)
        requires
            old(self).logs@.len() > 0,
        ensures
            final(self).extends(*old(self), seq![line@]),
            snapshot.matches(*final(self)),
    {
        proof {
            reveal_strlit("\n");
            assert("\n"@ =~= seq!['\n']);
            lemma_one_line(self.journal(), line@);
        }
        let mut stdout = self.logs[0].stdout.clone();
        stdout.append("\n");
        stdout.append(line);
        let first = Log {
            stage: self.logs[0].stage.clone(),
            stdout,
            stderr: self.logs[0].stderr.clone(),
            success: self.logs[0].success,
        };
        self.logs.set(0, first);
        self.snapshot()
    }
}

/// Appending one line is writing it on a new line after the text.
pub proof fn lemma_one_line(text: Seq<char>, line: Seq<char>)
    ensures
        with_lines(text, seq![line]) == with_line(text, line),
{
    reveal_with_fuel(with_lines, 2);
    assert(seq![line].drop_last() =~= Seq::<Seq<char>>::empty());
}

/// A record extends itself by no line at all.
pub proof fn lemma_extends_by_nothing(record: Update)
    requires
        record.logs@.len() > 0,
    ensures
        record.extends(record, Seq::<Seq<char>>::empty()),
{
}

/// Extending a record twice extends it by the lines of both rounds.
pub proof fn lemma_extends_further(
    before: Update,
    between: Update,
    after: Update,
    first: Seq<Seq<char>>,
    second: Seq<Seq<char>>,
)
    requires
        between.extends(before, first),
        after.extends(between, second),
    ensures
        after.extends(before, first + second),
{
    appending_in_rounds(before.journal(), first, second);
}

/// Appending never loses what the journal held: the text before is the
/// beginning of the text after, whatever lines are appended.
pub proof fn appending_keeps_the_journal(text: Seq<char>, lines: Seq<Seq<char>>)
    ensures
        text.is_prefix_of(with_lines(text, lines)),
        with_lines(text, lines).len() >= text.len(),
    decreases lines.len(),
{
    if lines.len() > 0 {
        appending_keeps_the_journal(text, lines.drop_last());
        let before = with_lines(text, lines.drop_last());
        let after = with_line(before, lines.last());
        assert(after.subrange(0, text.len() as int) =~= text);
    } else {
        assert(text.subrange(0, text.len() as int) =~= text);
    }
}

/// Appending lines in two rounds is appending them all in one.
pub proof fn appending_in_rounds(text: Seq<char>, first: Seq<Seq<char>>, second: Seq<Seq<char>>)
    ensures
        with_lines(with_lines(text, first), second) == with_lines(text, first + second),
    decreases second.len(),
{
    if second.len() == 0 {
        assert(first + second =~= first);
    } else {
        appending_in_rounds(text, first, second.drop_last());
        assert((first + second).drop_last() =~= first + second.drop_last());
        assert((first + second).last() == second.last());
    }
}

/// A copy taken after each append holds the journal of the record line for
/// line: what is handed to persistence is what the record holds.
pub proof fn snapshot_holds_the_journal(record: Update, copy: Update)
    requires
        copy.matches(record),
        record.logs@.len() > 0,
    ensures
        copy.logs@.len() == record.logs@.len(),
        copy.journal() == record.journal(),
        forall|i: int| 0 <= i < record.logs@.len() ==> copy.logs@[i] == record.logs@[i],
{
}

} // verus!
