//! Procedures and what they are made of: stages, and the executions that a
//! stage holds.

use vstd::prelude::*;
use crate::text::join4;

verus! {

/// The kinds of execution, one per handler.
#[derive(Clone, Copy, Debug, PartialEq, Eq, Structural, Hash)]
pub enum ExecutionKind {
    Noop,
    RunProcedure,
    RunBuild,
    Deploy,
    StartContainer,
    StopContainer,
    StopAllContainers,
    RemoveContainer,
    CloneRepo,
    PullRepo,
    PruneNetworks,
    PruneImages,
    PruneContainers,
}

impl ExecutionKind {
    /// The name under which the kind appears in log lines and messages.
    pub open spec fn name_spec(self) -> Seq<char> {
        match self {
            ExecutionKind::Noop => "None"@,
            ExecutionKind::RunProcedure => "RunProcedure"@,
            ExecutionKind::RunBuild => "RunBuild"@,
            ExecutionKind::Deploy => "Deploy"@,
            ExecutionKind::StartContainer => "StartContainer"@,
            ExecutionKind::StopContainer => "StopContainer"@,
            ExecutionKind::StopAllContainers => "StopAllContainers"@,
            ExecutionKind::RemoveContainer => "RemoveContainer"@,
            ExecutionKind::CloneRepo => "CloneRepo"@,
            ExecutionKind::PullRepo => "PullRepo"@,
            ExecutionKind::PruneNetworks => "PruneNetworks"@,
            ExecutionKind::PruneImages => "PruneImages"@,
            ExecutionKind::PruneContainers => "PruneContainers"@,
        }
    }

    /// The name under which the kind appears in log lines and messages.
    pub fn name(&self) -> (name: &'static str)
        ensures
            name@ == self.name_spec(),
    {
        match self {
            ExecutionKind::Noop => "None",
            ExecutionKind::RunProcedure => "RunProcedure",
            ExecutionKind::RunBuild => "RunBuild",
            ExecutionKind::Deploy => "Deploy",
            ExecutionKind::StartContainer => "StartContainer",
            ExecutionKind::StopContainer => "StopContainer",
            ExecutionKind::StopAllContainers => "StopAllContainers",
            ExecutionKind::RemoveContainer => "RemoveContainer",
            ExecutionKind::CloneRepo => "CloneRepo",
            ExecutionKind::PullRepo => "PullRepo",
            ExecutionKind::PruneNetworks => "PruneNetworks",
            ExecutionKind::PruneImages => "PruneImages",
            ExecutionKind::PruneContainers => "PruneContainers",
        }
    }
}

/// One unit of work of a stage: its kind, and the resource it is aimed at.
#[derive(Debug, PartialEq, Eq)]
pub enum Execution {
    /// Does nothing.
    Noop,
    /// Runs the procedure with this id or name.
    RunProcedure(String),
    /// Runs the build with this id or name.
    RunBuild(String),
    /// Deploys the deployment with this id or name.
    Deploy(String),
    /// Starts the container of this deployment.
    StartContainer(String),
    /// Stops the container of this deployment.
    StopContainer(String),
    /// Stops every container on this server.
    StopAllContainers(String),
    /// Removes the container of this deployment.
    RemoveContainer(String),
    /// Clones this repository.
    CloneRepo(String),
    /// Pulls this repository.
    PullRepo(String),
    /// Prunes the unused networks of this server.
    PruneNetworks(String),
    /// Prunes the unused images of this server.
    PruneImages(String),
    /// Prunes the stopped containers of this server.
    PruneContainers(String),
}

impl Clone for Execution {
    fn clone(&self) -> (copy: Self)
        ensures
            copy == *self,
    {
        match self {
            Execution::Noop => Execution::Noop,
            Execution::RunProcedure(target) => Execution::RunProcedure(target.clone()),
            Execution::RunBuild(target) => Execution::RunBuild(target.clone()),
            Execution::Deploy(target) => Execution::Deploy(target.clone()),
            Execution::StartContainer(target) => Execution::StartContainer(target.clone()),
            Execution::StopContainer(target) => Execution::StopContainer(target.clone()),
            Execution::StopAllContainers(target) => Execution::StopAllContainers(target.clone()),
            Execution::RemoveContainer(target) => Execution::RemoveContainer(target.clone()),
            Execution::CloneRepo(target) => Execution::CloneRepo(target.clone()),
            Execution::PullRepo(target) => Execution::PullRepo(target.clone()),
            Execution::PruneNetworks(target) => Execution::PruneNetworks(target.clone()),
            Execution::PruneImages(target) => Execution::PruneImages(target.clone()),
            Execution::PruneContainers(target) => Execution::PruneContainers(target.clone()),
        }
    }
}

impl Execution {
    /// The kind of the execution.
    pub open spec fn spec_kind(self) -> ExecutionKind {
        match self {
            Execution::Noop => ExecutionKind::Noop,
            Execution::RunProcedure(_) => ExecutionKind::RunProcedure,
            Execution::RunBuild(_) => ExecutionKind::RunBuild,
            Execution::Deploy(_) => ExecutionKind::Deploy,
            Execution::StartContainer(_) => ExecutionKind::StartContainer,
            Execution::StopContainer(_) => ExecutionKind::StopContainer,
            Execution::StopAllContainers(_) => ExecutionKind::StopAllContainers,
            Execution::RemoveContainer(_) => ExecutionKind::RemoveContainer,
            Execution::CloneRepo(_) => ExecutionKind::CloneRepo,
            Execution::PullRepo(_) => ExecutionKind::PullRepo,
            Execution::PruneNetworks(_) => ExecutionKind::PruneNetworks,
            Execution::PruneImages(_) => ExecutionKind::PruneImages,
            Execution::PruneContainers(_) => ExecutionKind::PruneContainers,
        }
    }

    /// The id or name of the resource that the execution is aimed at; empty
    /// for the one that does nothing.
    pub open spec fn spec_target(self) -> Seq<char> {
        match self {
            Execution::Noop => Seq::<char>::empty(),
            Execution::RunProcedure(target) => target@,
            Execution::RunBuild(target) => target@,
            Execution::Deploy(target) => target@,
            Execution::StartContainer(target) => target@,
            Execution::StopContainer(target) => target@,
            Execution::StopAllContainers(target) => target@,
            Execution::RemoveContainer(target) => target@,
            Execution::CloneRepo(target) => target@,
            Execution::PullRepo(target) => target@,
            Execution::PruneNetworks(target) => target@,
            Execution::PruneImages(target) => target@,
            Execution::PruneContainers(target) => target@,
        }
    }

    /// How the execution is written in log lines and messages: its kind, and
    /// in brackets its target where it has one.
    pub open spec fn description(self) -> Seq<char> {
        if self.spec_kind() == ExecutionKind::Noop {
            ExecutionKind::Noop.name_spec()
        } else {
            self.spec_kind().name_spec() + "("@ + self.spec_target() + ")"@
        }
    }

    /// The kind of the execution.
    pub fn kind(&self) -> (kind: ExecutionKind)
        ensures
            kind == self.spec_kind(),
    {
        match self {
            Execution::Noop => ExecutionKind::Noop,
            Execution::RunProcedure(_) => ExecutionKind::RunProcedure,
            Execution::RunBuild(_) => ExecutionKind::RunBuild,
            Execution::Deploy(_) => ExecutionKind::Deploy,
            Execution::StartContainer(_) => ExecutionKind::StartContainer,
            Execution::StopContainer(_) => ExecutionKind::StopContainer,
            Execution::StopAllContainers(_) => ExecutionKind::StopAllContainers,
            Execution::RemoveContainer(_) => ExecutionKind::RemoveContainer,
            Execution::CloneRepo(_) => ExecutionKind::CloneRepo,
            Execution::PullRepo(_) => ExecutionKind::PullRepo,
            Execution::PruneNetworks(_) => ExecutionKind::PruneNetworks,
            Execution::PruneImages(_) => ExecutionKind::PruneImages,
            Execution::PruneContainers(_) => ExecutionKind::PruneContainers,
        }
    }

    /// The id or name of the resource that the execution is aimed at, if it
    /// has one.
    pub fn target(&self) -> (target: Option<&String>)
        ensures
            target.is_none() <==> self.spec_kind() == ExecutionKind::Noop,
            target.is_some() ==> target.unwrap()@ == self.spec_target(),
    {
        match self {
            Execution::Noop => None,
            Execution::RunProcedure(target) => Some(target),
            Execution::RunBuild(target) => Some(target),
            Execution::Deploy(target) => Some(target),
            Execution::StartContainer(target) => Some(target),
            Execution::StopContainer(target) => Some(target),
            Execution::StopAllContainers(target) => Some(target),
            Execution::RemoveContainer(target) => Some(target),
            Execution::CloneRepo(target) => Some(target),
            Execution::PullRepo(target) => Some(target),
            Execution::PruneNetworks(target) => Some(target),
            Execution::PruneImages(target) => Some(target),
            Execution::PruneContainers(target) => Some(target),
        }
    }

    /// How the execution is written in log lines and messages.
    pub fn describe(&self) -> (text: String)
        ensures
            text@ == self.description(),
    {
        let kind = self.kind();
        match self.target() {
            None => {
                let mut text = String::new();
                text.append(kind.name());
                assert(text@ =~= kind.name_spec());
                text
            },
            Some(target) => {
                let text = join4(kind.name(), "(", target.as_str(), ")");
                assert(text@ =~= self.description());
                text
            },
        }
    }
}

/// An execution as a stage lists it: switched on or off.
#[derive(Debug, PartialEq, Eq)]
pub struct EnabledExecution {
    pub execution: Execution,
    pub enabled: bool,
}

/// A named group of executions that run side by side.
#[derive(Debug, PartialEq, Eq)]
pub struct Stage {
    pub name: String,
    pub executions: Vec<EnabledExecution>,
}

/// A named, ordered list of stages; the stages run in this order.
#[derive(Debug, PartialEq, Eq)]
pub struct Procedure {
    pub id: String,
    pub name: String,
    pub stages: Vec<Stage>,
}

/// The executions of a stage that are switched on, in the order in which the
/// stage lists them.
pub open spec fn enabled_executions(listed: Seq<EnabledExecution>) -> Seq<Execution> {
    listed.filter(|item: EnabledExecution| item.enabled).map_values(
        |item: EnabledExecution| item.execution,
    )
}

impl Clone for EnabledExecution {
    fn clone(&self) -> (copy: Self)
        ensures
            copy == *self,
    {
        EnabledExecution { execution: self.execution.clone(), enabled: self.enabled }
    }
}

impl Stage {
    /// The executions of the stage that are switched on, in the order in
    /// which the stage lists them.
    pub fn enabled(&self) -> (kept: Vec<Execution>)
        ensures
            kept@ == enabled_executions(self.executions@),
    {
        let mut kept: Vec<Execution> = Vec::new();
        let mut i: usize = 0;
        proof {
            reveal(Seq::filter);
            assert(self.executions@.take(0) =~= Seq::<EnabledExecution>::empty());
            assert(kept@ =~= enabled_executions(self.executions@.take(0)));
        }
        while i < self.executions.len()
            invariant
                i <= self.executions@.len(),
                kept@ == enabled_executions(self.executions@.take(i as int)),
            decreases self.executions@.len() - i,
        {
            proof {
                reveal(Seq::filter);
                let next = self.executions@.take(i + 1);
                assert(next.drop_last() =~= self.executions@.take(i as int));
                assert(next.last() == self.executions@[i as int]);
            }
            if self.executions[i].enabled {
                kept.push(self.executions[i].execution.clone());
            }
            proof {
                assert(kept@ =~= enabled_executions(self.executions@.take(i + 1)));
            }
            i = i + 1;
        }
        proof {
            assert(self.executions@.take(i as int) =~= self.executions@);
        }
        kept
    }
}

/// Every execution that a stage runs is one that it lists as switched on.
pub proof fn enabled_are_listed(listed: Seq<EnabledExecution>, i: int)
    requires
        0 <= i < enabled_executions(listed).len(),
    ensures
        exists|j: int|
            0 <= j < listed.len() && (#[trigger] listed[j]).enabled && listed[j].execution
                == enabled_executions(listed)[i],
{
    let pred = |item: EnabledExecution| item.enabled;
    let kept = listed.filter(pred);
    broadcast use vstd::seq_lib::group_filter_ensures;
    assert(pred(kept[i]));
    assert(listed.contains(kept[i])) by {
        lemma_filter_is_sub(listed, pred, i);
    }
    let j = choose|j: int| 0 <= j < listed.len() && listed[j] == kept[i];
    assert(listed[j].enabled);
}

/// An element of a filtered sequence is an element of the sequence.
proof fn lemma_filter_is_sub(
    listed: Seq<EnabledExecution>,
    pred: spec_fn(EnabledExecution) -> bool,
    i: int,
)
    requires
        0 <= i < listed.filter(pred).len(),
    ensures
        listed.contains(listed.filter(pred)[i]),
    decreases listed.len(),
{
    reveal(Seq::filter);
    if listed.len() > 0 {
        let rest = listed.drop_last().filter(pred);
        if i < rest.len() {
            lemma_filter_is_sub(listed.drop_last(), pred, i);
            let j = choose|j: int| 0 <= j < listed.drop_last().len() && listed.drop_last()[j] == rest[i];
            assert(listed[j] == rest[i]);
        } else {
            assert(listed[listed.len() - 1] == listed.last());
        }
    }
}

/// A stage in which nothing is switched on runs nothing, and no stage runs
/// more executions than it lists.
pub proof fn disabled_are_left_out(listed: Seq<EnabledExecution>)
    ensures
        enabled_executions(listed).len() <= listed.len(),
        (forall|j: int| 0 <= j < listed.len() ==> !(#[trigger] listed[j]).enabled)
            ==> enabled_executions(listed).len() == 0,
    decreases listed.len(),
{
    reveal(Seq::filter);
    if listed.len() > 0 {
        disabled_are_left_out(listed.drop_last());
        assert forall|j: int| 0 <= j < listed.drop_last().len() implies listed.drop_last()[j]
            == listed[j] by {}
        if forall|j: int| 0 <= j < listed.len() ==> !(#[trigger] listed[j]).enabled {
            assert(!listed[listed.len() - 1].enabled);
            assert forall|j: int| 0 <= j < listed.drop_last().len() implies !(
            #[trigger] listed.drop_last()[j]).enabled by {
                assert(listed.drop_last()[j] == listed[j]);
            }
        }
    }
}

} // verus!
