//! The execution resolver: whether an execution is handed to its handler at
//! all, and what the handler's answer means for the execution.

use vstd::prelude::*;
use crate::execution::{Execution, ExecutionKind};
use crate::text::{join2, join4, owned, same_text};
use crate::update::Update;

verus! {

/// What is done with an execution before any handler is involved.
#[derive(Clone, Copy, Debug, PartialEq, Eq, Structural, Hash)]
pub enum Dispatch {
    /// Nothing to do: the execution succeeds at once and no handler runs.
    Skip,
    /// The execution would run the procedure that holds it: it fails at once
    /// and no handler runs.
    Reject,
    /// The execution goes to the handler of its kind.
    Invoke,
}

/// What came back for one execution.
#[derive(Debug, PartialEq, Eq)]
pub enum HandlerOutcome {
    /// No handler was called.
    NotInvoked,
    /// The handler returned this record.
    Returned(Update),
    /// The handler, or the way to it, failed with this message.
    Failed(String),
}

/// Why an execution failed.
#[derive(Debug, PartialEq, Eq)]
pub enum ExecutionError {
    /// The execution asked for the procedure that holds it.
    SelfReferential,
    /// The handler of this kind failed with this message.
    Handler { kind: ExecutionKind, cause: String },
    /// The handler returned, and the record with this id reports no success.
    Unsuccessful { update_id: String },
}

/// The decision on `execution` inside the procedure with id `parent_id` and
/// name `parent_name`. Only the procedure directly above is looked at.
pub open spec fn dispatch_of(
    execution: Execution,
    parent_id: Seq<char>,
    parent_name: Seq<char>,
) -> Dispatch {
    match execution {
        Execution::Noop => Dispatch::Skip,
        Execution::RunProcedure(target) => if target@ == parent_id || target@ == parent_name {
            Dispatch::Reject
        } else {
            Dispatch::Invoke
        },
        _ => Dispatch::Invoke,
    }
}

/// What a handler's answer means for an execution of `kind`: success only
/// if the handler returned a record that reports success. `None` where no
/// handler was called.
pub open spec fn verdict_of(kind: ExecutionKind, outcome: HandlerOutcome) -> Option<
    Result<(), ExecutionError>,
> {
    match outcome {
        HandlerOutcome::NotInvoked => None,
        HandlerOutcome::Returned(update) => if update.success {
            Some(Ok(()))
        } else {
            Some(Err(ExecutionError::Unsuccessful { update_id: update.id }))
        },
        HandlerOutcome::Failed(cause) => Some(Err(ExecutionError::Handler { kind, cause })),
    }
}

/// The result of `execution` given what came back for it. `None` where the
/// two do not fit: a handler was called for an execution that goes to none,
/// or none was called for one that goes to its handler.
pub open spec fn resolution(
    execution: Execution,
    parent_id: Seq<char>,
    parent_name: Seq<char>,
    outcome: HandlerOutcome,
) -> Option<Result<(), ExecutionError>> {
    match dispatch_of(execution, parent_id, parent_name) {
        Dispatch::Skip => if outcome is NotInvoked {
            Some(Ok(()))
        } else {
            None
        },
        Dispatch::Reject => if outcome is NotInvoked {
            Some(Err(ExecutionError::SelfReferential))
        } else {
            None
        },
        Dispatch::Invoke => verdict_of(execution.spec_kind(), outcome),
    }
}

impl Clone for ExecutionError {
    fn clone(&self) -> (copy: Self)
        ensures
            copy == *self,
    {
        match self {
            ExecutionError::SelfReferential => ExecutionError::SelfReferential,
            ExecutionError::Handler { kind, cause } => ExecutionError::Handler {
                kind: *kind,
                cause: cause.clone(),
            },
            ExecutionError::Unsuccessful { update_id } => ExecutionError::Unsuccessful {
                update_id: update_id.clone(),
            },
        }
    }
}

impl ExecutionError {
    /// The error in words.
    pub open spec fn message_spec(self) -> Seq<char> {
        match self {
            ExecutionError::SelfReferential => "Self referential procedure detected"@,
            ExecutionError::Handler { kind, cause } => "failed at "@ + kind.name_spec() + ": "@
                + cause@,
            ExecutionError::Unsuccessful { update_id } => "execution not successful. see update "@
                + update_id@,
        }
    }

    /// The error in words.
    pub fn message(&self) -> (text: String)
        ensures
            text@ == self.message_spec(),
    {
        match self {
            ExecutionError::SelfReferential => owned("Self referential procedure detected"),
            ExecutionError::Handler { kind, cause } => join4(
                "failed at ",
                kind.name(),
                ": ",
                cause.as_str(),
            ),
            ExecutionError::Unsuccessful { update_id } => join2(
                "execution not successful. see update ",
                update_id.as_str(),
            ),
        }
    }
}

/// Decides what is done with `execution` inside the procedure with id
/// `parent_id` and name `parent_name`, before any handler is involved.
pub fn dispatch(execution: &Execution, parent_id: &str, parent_name: &str) -> (decision: Dispatch)
    ensures
        decision == dispatch_of(*execution, parent_id@, parent_name@),
{
    match execution {
        Execution::Noop => Dispatch::Skip,
        Execution::RunProcedure(target) => {
            if same_text(target.as_str(), parent_id) || same_text(target.as_str(), parent_name) {
                Dispatch::Reject
            } else {
                Dispatch::Invoke
            }
        },
        _ => Dispatch::Invoke,
    }
}

/// Reads a handler's answer for an execution of `kind`: a record that
/// reports no success is a failure, though the handler returned.
pub fn inspect(kind: ExecutionKind, outcome: &HandlerOutcome) -> (verdict: Option<
    Result<(), ExecutionError>,
>)
    ensures
        verdict == verdict_of(kind, *outcome),
{
    match outcome {
        HandlerOutcome::NotInvoked => None,
        HandlerOutcome::Returned(update) => {
            if update.success {
                Some(Ok(()))
            } else {
                Some(Err(ExecutionError::Unsuccessful { update_id: update.id.clone() }))
            }
        },
        HandlerOutcome::Failed(cause) => Some(
            Err(ExecutionError::Handler { kind, cause: cause.clone() }),
        ),
    }
}

/// The result of `execution` inside the procedure with id `parent_id` and
/// name `parent_name`, given what came back for it.
pub fn execute_execution(
    execution: &Execution,
    parent_id: &str,
    parent_name: &str,
    outcome: &HandlerOutcome,
) -> (result: Option<Result<(), ExecutionError>>)
    ensures
        result == resolution(*execution, parent_id@, parent_name@, *outcome),
{
    match dispatch(execution, parent_id, parent_name) {
        Dispatch::Skip => match outcome {
            HandlerOutcome::NotInvoked => Some(Ok(())),
            _ => None,
        },
        Dispatch::Reject => match outcome {
            HandlerOutcome::NotInvoked => Some(Err(ExecutionError::SelfReferential)),
            _ => None,
        },
        Dispatch::Invoke => inspect(execution.kind(), outcome),
    }
}

/// An execution that asks for the procedure that holds it, by id or by
/// name, is rejected: it fails as self-referential, and no answer of a
/// handler is accepted for it.
pub proof fn self_reference_is_rejected(
    target: String,
    parent_id: Seq<char>,
    parent_name: Seq<char>,
    outcome: HandlerOutcome,
)
    requires
        target@ == parent_id || target@ == parent_name,
    ensures
        dispatch_of(Execution::RunProcedure(target), parent_id, parent_name) == Dispatch::Reject,
        resolution(
            Execution::RunProcedure(target),
            parent_id,
            parent_name,
            HandlerOutcome::NotInvoked,
        ) == Some(Err::<(), ExecutionError>(ExecutionError::SelfReferential)),
        !(outcome is NotInvoked) ==> resolution(
            Execution::RunProcedure(target),
            parent_id,
            parent_name,
            outcome,
        ).is_none(),
{
}

/// A handler that returns a record without success has failed the
/// execution, whatever its kind.
pub proof fn unsuccessful_record_is_failure(
    execution: Execution,
    parent_id: Seq<char>,
    parent_name: Seq<char>,
    update: Update,
)
    requires
        !update.success,
        dispatch_of(execution, parent_id, parent_name) == Dispatch::Invoke,
    ensures
        resolution(execution, parent_id, parent_name, HandlerOutcome::Returned(update)) == Some(
            Err::<(), ExecutionError>(ExecutionError::Unsuccessful { update_id: update.id }),
        ),
{
}

/// The execution that does nothing succeeds without a handler, and only
/// without one.
pub proof fn noop_needs_no_handler(
    parent_id: Seq<char>,
    parent_name: Seq<char>,
    outcome: HandlerOutcome,
)
    ensures
        dispatch_of(Execution::Noop, parent_id, parent_name) == Dispatch::Skip,
        resolution(Execution::Noop, parent_id, parent_name, HandlerOutcome::NotInvoked) == Some(
            Ok::<(), ExecutionError>(()),
        ),
        !(outcome is NotInvoked) ==> resolution(
            Execution::Noop,
            parent_id,
            parent_name,
            outcome,
        ).is_none(),
{
}

} // verus!
