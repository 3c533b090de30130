//! Creating and deleting deployments: who may, and what the audit record
//! of each says.

use vstd::prelude::*;
use crate::access::{permits, PermissionLevel, PermissionsMap};
use crate::resources::{Deployment, Server};
use crate::text::{join4, join5, owned};
use crate::update::{Log, Operation, ResourceTarget, Update};

verus! {

/// Names the deployment that a request is about.
#[derive(Debug, PartialEq, Eq)]
pub struct DeploymentId {
    pub id: String,
}

/// What a caller sends to create a deployment.
#[derive(Debug, PartialEq, Eq)]
pub struct CreateDeploymentBody {
    pub name: String,
    pub server_id: String,
}

/// Why a request about a deployment was turned down.
#[derive(Debug, PartialEq, Eq)]
pub enum DeploymentError {
    /// The user may not write to the server that the deployment is for.
    CreateDenied,
    /// The user may not write to the deployment with this name and id.
    DeleteDenied { name: String, id: String },
}

impl DeploymentError {
    /// The refusal in words.
    pub open spec fn message_spec(self) -> Seq<char> {
        match self {
            DeploymentError::CreateDenied =>
                "user does not have permissions to create deployment on this server"@,
            DeploymentError::DeleteDenied { name, id } =>
                "user does not have permissions to delete deployment "@ + name@ + " ("@ + id@
                    + ")"@,
        }
    }

    /// The refusal in words.
    pub fn message(&self) -> (text: String)
        ensures
            text@ == self.message_spec(),
    {
        match self {
            DeploymentError::CreateDenied => owned(
                "user does not have permissions to create deployment on this server",
            ),
            DeploymentError::DeleteDenied { name, id } => join5(
                "user does not have permissions to delete deployment ",
                name.as_str(),
                " (",
                id.as_str(),
                ")",
            ),
        }
    }
}

impl CreateDeploymentBody {
    /// The deployment that the body asks for: its name and server as given,
    /// no id yet, and nobody named in its permissions.
    pub fn into(self) -> (deployment: Deployment)
        ensures
            deployment.name == self.name,
            deployment.server_id == self.server_id,
            deployment.id@ == Seq::<char>::empty(),
            deployment.permissions@ == Map::<Seq<char>, PermissionLevel>::empty(),
    {
        Deployment {
            id: String::new(),
            name: self.name,
            server_id: self.server_id,
            permissions: PermissionsMap::new(),
        }
    }
}

/// The deployment to store for `body`, asked for by `user`, on `server`.
/// Only a user who may write to the server gets one; it then names that
/// user alone, with the right to write.
pub fn create(server: &Server, user: &str, body: CreateDeploymentBody) -> (result: Result<
    Deployment,
    DeploymentError,
>)
    ensures
        result.is_ok() <==> permits(server.permissions@, user@, PermissionLevel::Write),
        result matches Ok(deployment) ==> {
            &&& deployment.name == body.name
            &&& deployment.server_id == body.server_id
            &&& deployment.id@ == Seq::<char>::empty()
            &&& deployment.permissions@ == Map::<Seq<char>, PermissionLevel>::empty().insert(
                user@,
                PermissionLevel::Write,
            )
        },
        result matches Err(error) ==> error == DeploymentError::CreateDenied,
{
    match server.permissions.require(user, PermissionLevel::Write) {
        Err(_) => Err(DeploymentError::CreateDenied),
        Ok(()) => {
            let mut deployment = body.into();
            deployment.permissions = PermissionsMap::single(user, PermissionLevel::Write);
            Ok(deployment)
        },
    }
}

/// The audit record of a creation: about the new deployment, by `user`,
/// from `start_ts` to `end_ts`, and otherwise empty.
pub fn created(deployment_id: String, user: &str, start_ts: i64, end_ts: i64) -> (update: Update)
    ensures
        update.target == ResourceTarget::Deployment(deployment_id),
        update.operation == Operation::CreateDeployment,
        update.operator@ == user@,
        update.start_ts == start_ts,
        update.end_ts == Some(end_ts),
        update.id@ == Seq::<char>::empty(),
        !update.success,
        update.logs@ == Seq::<Log>::empty(),
{
    Update {
        id: String::new(),
        target: ResourceTarget::Deployment(deployment_id),
        operation: Operation::CreateDeployment,
        operator: owned(user),
        start_ts,
        end_ts: Some(end_ts),
        success: false,
        logs: Vec::new(),
    }
}

/// Whether `user` may delete `deployment`, asked for under `id`: only a
/// user who may write to it.
pub fn delete_one(deployment: &Deployment, id: &str, user: &str) -> (result: Result<
    (),
    DeploymentError,
>)
    ensures
        result.is_ok() <==> permits(deployment.permissions@, user@, PermissionLevel::Write),
        result matches Err(error) ==> error matches DeploymentError::DeleteDenied {
            name,
            id: named,
        } && name == deployment.name && named@ == id@,
{
    match deployment.permissions.require(user, PermissionLevel::Write) {
        Err(_) => Err(
            DeploymentError::DeleteDenied { name: deployment.name.clone(), id: owned(id) },
        ),
        Ok(()) => Ok(()),
    }
}

/// The note that closes the log of a deletion.
pub open spec fn deletion_note(deployment: Seq<char>, server: Seq<char>) -> Seq<char> {
    "deleted deployment "@ + deployment + " on server "@ + server
}

/// The audit record of a deletion: about the system, by `user`, from
/// `start_ts` to `end_ts`, with the log of the container's removal and then
/// a note of what was deleted where.
pub fn deleted(
    deployment: &Deployment,
    server: &Server,
    user: &str,
    removal: Log,
    start_ts: i64,
    end_ts: i64,
) -> (update: Update)
    ensures
        update.target == ResourceTarget::System,
        update.operation == Operation::DeleteDeployment,
        update.operator@ == user@,
        update.start_ts == start_ts,
        update.end_ts == Some(end_ts),
        update.id@ == Seq::<char>::empty(),
        !update.success,
        update.logs@.len() == 2,
        update.logs@[0] == removal,
        update.logs@[1].stdout@ == deletion_note(deployment.name@, server.name@),
        update.logs@[1].stage@ == Seq::<char>::empty(),
        update.logs@[1].stderr@ == Seq::<char>::empty(),
        update.logs@[1].success,
{
    let note = join4(
        "deleted deployment ",
        deployment.name.as_str(),
        " on server ",
        server.name.as_str(),
    );
    let mut logs: Vec<Log> = Vec::new();
    logs.push(removal);
    logs.push(Log::simple(note));
    Update {
        id: String::new(),
        target: ResourceTarget::System,
        operation: Operation::DeleteDeployment,
        operator: owned(user),
        start_ts,
        end_ts: Some(end_ts),
        success: false,
        logs,
    }
}

} // verus!
