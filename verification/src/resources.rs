//! The managed resources as far as the engine reads them: who may do what
//! to a server or a deployment, and what they are called.

use vstd::prelude::*;
use crate::access::{effective_level, PermissionLevel, PermissionsMap};
use crate::requests::{CreateServer, PartialServerConfig, UpdateServer};
use crate::update::ResourceTarget;

verus! {

/// A managed host and the address of the agent on it.
#[derive(Debug)]
pub struct Server {
    pub id: String,
    pub name: String,
    pub address: String,
    pub permissions: PermissionsMap,
}

/// A container deployment on a server.
#[derive(Debug)]
pub struct Deployment {
    pub id: String,
    pub name: String,
    pub server_id: String,
    pub permissions: PermissionsMap,
}

/// A server as a declaration file states it: its name and the settings it
/// gives.
#[derive(Debug, PartialEq, Eq)]
pub struct ResourceToml {
    pub name: String,
    pub config: PartialServerConfig,
}

impl Server {
    /// The level that `user` has on the server.
    pub fn get_user_permissions(&self, user: &str) -> (level: PermissionLevel)
        ensures
            level == effective_level(self.permissions@, user@),
    {
        self.permissions.get_user_permissions(user)
    }

    /// The word for this kind of resource in messages.
    pub fn display() -> (word: &'static str)
        ensures
            word@ == "server"@,
    {
        "server"
    }

    /// The target that stands for the server with this id.
    pub fn resource_target(id: String) -> (target: ResourceTarget)
        ensures
            target == ResourceTarget::Server(id),
    {
        ResourceTarget::Server(id)
    }

    /// The request that creates the declared server: its name and settings
    /// as declared.
    pub fn create(resource: ResourceToml) -> (request: CreateServer)
        ensures
            request.name == resource.name,
            request.config == resource.config,
    {
        CreateServer { name: resource.name, config: resource.config }
    }

    /// The request that brings the server with this id to the declared
    /// settings. The declared name is not part of it.
    pub fn update(id: String, resource: ResourceToml) -> (request: UpdateServer)
        ensures
            request.id == id,
            request.config == resource.config,
    {
        UpdateServer { id, config: resource.config }
    }
}

impl Deployment {
    /// The level that `user` has on the deployment.
    pub fn get_user_permissions(&self, user: &str) -> (level: PermissionLevel)
        ensures
            level == effective_level(self.permissions@, user@),
    {
        self.permissions.get_user_permissions(user)
    }
}

} // verus!
