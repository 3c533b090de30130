//! The requests that the controller takes for builders and servers.

use vstd::prelude::*;

verus! {

/// One condition of a query: the field, and the value it must have.
#[derive(Debug, PartialEq, Eq)]
pub struct QueryField {
    pub field: String,
    pub value: String,
}

/// A query over stored resources: every condition must hold.
#[derive(Debug, PartialEq, Eq)]
pub struct QueryDocument {
    pub fields: Vec<QueryField>,
}

/// Settings of a server, each given or left as it is.
#[derive(Debug, PartialEq, Eq)]
pub struct PartialServerConfig {
    pub address: Option<String>,
    pub enabled: Option<bool>,
    pub auto_prune: Option<bool>,
    pub region: Option<String>,
}

/// Asks for the builder with this id.
#[derive(Debug, PartialEq, Eq)]
pub struct GetBuilder {
    pub id: String,
}

/// Asks for the builders that match the query, or for all of them.
#[derive(Debug, PartialEq, Eq)]
pub struct ListBuilders {
    pub query: Option<QueryDocument>,
}

/// Creates a server with this name and these settings.
#[derive(Debug, PartialEq, Eq)]
pub struct CreateServer {
    pub name: String,
    pub config: PartialServerConfig,
}

/// Deletes the server with this id.
#[derive(Debug, PartialEq, Eq)]
pub struct DeleteServer {
    pub id: String,
}

/// Brings the server with this id to these settings.
#[derive(Debug, PartialEq, Eq)]
pub struct UpdateServer {
    pub id: String,
    pub config: PartialServerConfig,
}

/// Gives the server with this id a new name.
#[derive(Debug, PartialEq, Eq)]
pub struct RenameServer {
    pub id: String,
    pub name: String,
}

impl PartialServerConfig {
    /// Settings that leave everything as it is.
    pub fn unchanged() -> (config: PartialServerConfig)
        ensures
            config.address.is_none(),
            config.enabled.is_none(),
            config.auto_prune.is_none(),
            config.region.is_none(),
    {
        PartialServerConfig { address: None, enabled: None, auto_prune: None, region: None }
    }
}

} // verus!
