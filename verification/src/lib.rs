//! Staged procedure orchestration: the rules by which a fleet controller runs
//! a procedure stage by stage, dispatches each operation, guards resources by
//! access level and keeps a live audit record of the run.

pub mod access;
pub mod deployment;
pub mod execution;
pub mod periphery;
pub mod persistence;
pub mod procedure;
pub mod requests;
pub mod resolver;
pub mod resources;
pub mod run_laws;
pub mod stage;
pub mod text;
pub mod timing;
pub mod update;
