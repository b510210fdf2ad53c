//! Merix: a local-first AI runtime. This library holds the runtime's
//! domain models, its in-memory store, and the decisions of the task
//! executor, the model runtime and the registries, each with a contract.

pub mod ids;
pub mod json;
pub mod schemas;
pub mod memory;
pub mod models;
pub mod records;
pub mod runtime;
pub mod llama;
pub mod utilities;
pub mod cli;
pub mod resources;
pub mod registry;
pub mod mcp;
pub mod skills;
