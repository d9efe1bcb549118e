//! User management across a Slurm-style accounting system, an LDAP-style
//! directory service, and home-directory provisioning.
//!
//! The heart of the crate is the accounting command builder in [`slurm`]:
//! it lowers a logical user operation (add, delete, modify, list) to the
//! exact, ordered sequence of accounting-tool invocations, and its contracts
//! pin down every argument of every line.  Around it stand the backend
//! selector, the per-backend outcome aggregation, the fail-fast command
//! sequence runner, and the acquire-once credential providers.

pub mod cli;
pub mod constants;
pub mod credential;
pub mod errors;
pub mod executor;
pub mod group;
pub mod orchestrator;
pub mod selection;
pub mod slurm;
pub mod strutil;
pub mod window;
