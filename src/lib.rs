//! Host-side core of an event-sourced aggregate engine: the scratch transfer
//! buffer, module names, the aggregate call boundary types, the decisions of
//! a running instance, and the version rules of the append-only event log.

pub mod aggregate;
pub mod codec;
pub mod instance;
pub mod module_name;
pub mod scratch;
pub mod store;
