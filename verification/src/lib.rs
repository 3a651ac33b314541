//! Bootstrap and lifecycle core of a distributed execution runtime.
//!
//! The crate holds the decisions of the runtime as verified, sequential code:
//! the connection protocol that brings up the coordination and messaging
//! backends, the lease-scoped discovery model, the hierarchical naming of
//! namespaces, components and endpoints, the registry of instance sources,
//! the once-only construction of the stream server, and the cancellation
//! hierarchy. Network and scheduler work is left to the caller, which performs
//! the actions that the state machines here hand out and reports the results
//! back as events.

pub mod bootstrap;
pub mod component;
pub mod config;
pub mod discovery;
pub mod distributed;
pub mod instance;
pub mod metrics;
pub mod runtime;
pub mod service;
pub mod slot;
pub mod transports;
