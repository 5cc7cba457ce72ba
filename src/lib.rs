//! Network provisioning for dataplane sandboxes: the decisions behind
//! bridging a sandbox's network namespace to the host, stated and proved.
//!
//! Everything here is pure: the caller performs the backend calls (container
//! manager, kernel link interface, service manager, files) and hands their
//! outcomes in as plain values.

pub mod names;
pub mod error;
pub mod dataplane;
pub mod container;
pub mod pod;
pub mod reconcile;
pub mod service;
