//! Provisioning engine for a single host: it normalizes two interchangeable
//! configuration syntaxes into one desired state, gates every mutating action
//! on elevated privilege, dispatches one host-rename command, dispatches one
//! install command per requested package through a closed set of package
//! manager backends, and aggregates the per-package outcomes into an ordered
//! summary without aborting the run on a single install failure.

pub mod command;
pub mod config;
pub mod engine;
pub mod install_package;
pub mod json;
pub mod sys_ops;
pub mod yaml;
