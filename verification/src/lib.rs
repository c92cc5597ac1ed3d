//! A verified core for the Aurae runtime daemon: validated names and
//! resource settings, the cell and executable lifecycles, the in-memory
//! tables that track them, and the observation caches.
use vstd::prelude::*;

pub mod text;
pub mod validation;
pub mod names;
pub mod resources;
pub mod table;
pub mod errors;
pub mod mounts;
pub mod isolation;
pub mod namespaces;
pub mod cells;
pub mod executables;
pub mod proc_cache;
pub mod observe;
pub mod cgroup_cache;
pub mod cell_path;
pub mod requests;
pub mod commands;
pub mod context;
pub mod runtime_config;
pub mod logging;
pub mod power;
pub mod sriov;
pub mod nested;
pub mod service;
pub mod tables;
pub mod workload;
pub mod table_service;
pub mod boot;
pub mod events;
pub mod network;

verus! {

} // verus!
