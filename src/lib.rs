//! Library core of a node-local process supervisor: gossip rumor storage,
//! the census read-model, layered configuration, lifecycle decisions and the
//! wire and protocol types exchanged with peers and the launcher.

pub mod census;
pub mod cfg;
pub mod launcher;
pub mod lifecycle;
pub mod manager;
pub mod merge_laws;
pub mod notify;
pub mod package;
pub mod rumor;
pub mod rumor_kinds;
pub mod rumor_wire;
pub mod runtime;
pub mod status;
pub mod text;
pub mod toml_value;
pub mod types;
