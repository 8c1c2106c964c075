//! A package as a service runs it.
use vstd::prelude::*;
use crate::cfg::Export;
use crate::types::PackageIdent;

verus! {

/// A resolved package: its identity, where it is installed, the paths of
/// its service, its environment, the ports it exposes, the configuration it
/// exports, and the user and group its service runs as. Paths are held as
/// text.
pub struct Pkg {
    pub ident: PackageIdent,
    pub origin: String,
    pub name: String,
    pub version: String,
    pub release: String,
    pub deps: Vec<PackageIdent>,
    pub env: Vec<(String, String)>,
    pub exposes: Vec<String>,
    pub exports: Vec<Export>,
    pub path: String,
    pub svc_path: String,
    pub svc_config_path: String,
    pub svc_data_path: String,
    pub svc_files_path: String,
    pub svc_static_path: String,
    pub svc_var_path: String,
    pub svc_pid_file: String,
    pub svc_run: String,
    pub svc_user: String,
    pub svc_group: String,
}

} // verus!
