//! Where a supervisor keeps its state on disk.
use vstd::prelude::*;
use vstd::string::StringExecFns;

verus! {

/// The directory under which supervisors keep their state, one directory
/// per supervisor name.
pub const STATE_PATH_PREFIX: &'static str = "/hab/sup";

/// How a supervisor was asked to place its state.
pub struct ManagerConfig {
    /// The supervisor's name, when it runs beside others.
    pub name: Option<String>,
    /// A state directory chosen outright.
    pub custom_state_path: Option<String>,
}

impl ManagerConfig {
    pub fn new() -> (r: ManagerConfig)
        ensures
            r.name.is_none(),
            r.custom_state_path.is_none(),
    {
        ManagerConfig { name: None, custom_state_path: None }
    }
}

/// `dir` joined with `leaf` by a `/`.
pub open spec fn joined(dir: Seq<char>, leaf: Seq<char>) -> Seq<char> {
    dir + "/"@ + leaf
}

fn join(dir: &str, leaf: &str) -> (r: String)
    ensures
        r@ == joined(dir@, leaf@),
{
    dir.to_owned().concat("/").concat(leaf)
}

/// The state directory: the custom one when given, otherwise the
/// supervisor's name (or `default`) under the prefix.
pub fn state_path_from(cfg: &ManagerConfig) -> (r: String)
    ensures
        r@ == (match cfg.custom_state_path {
            Some(custom) => custom@,
            None => match cfg.name {
                Some(name) => joined(STATE_PATH_PREFIX@, name@),
                None => joined(STATE_PATH_PREFIX@, "default"@),
            },
        }),
{
    match &cfg.custom_state_path {
        Some(custom) => custom.clone(),
        None => match &cfg.name {
            Some(name) => join(STATE_PATH_PREFIX, name.as_str()),
            None => join(STATE_PATH_PREFIX, "default"),
        },
    }
}

/// The files and directories a supervisor keeps in its state directory.
pub struct FsCfg {
    pub data_path: String,
    pub composites_path: String,
    pub member_id_file: String,
    pub proc_lock_file: String,
}

impl FsCfg {
    pub fn new(sup_svc_root: &str) -> (r: FsCfg)
        ensures
            r.data_path@ == joined(sup_svc_root@, "data"@),
            r.composites_path@ == joined(sup_svc_root@, "composites"@),
            r.member_id_file@ == joined(sup_svc_root@, "MEMBER_ID"@),
            r.proc_lock_file@ == joined(sup_svc_root@, "LOCK"@),
    {
        FsCfg {
            data_path: join(sup_svc_root, "data"),
            composites_path: join(sup_svc_root, "composites"),
            member_id_file: join(sup_svc_root, "MEMBER_ID"),
            proc_lock_file: join(sup_svc_root, "LOCK"),
        }
    }
}

} // verus!
