//! A service's configuration in four layers, and the decision of which
//! rendered configuration files need writing.
//!
//! The layers apply in order: the package's defaults, then the
//! environment, then the user's file, then what the service group gossips.
//! A later layer overrides an earlier one key by key, merging nested tables.
use vstd::prelude::*;
use crate::toml_value::{TableModel, TomlModel, TomlValue, copy_value, find_entry, find_key, lemma_model_table, merge_model, merge_tables, model, table_model};
use crate::text::{ascii_upper, chars_of, push_char, text_eq};

verus! {

/// A table held as a list of entries.
pub type Table = Vec<(String, TomlValue)>;

/// `acc` with one more layer merged in. A layer that is absent, or that
/// fails to merge, leaves `acc` as it is.
pub open spec fn with_layer(acc: TableModel, layer: Option<Seq<(String, TomlValue)>>) -> TableModel {
    match layer {
        Some(t) => match merge_model(acc, table_model(t), 0) {
            Some(m) => m,
            None => acc,
        },
        None => acc,
    }
}

/// The layers of a service's configuration.
pub struct Cfg {
    pub default: Option<Table>,
    pub environment: Option<Table>,
    pub user: Option<Table>,
    pub gossip: Option<Table>,
    /// The incarnation of the gossip layer; it only grows.
    pub gossip_incarnation: u64,
}

/// The entries of an optional table.
pub open spec fn layer_view(l: Option<Table>) -> Option<Seq<(String, TomlValue)>> {
    match l {
        Some(t) => Some(t@),
        None => None,
    }
}

impl Cfg {
    /// The configuration that the layers make together.
    pub open spec fn merged_view(&self) -> TableModel {
        with_layer(
            with_layer(
                with_layer(with_layer(Seq::empty(), layer_view(self.default)), layer_view(self.environment)),
                layer_view(self.user),
            ),
            layer_view(self.gossip),
        )
    }

    /// A configuration from its first three layers, with nothing gossiped yet.
    pub fn new(default: Option<Table>, environment: Option<Table>, user: Option<Table>) -> (r: Cfg)
        ensures
            r.default == default,
            r.environment == environment,
            r.user == user,
            r.gossip.is_none(),
            r.gossip_incarnation == 0,
    {
        Cfg { default, environment, user, gossip: None, gossip_incarnation: 0 }
    }

    /// Takes a gossiped configuration if it is newer than the one held.
    /// Returns whether it was taken.
    pub fn update(&mut self, incarnation: u64, config: Table) -> (r: bool)
        ensures
            r == (incarnation > old(self).gossip_incarnation),
            r ==> final(self).gossip == Some(config) && final(self).gossip_incarnation
                == incarnation,
            !r ==> final(self).gossip == old(self).gossip && final(self).gossip_incarnation
                == old(self).gossip_incarnation,
            final(self).default == old(self).default,
            final(self).environment == old(self).environment,
            final(self).user == old(self).user,
    {
        if incarnation <= self.gossip_incarnation {
            return false;
        }
        self.gossip_incarnation = incarnation;
        self.gossip = Some(config);
        true
    }

    /// The configuration that the layers make together.
    pub fn merged(&self) -> (r: Table)
        ensures
            table_model(r@) == self.merged_view(),
    {
        let mut acc: Table = Vec::new();
        assert(table_model(acc@) =~= Seq::empty());
        acc = merge_layer(acc, &self.default);
        acc = merge_layer(acc, &self.environment);
        acc = merge_layer(acc, &self.user);
        acc = merge_layer(acc, &self.gossip);
        acc
    }
}

/// `acc` with `layer` merged in, or unchanged where the merge fails.
fn merge_layer(acc: Table, layer: &Option<Table>) -> (r: Table)
    ensures
        table_model(r@) == with_layer(table_model(acc@), layer_view(*layer)),
{
    match layer {
        Some(t) => match merge_tables(&acc, t, 0) {
            Ok(m) => m,
            Err(_) => acc,
        },
        None => acc,
    }
}

/// Whether `d` is what character `c` of a package name becomes in the name
/// of its environment variable: upper case for ASCII letters, `_` for `-`.
pub open spec fn env_char(c: char, d: char) -> bool {
    if c == '-' {
        d == '_'
    } else if 'a' <= c && c <= 'z' {
        d as u32 == c as u32 - 32
    } else {
        d == c
    }
}

/// Whether `v` names the environment variable that configures package
/// `name`: `HAB_` then the name, upper-cased, with `_` for `-`.
pub open spec fn is_env_var_name(name: Seq<char>, v: Seq<char>) -> bool {
    &&& v.len() == name.len() + 4
    &&& v.take(4) == "HAB_"@
    &&& forall|i: int| 0 <= i < name.len() ==> env_char(#[trigger] name[i], v[i + 4])
}

/// The environment variable that configures package `name`.
pub fn env_var_name(name: &str) -> (r: String)
    ensures
        is_env_var_name(name@, r@),
{
    let cs = chars_of(name);
    let mut r = "HAB_".to_owned();
    proof {
        reveal_strlit("HAB_");
    }
    let mut i: usize = 0;
    while i < cs.len()
        invariant
            cs@ == name@,
            i <= cs@.len(),
            r@.len() == i + 4,
            r@.take(4) == "HAB_"@,
            forall|j: int| 0 <= j < i ==> env_char(#[trigger] cs@[j], r@[j + 4]),
        decreases cs@.len() - i,
    {
        let c = cs[i];
        let d = if c == '-' {
            '_'
        } else {
            ascii_upper(c)
        };
        let ghost before = r@;
        push_char(&mut r, d);
        proof {
            assert(r@.take(4) =~= before.take(4));
            assert forall|j: int| 0 <= j < i + 1 implies env_char(#[trigger] cs@[j], r@[j + 4]) by {
                if j < i {
                    assert(r@[j + 4] == before[j + 4]);
                }
            }
        }
        i += 1;
    }
    r
}

/// Why a configuration layer could not be loaded.
#[derive(Debug, PartialEq)]
pub enum CfgError {
    /// The environment variable holds neither a TOML nor a JSON table.
    BadEnvConfig(String),
}

/// The environment layer from the variable's text read as TOML and as
/// JSON: the TOML reading wins, then the JSON one; with neither the
/// variable is refused under its name.
pub fn environment_layer(var_name: String, as_toml: Option<Table>, as_json: Option<Table>) -> (r: Result<Table, CfgError>)
    ensures
        match (as_toml, as_json) {
            (Some(t), _) => r == Ok::<Table, CfgError>(t),
            (None, Some(j)) => r == Ok::<Table, CfgError>(j),
            (None, None) => r == Err::<Table, CfgError>(CfgError::BadEnvConfig(var_name)),
        },
{
    match as_toml {
        Some(t) => Ok(t),
        None => match as_json {
            Some(j) => Ok(j),
            None => Err(CfgError::BadEnvConfig(var_name)),
        },
    }
}

/// A value a package exports to its peers: `key` names it, `path` leads to
/// it through nested tables of the configuration.
pub struct Export {
    pub key: String,
    pub path: Vec<String>,
}

/// The value at `path` in table `t`, if every step of the path exists.
pub open spec fn lookup_path(t: TableModel, path: Seq<Seq<char>>) -> Option<TomlModel>
    decreases path.len(),
{
    if path.len() == 0 {
        None
    } else {
        let i = find_key(t, path[0]);
        if i < 0 {
            None
        } else if path.len() == 1 {
            Some(t[i].1)
        } else {
            match t[i].1 {
                TomlModel::Table(s) => lookup_path(s, path.drop_first()),
                _ => None,
            }
        }
    }
}

/// The texts of a path.
pub open spec fn path_view(p: Seq<String>) -> Seq<Seq<char>> {
    p.map_values(|s: String| s@)
}

/// The exported subset of table `t`: each export whose path resolves, under
/// its key, in the order of the exports.
pub open spec fn exported(t: TableModel, exports: Seq<Export>) -> TableModel
    decreases exports.len(),
{
    if exports.len() == 0 {
        Seq::empty()
    } else {
        let e = exports.last();
        let rest = exported(t, exports.drop_last());
        match lookup_path(t, path_view(e.path@)) {
            Some(v) => rest.push((e.key@, v)),
            None => rest,
        }
    }
}

/// The value at `path[from..]` in table `t`.
fn lookup<'a>(t: &'a Vec<(String, TomlValue)>, path: &Vec<String>, from: usize) -> (r: Option<&'a TomlValue>)
    requires
        from < path@.len(),
    ensures
        match r {
            Some(v) => lookup_path(table_model(t@), path_view(path@).skip(from as int)) == Some(model(*v)),
            None => lookup_path(table_model(t@), path_view(path@).skip(from as int)) is None,
        },
    decreases path@.len() - from,
{
    let ghost p = path_view(path@).skip(from as int);
    assert(p[0] == path@[from as int]@);
    match find_entry(t, path[from].as_str()) {
        None => None,
        Some(i) => {
            if from == path.len() - 1 {
                return Some(&t[i].1);
            }
            proof {
                assert(p.drop_first() =~= path_view(path@).skip(from as int + 1));
            }
            match &t[i].1 {
                TomlValue::Table(s) => {
                    proof {
                        lemma_model_table(*s);
                    }
                    lookup(s, path, from + 1)
                },
                _ => None,
            }
        },
    }
}

impl Cfg {
    /// The subset of the merged configuration that the exports name.
    pub fn to_exported(&self, exports: &Vec<Export>) -> (r: Table)
        ensures
            table_model(r@) == exported(self.merged_view(), exports@),
    {
        let cfg = self.merged();
        let mut r: Table = Vec::new();
        let mut i: usize = 0;
        while i < exports.len()
            invariant
                i <= exports@.len(),
                table_model(cfg@) == self.merged_view(),
                table_model(r@) == exported(self.merged_view(), exports@.take(i as int)),
            decreases exports@.len() - i,
        {
            let e = &exports[i];
            proof {
                assert(exports@.take(i as int + 1).drop_last() =~= exports@.take(i as int));
            }
            let found = if e.path.len() == 0 {
                None
            } else {
                proof {
                    assert(path_view(e.path@).skip(0) =~= path_view(e.path@));
                }
                lookup(&cfg, &e.path, 0)
            };
            match found {
                Some(v) => {
                    let ghost before = r@;
                    r.push((e.key.clone(), copy_value(v)));
                    proof {
                        assert(table_model(r@) =~= table_model(before).push((e.key@, model(*v))));
                    }
                },
                None => {},
            }
            i += 1;
        }
        assert(exports@.take(i as int) =~= exports@);
        r
    }
}

/// Whether a rendered file must be written: its destination is missing
/// (its hash is empty) or holds something else.
pub open spec fn write_needed(compiled_hash: Seq<char>, file_hash: Seq<char>) -> bool {
    file_hash.len() == 0 || file_hash != compiled_hash
}

/// For each rendered template, whether its file is to be written, and
/// whether any is. `compiled[i]` is the hash of what template `i` renders
/// to; `on_disk[i]` the hash of its destination file, empty when missing.
pub fn plan_writes(compiled: &Vec<String>, on_disk: &Vec<String>) -> (r: (Vec<bool>, bool))
    requires
        compiled@.len() == on_disk@.len(),
    ensures
        r.0@.len() == compiled@.len(),
        forall|i: int|
            0 <= i < r.0@.len() ==> #[trigger] r.0@[i] == write_needed(compiled@[i]@, on_disk@[i]@),
        r.1 == exists|i: int| 0 <= i < r.0@.len() && #[trigger] r.0@[i],
{
    let mut writes: Vec<bool> = Vec::new();
    let mut changed = false;
    let mut i: usize = 0;
    while i < compiled.len()
        invariant
            i <= compiled@.len(),
            compiled@.len() == on_disk@.len(),
            writes@.len() == i,
            forall|j: int|
                0 <= j < i ==> #[trigger] writes@[j] == write_needed(compiled@[j]@, on_disk@[j]@),
            changed == exists|j: int| 0 <= j < i && #[trigger] writes@[j],
        decreases compiled@.len() - i,
    {
        let missing = text_eq(on_disk[i].as_str(), "");
        proof {
            reveal_strlit("");
            if on_disk@[i as int]@.len() == 0 {
                assert(on_disk@[i as int]@ =~= ""@);
            }
        }
        let w = missing || !text_eq(on_disk[i].as_str(), compiled[i].as_str());
        let ghost prev = writes@;
        writes.push(w);
        if w {
            changed = true;
        }
        proof {
            assert(writes@[i as int] == w);
            assert forall|j: int| 0 <= j < i implies writes@[j] == prev[j] by {}
            if w {
                assert(writes@[i as int]);
            } else if exists|j: int| 0 <= j < i + 1 && #[trigger] writes@[j] {
                let j = choose|j: int| 0 <= j < i + 1 && #[trigger] writes@[j];
                assert(j < i);
                assert(prev[j]);
            }
        }
        i += 1;
    }
    (writes, changed)
}

/// Rendering that reproduces every file as it is on disk writes nothing and
/// reports no change.
pub proof fn lemma_unchanged_render_writes_nothing(compiled: Seq<Seq<char>>, on_disk: Seq<Seq<char>>)
    requires
        compiled.len() == on_disk.len(),
        forall|i: int| 0 <= i < compiled.len() ==> #[trigger] on_disk[i] == compiled[i] && on_disk[i].len() > 0,
    ensures
        forall|i: int| 0 <= i < compiled.len() ==> !write_needed(#[trigger] compiled[i], on_disk[i]),
        !exists|i: int| 0 <= i < compiled.len() && write_needed(#[trigger] compiled[i], on_disk[i]),
{
}

} // verus!
