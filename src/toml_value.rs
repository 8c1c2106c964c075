//! Configuration values: the tables, arrays and scalars of a TOML document,
//! and the layered merge of one table into another.
use vstd::prelude::*;
use crate::text::text_eq;

verus! {

/// How deep the merge descends into nested tables before it gives up.
pub const TOML_MAX_MERGE_DEPTH: u16 = 30;

/// A configuration value.
#[derive(Debug, PartialEq)]
pub enum TomlValue {
    Text(String),
    Integer(i64),
    Boolean(bool),
    /// A scalar the library does not interpret (a float or a date), kept
    /// as its TOML text.
    Raw(String),
    Array(Vec<TomlValue>),
    Table(Vec<(String, TomlValue)>),
}

/// The mathematical content of a configuration value.
pub enum TomlModel {
    Text(Seq<char>),
    Integer(i64),
    Boolean(bool),
    Raw(Seq<char>),
    Array(Seq<TomlModel>),
    Table(Seq<(Seq<char>, TomlModel)>),
}

/// A table's content: its keys, in stored order, with their values.
pub type TableModel = Seq<(Seq<char>, TomlModel)>;

/// The content of a value.
pub open spec fn model(v: TomlValue) -> TomlModel
    decreases v,
{
    match v {
        TomlValue::Text(s) => TomlModel::Text(s@),
        TomlValue::Integer(i) => TomlModel::Integer(i),
        TomlValue::Boolean(b) => TomlModel::Boolean(b),
        TomlValue::Raw(s) => TomlModel::Raw(s@),
        TomlValue::Array(a) => TomlModel::Array(
            Seq::new(
                a@.len(),
                |i: int|
                    if 0 <= i < a@.len() {
                        model(a@[i])
                    } else {
                        TomlModel::Boolean(false)
                    },
            ),
        ),
        TomlValue::Table(t) => TomlModel::Table(
            Seq::new(
                t@.len(),
                |i: int|
                    if 0 <= i < t@.len() {
                        (t@[i].0@, model(t@[i].1))
                    } else {
                        (Seq::empty(), TomlModel::Boolean(false))
                    },
            ),
        ),
    }
}

/// The content of a table held as a list of entries.
pub open spec fn table_model(t: Seq<(String, TomlValue)>) -> TableModel {
    Seq::new(t.len(), |i: int| (t[i].0@, model(t[i].1)))
}

/// Whether `i` is the first position of key `k` in `t`.
pub open spec fn first_key_at(t: TableModel, k: Seq<char>, i: int) -> bool {
    &&& 0 <= i < t.len()
    &&& t[i].0 == k
    &&& forall|j: int| 0 <= j < i ==> (#[trigger] t[j]).0 != k
}

/// The first position of key `k` in `t`, or -1 when it is absent.
pub open spec fn find_key(t: TableModel, k: Seq<char>) -> int {
    if exists|i: int| first_key_at(t, k, i) {
        choose|i: int| first_key_at(t, k, i)
    } else {
        -1
    }
}

pub proof fn lemma_find_key(t: TableModel, k: Seq<char>, i: int)
    requires
        first_key_at(t, k, i),
    ensures
        find_key(t, k) == i,
{
    let j = choose|j: int| first_key_at(t, k, j);
    if j < i {
        assert(t[j].0 != k);
    } else if i < j {
        assert(t[i].0 != k);
    }
}

/// Sets key `k` of `t` to `v`: in place where the key is present, at the
/// end otherwise.
pub open spec fn table_set(t: TableModel, k: Seq<char>, v: TomlModel) -> TableModel {
    let i = find_key(t, k);
    if i >= 0 {
        t.update(i, (k, v))
    } else {
        t.push((k, v))
    }
}

/// The merge of `src` into `dest` at nesting `depth`: each entry of `src`,
/// in order, is merged into a table of `dest` under the same key where both
/// are tables, and otherwise overwrites or adds the key. Descending past the
/// maximum depth fails.
pub open spec fn merge_model(dest: TableModel, src: TableModel, depth: nat) -> Option<TableModel>
    decreases src,
{
    if depth > TOML_MAX_MERGE_DEPTH {
        None
    } else if src.len() == 0 {
        Some(dest)
    } else {
        match merge_model(dest, src.drop_last(), depth) {
            None => None,
            Some(d) => {
                let k = src.last().0;
                let v = src.last().1;
                let i = find_key(d, k);
                if i >= 0 && d[i].1 is Table && v is Table {
                    match merge_model(d[i].1->Table_0, v->Table_0, depth + 1) {
                        None => None,
                        Some(m) => Some(d.update(i, (k, TomlModel::Table(m)))),
                    }
                } else {
                    Some(table_set(d, k, v))
                }
            },
        }
    }
}

/// Why a merge failed.
#[derive(Debug, PartialEq)]
pub enum MergeError {
    /// The merge descended past the maximum depth of nested tables.
    TooDeep,
}

/// A copy of a value.
pub fn copy_value(v: &TomlValue) -> (r: TomlValue)
    ensures
        model(r) == model(*v),
    decreases v,
{
    match v {
        TomlValue::Text(s) => TomlValue::Text(s.clone()),
        TomlValue::Integer(i) => TomlValue::Integer(*i),
        TomlValue::Boolean(b) => TomlValue::Boolean(*b),
        TomlValue::Raw(s) => TomlValue::Raw(s.clone()),
        TomlValue::Array(a) => {
            let mut r: Vec<TomlValue> = Vec::new();
            let mut i: usize = 0;
            while i < a.len()
                invariant
                    *v == TomlValue::Array(*a),
                    i <= a@.len(),
                    r@.len() == i,
                    forall|j: int| 0 <= j < i ==> model(#[trigger] r@[j]) == model(a@[j]),
                decreases a@.len() - i,
            {
                proof {
                    assert(*v == TomlValue::Array(*a));
                    assert(decreases_to!(*v => (*v)->Array_0));
                    assert(decreases_to!(*a => a@));
                    assert(decreases_to!(a@ => a@[i as int]));
                    assert(decreases_to!(*v => a@[i as int]));
                }
                r.push(copy_value(&a[i]));
                i += 1;
            }
            let out = TomlValue::Array(r);
            proof {
                assert(model(out)->Array_0 =~= model(*v)->Array_0);
            }
            out
        },
        TomlValue::Table(t) => {
            let out = TomlValue::Table(copy_entries(t, v));
            out
        },
    }
}

/// A copy of the entries of table `t`, which is held in `whole`.
fn copy_entries(t: &Vec<(String, TomlValue)>, whole: &TomlValue) -> (r: Vec<(String, TomlValue)>)
    requires
        *whole == TomlValue::Table(*t),
    ensures
        table_model(r@) == table_model(t@),
        model(TomlValue::Table(r)) == model(*whole),
    decreases whole, 0nat,
{
    let mut r: Vec<(String, TomlValue)> = Vec::new();
    let mut i: usize = 0;
    while i < t.len()
        invariant
            i <= t@.len(),
            *whole == TomlValue::Table(*t),
            r@.len() == i,
            forall|j: int|
                0 <= j < i ==> (#[trigger] r@[j]).0@ == t@[j].0@ && model(r@[j].1) == model(
                    t@[j].1,
                ),
        decreases t@.len() - i,
    {
        proof {
            assert(decreases_to!(*whole => (*whole)->Table_0));
            assert(decreases_to!(*t => t@));
            assert(decreases_to!(t@ => t@[i as int]));
            assert(decreases_to!(t@[i as int] => t@[i as int].1));
            assert(decreases_to!(*whole => t@[i as int].1));
        }
        let e = (t[i].0.clone(), copy_value(&t[i].1));
        r.push(e);
        i += 1;
    }
    proof {
        assert(model(TomlValue::Table(r))->Table_0 =~= model(*whole)->Table_0);
        assert(table_model(r@) =~= table_model(t@));
    }
    r
}

/// A table value's content is its entries' content.
pub proof fn lemma_model_table(t: Vec<(String, TomlValue)>)
    ensures
        model(TomlValue::Table(t)) == TomlModel::Table(table_model(t@)),
{
    assert(model(TomlValue::Table(t))->Table_0 =~= table_model(t@));
}

/// Only a table value has a table content.
pub proof fn lemma_model_is_table(x: TomlValue)
    ensures
        (model(x) is Table) == (x is Table),
{
}

/// Once a prefix of `src` fails to merge, all of it does.
pub proof fn lemma_merge_prefix_fails(dest: TableModel, src: TableModel, n: int, depth: nat)
    requires
        0 <= n <= src.len(),
        merge_model(dest, src.take(n), depth) is None,
    ensures
        merge_model(dest, src, depth) is None,
    decreases src.len() - n,
{
    if n < src.len() {
        assert(src.take(n + 1).drop_last() =~= src.take(n));
        lemma_merge_prefix_fails(dest, src, n + 1, depth);
    } else {
        assert(src.take(n) =~= src);
    }
}

/// A copy of a table's entries.
pub fn copy_table(t: &Vec<(String, TomlValue)>) -> (r: Vec<(String, TomlValue)>)
    ensures
        table_model(r@) == table_model(t@),
{
    let mut r: Vec<(String, TomlValue)> = Vec::new();
    let mut i: usize = 0;
    while i < t.len()
        invariant
            i <= t@.len(),
            r@.len() == i,
            forall|j: int|
                0 <= j < i ==> (#[trigger] r@[j]).0@ == t@[j].0@ && model(r@[j].1) == model(
                    t@[j].1,
                ),
        decreases t@.len() - i,
    {
        r.push((t[i].0.clone(), copy_value(&t[i].1)));
        i += 1;
    }
    assert(table_model(r@) =~= table_model(t@));
    r
}

/// The first position of key `k` among the entries of `t`.
pub fn find_entry(t: &Vec<(String, TomlValue)>, k: &str) -> (r: Option<usize>)
    ensures
        match r {
            Some(i) => i < t@.len() && find_key(table_model(t@), k@) == i,
            None => find_key(table_model(t@), k@) == -1,
        },
{
    let ghost tm = table_model(t@);
    let mut i: usize = 0;
    while i < t.len()
        invariant
            i <= t@.len(),
            tm == table_model(t@),
            forall|j: int| 0 <= j < i ==> (#[trigger] t@[j]).0@ != k@,
        decreases t@.len() - i,
    {
        if text_eq(t[i].0.as_str(), k) {
            proof {
                assert forall|j: int| 0 <= j < i implies (#[trigger] tm[j]).0 != k@ by {
                    assert(t@[j].0@ != k@);
                }
                lemma_find_key(tm, k@, i as int);
            }
            return Some(i);
        }
        i += 1;
    }
    proof {
        assert forall|j: int| !first_key_at(tm, k@, j) by {
            if 0 <= j < tm.len() {
                assert(t@[j].0@ != k@);
            }
        }
    }
    None
}

/// Merges table `other` into a copy of table `me`, at nesting `depth`:
/// where both hold a table under one key the two are merged one level
/// deeper, otherwise the value of `other` overwrites or adds the key.
/// Fails when the merge would descend past the maximum depth.
pub fn merge_tables(
    me: &Vec<(String, TomlValue)>,
    other: &Vec<(String, TomlValue)>,
    depth: u16,
) -> (r: Result<Vec<(String, TomlValue)>, MergeError>)
    ensures
        match r {
            Ok(t) => merge_model(table_model(me@), table_model(other@), depth as nat) == Some(
                table_model(t@),
            ),
            Err(_) => merge_model(table_model(me@), table_model(other@), depth as nat) is None,
        },
    decreases other,
{
    let ghost mm = table_model(me@);
    let ghost mo = table_model(other@);
    if depth > TOML_MAX_MERGE_DEPTH {
        return Err(MergeError::TooDeep);
    }
    let mut d = copy_table(me);
    let mut i: usize = 0;
    assert(mo.take(0) =~= Seq::<(Seq<char>, TomlModel)>::empty());
    while i < other.len()
        invariant
            i <= other@.len(),
            depth <= TOML_MAX_MERGE_DEPTH,
            mm == table_model(me@),
            mo == table_model(other@),
            merge_model(mm, mo.take(i as int), depth as nat) == Some(table_model(d@)),
        decreases other@.len() - i,
    {
        let ghost dm = table_model(d@);
        proof {
            assert(mo.take(i as int + 1).drop_last() =~= mo.take(i as int));
            assert(mo.take(i as int + 1).last() == mo[i as int]);
        }
        let k = &other[i].0;
        let v = &other[i].1;
        let found = find_entry(&d, k.as_str());
        proof {
            assert(mo[i as int] == (k@, model(*v)));
            lemma_model_is_table(*v);
        }
        match found {
            Some(j) => {
                proof {
                    assert(dm[j as int] == (d@[j as int].0@, model(d@[j as int].1)));
                    lemma_model_is_table(d@[j as int].1);
                }
                let merged: Option<Result<Vec<(String, TomlValue)>, MergeError>> = match &d[j].1 {
                    TomlValue::Table(dt) => match v {
                        TomlValue::Table(vt) => {
                            proof {
                                lemma_model_table(*dt);
                                lemma_model_table(*vt);
                                assert(decreases_to!(*other => other@));
                                assert(decreases_to!(other@ => other@[i as int]));
                                assert(decreases_to!(other@[i as int] => other@[i as int].1));
                                assert(decreases_to!(other@[i as int].1 => (other@[i as int].1)->Table_0));
                            }
                            Some(merge_tables(dt, vt, depth + 1))
                        },
                        _ => None,
                    },
                    _ => None,
                };
                match merged {
                    Some(Ok(m)) => {
                        proof {
                            lemma_model_table(m);
                        }
                        d.set(j, (k.clone(), TomlValue::Table(m)));
                        proof {
                            assert(table_model(d@) =~= dm.update(
                                j as int,
                                (k@, TomlModel::Table(table_model(m@))),
                            ));
                        }
                    },
                    Some(Err(e)) => {
                        proof {
                            lemma_merge_prefix_fails(mm, mo, i as int + 1, depth as nat);
                        }
                        return Err(e);
                    },
                    None => {
                        let c = copy_value(v);
                        d.set(j, (k.clone(), c));
                        proof {
                            assert(table_model(d@) =~= dm.update(j as int, (k@, model(*v))));
                        }
                    },
                }
            },
            None => {
                let c = copy_value(v);
                d.push((k.clone(), c));
                proof {
                    assert(table_model(d@) =~= dm.push((k@, model(*v))));
                }
            },
        }
        i += 1;
    }
    assert(mo.take(i as int) =~= mo);
    Ok(d)
}

/// Merges table `other` into table `me`. On success `me` holds the merge;
/// on failure it is left as it was.
pub fn toml_merge(me: &mut Vec<(String, TomlValue)>, other: &Vec<(String, TomlValue)>) -> (r: Result<(), MergeError>)
    ensures
        match merge_model(table_model(old(me)@), table_model(other@), 0) {
            Some(m) => r is Ok && table_model(final(me)@) == m,
            None => r is Err && final(me)@ == old(me)@,
        },
{
    match merge_tables(me, other, 0) {
        Ok(t) => {
            *me = t;
            Ok(())
        },
        Err(e) => Err(e),
    }
}

/// Whether a value is neither an array nor a table.
pub open spec fn is_scalar(v: TomlModel) -> bool {
    !(v is Array) && !(v is Table)
}

/// Selects the scalar entries (kind 0), the arrays (kind 1) or the tables
/// (any other kind).
pub open spec fn of_kind(kind: u8) -> spec_fn((Seq<char>, TomlModel)) -> bool {
    |e: (Seq<char>, TomlModel)|
        if kind == 0 {
            is_scalar(e.1)
        } else if kind == 1 {
            e.1 is Array
        } else {
            e.1 is Table
        }
}

/// The order in which a table is written out: its scalar entries, then its
/// arrays, then its tables, each in stored order.
pub open spec fn output_order(t: TableModel) -> TableModel {
    t.filter(of_kind(0)) + t.filter(of_kind(1)) + t.filter(of_kind(2))
}

/// Copies of the entries of `t` of the given kind, in order.
fn entries_where(t: &Vec<(String, TomlValue)>, kind: u8) -> (r: Vec<(String, TomlValue)>)
    requires
        kind < 3,
    ensures
        table_model(r@) == table_model(t@).filter(of_kind(kind)),
{
    let ghost tm = table_model(t@);
    let mut r: Vec<(String, TomlValue)> = Vec::new();
    let mut i: usize = 0;
    while i < t.len()
        invariant
            i <= t@.len(),
            tm == table_model(t@),
            table_model(r@) == tm.take(i as int).filter(of_kind(kind)),
        decreases t@.len() - i,
    {
        proof {
            assert(tm.take(i as int + 1) =~= tm.take(i as int).push(tm[i as int]));
            tm.take(i as int).lemma_filter_push(tm[i as int], of_kind(kind));
            lemma_model_is_table(t@[i as int].1);
        }
        let v = &t[i].1;
        let is_array = match v {
            TomlValue::Array(_) => true,
            _ => false,
        };
        let is_table = match v {
            TomlValue::Table(_) => true,
            _ => false,
        };
        let keep = if kind == 0 {
            !is_array && !is_table
        } else if kind == 1 {
            is_array
        } else {
            is_table
        };
        let ghost before = r@;
        if keep {
            r.push((t[i].0.clone(), copy_value(v)));
            proof {
                assert(table_model(r@) =~= table_model(before).push(tm[i as int]));
            }
        }
        i += 1;
    }
    assert(tm.take(i as int) =~= tm);
    r
}

/// The entries of a table in the order they are written out: scalars,
/// then arrays, then tables.
pub fn ordered_for_output(t: &Vec<(String, TomlValue)>) -> (r: Vec<(String, TomlValue)>)
    ensures
        table_model(r@) == output_order(table_model(t@)),
{
    let mut r = entries_where(t, 0);
    let mut arrays = entries_where(t, 1);
    let mut tables = entries_where(t, 2);
    let ghost (a, b, c) = (r@, arrays@, tables@);
    r.append(&mut arrays);
    r.append(&mut tables);
    proof {
        assert(table_model(r@) =~= table_model(a) + table_model(b) + table_model(c));
    }
    r
}

} // verus!
