//! Laws of the configuration merge.
use vstd::prelude::*;
use crate::toml_value::{
    TOML_MAX_MERGE_DEPTH, TableModel, TomlModel, find_key, first_key_at, lemma_find_key,
    merge_model, table_set,
};

verus! {

/// Whether no two entries of a table share a key.
pub open spec fn keys_unique(t: TableModel) -> bool {
    forall|i: int, j: int|
        0 <= i < t.len() && 0 <= j < t.len() && i != j ==> (#[trigger] t[i]).0 != (#[trigger] t[j]).0
}

/// Whether no two entries share a key, in the table and in every table
/// nested in it: what a table read from a document satisfies.
pub open spec fn unique_deep(t: TableModel) -> bool
    decreases t,
{
    &&& keys_unique(t)
    &&& forall|i: int|
        0 <= i < t.len() && (#[trigger] t[i]).1 is Table ==> unique_deep(t[i].1->Table_0)
}

/// Whether the tables nested in `t`, which sits at nesting `depth`, stay
/// within the merge's maximum depth.
pub open spec fn nests_within(t: TableModel, depth: nat) -> bool
    decreases t,
{
    &&& depth <= TOML_MAX_MERGE_DEPTH
    &&& forall|i: int|
        0 <= i < t.len() && (#[trigger] t[i]).1 is Table ==> nests_within(
            t[i].1->Table_0,
            depth + 1,
        )
}

/// How the result `m` of merging something into `a` relates to `a`: it
/// starts with `a`'s keys in `a`'s order, its keys are unique, and where
/// both hold a table under a key, the two tables are related one level down.
pub open spec fn related(a: TableModel, m: TableModel, depth: nat) -> bool
    decreases a,
{
    &&& depth <= TOML_MAX_MERGE_DEPTH
    &&& keys_unique(m)
    &&& a.len() <= m.len()
    &&& forall|i: int| 0 <= i < a.len() ==> (#[trigger] m[i]).0 == a[i].0
    &&& forall|i: int|
        0 <= i < a.len() && (#[trigger] a[i]).1 is Table && m[i].1 is Table ==> related(
            a[i].1->Table_0,
            m[i].1->Table_0,
            depth + 1,
        )
}

proof fn lemma_find_unique(t: TableModel, k: Seq<char>, i: int)
    requires
        keys_unique(t),
        0 <= i < t.len(),
        t[i].0 == k,
    ensures
        find_key(t, k) == i,
{
    assert forall|j: int| 0 <= j < i implies (#[trigger] t[j]).0 != k by {
        assert(t[j].0 != t[i].0);
    }
    assert(first_key_at(t, k, i));
    lemma_find_key(t, k, i);
}

proof fn lemma_find_absent(t: TableModel, k: Seq<char>)
    requires
        forall|i: int| 0 <= i < t.len() ==> (#[trigger] t[i]).0 != k,
    ensures
        find_key(t, k) == -1,
{
    assert forall|i: int| !first_key_at(t, k, i) by {
        if 0 <= i < t.len() {
            assert(t[i].0 != k);
        }
    }
}

proof fn lemma_find_found(t: TableModel, k: Seq<char>)
    requires
        find_key(t, k) >= 0,
    ensures
        0 <= find_key(t, k) < t.len(),
        t[find_key(t, k)].0 == k,
{
    if exists|i: int| first_key_at(t, k, i) {
        let i = choose|i: int| first_key_at(t, k, i);
        assert(first_key_at(t, k, i));
    }
}

/// The table merged so far when `m` is merged into `a` entry by entry:
/// `m`'s first `j` entries, then the rest of `a`.
pub open spec fn partial(a: TableModel, m: TableModel, j: int) -> TableModel {
    if j <= a.len() {
        m.take(j) + a.skip(j)
    } else {
        m.take(j)
    }
}

/// Merging into `a` a table related to it gives that table back.
proof fn lemma_merge_related_prefix(a: TableModel, m: TableModel, depth: nat, j: int)
    requires
        related(a, m, depth),
        unique_deep(a),
        0 <= j <= m.len(),
    ensures
        merge_model(a, m.take(j), depth) == Some(partial(a, m, j)),
    decreases m, j,
{
    if j == 0 {
        assert(m.take(0) =~= Seq::<(Seq<char>, TomlModel)>::empty());
        assert(partial(a, m, 0) =~= a);
    } else {
        lemma_merge_related_prefix(a, m, depth, j - 1);
        let prev = partial(a, m, j - 1);
        assert(m.take(j).drop_last() =~= m.take(j - 1));
        assert(m.take(j).last() == m[j - 1]);
        let k = m[j - 1].0;
        let v = m[j - 1].1;
        if j - 1 < a.len() {
            assert forall|x: int| 0 <= x < prev.len() implies (#[trigger] prev[x]).0 == a[x].0 by {
                if x < j - 1 {
                    assert(prev[x] == m[x]);
                } else {
                    assert(prev[x] == a[x]);
                }
            }
            assert(prev.len() == a.len());
            assert(keys_unique(prev)) by {
                assert forall|x: int, y: int|
                    0 <= x < prev.len() && 0 <= y < prev.len() && x != y implies (
                    #[trigger] prev[x]).0 != (#[trigger] prev[y]).0 by {
                    assert(a[x].0 != a[y].0);
                }
            }
            assert(prev[j - 1] == a[j - 1]);
            lemma_find_unique(prev, k, j - 1);
            if a[j - 1].1 is Table && v is Table {
                let at = a[j - 1].1->Table_0;
                let vt = v->Table_0;
                assert(related(at, vt, depth + 1));
                assert(unique_deep(at));
                assert(decreases_to!(m => m[j - 1]));
                assert(decreases_to!(m[j - 1] => m[j - 1].1));
                assert(decreases_to!(m[j - 1].1 => vt));
                lemma_merge_related_prefix(at, vt, depth + 1, vt.len() as int);
                assert(vt.take(vt.len() as int) =~= vt);
                assert(partial(at, vt, vt.len() as int) =~= vt) by {
                    assert(at.len() <= vt.len());
                    if at.len() == vt.len() {
                        assert(vt.take(vt.len() as int) + at.skip(vt.len() as int) =~= vt);
                    }
                }
                assert(prev.update(j - 1, (k, TomlModel::Table(vt))) =~= partial(a, m, j));
            } else {
                assert(prev.update(j - 1, (k, v)) =~= partial(a, m, j));
            }
        } else {
            assert(prev =~= m.take(j - 1));
            assert forall|x: int| 0 <= x < prev.len() implies (#[trigger] prev[x]).0 != k by {
                assert(prev[x] == m[x]);
            }
            lemma_find_absent(prev, k);
            assert(prev.push((k, v)) =~= partial(a, m, j));
        }
    }
}

/// The state of merging `b` into `a` after `b`'s first `j` entries.
pub open spec fn merge_progress(a: TableModel, acc: TableModel, b: TableModel, j: int, depth: nat) -> bool {
    &&& depth <= TOML_MAX_MERGE_DEPTH
    &&& keys_unique(acc)
    &&& a.len() <= acc.len()
    &&& forall|i: int| 0 <= i < a.len() ==> (#[trigger] acc[i]).0 == a[i].0
    &&& forall|i: int|
        0 <= i < a.len() && (#[trigger] a[i]).1 is Table && acc[i].1 is Table ==> related(
            a[i].1->Table_0,
            acc[i].1->Table_0,
            depth + 1,
        )
    &&& forall|i: int|
        0 <= i < a.len() && (forall|x: int| 0 <= x < j ==> (#[trigger] b[x]).0 != a[i].0) ==> (
        #[trigger] acc[i]) == a[i]
}

/// A table whose nesting fits is related to itself.
proof fn lemma_related_refl(t: TableModel, depth: nat)
    requires
        unique_deep(t),
        nests_within(t, depth),
    ensures
        related(t, t, depth),
    decreases t,
{
    assert forall|i: int| 0 <= i < t.len() && (#[trigger] t[i]).1 is Table && t[i].1 is Table implies related(
        t[i].1->Table_0,
        t[i].1->Table_0,
        depth + 1,
    ) by {
        assert(decreases_to!(t => t[i]));
        assert(decreases_to!(t[i] => t[i].1));
        assert(decreases_to!(t[i].1 => t[i].1->Table_0));
        lemma_related_refl(t[i].1->Table_0, depth + 1);
    }
}

/// Merging `b` into `a` gives a table related to `a`.
proof fn lemma_merge_relates_prefix(a: TableModel, b: TableModel, depth: nat, j: int)
    requires
        unique_deep(a),
        unique_deep(b),
        nests_within(a, depth),
        0 <= j <= b.len(),
        merge_model(a, b.take(j), depth) is Some,
    ensures
        merge_progress(a, merge_model(a, b.take(j), depth)->0, b, j, depth),
    decreases b, j,
{
    if j == 0 {
        assert(b.take(0) =~= Seq::<(Seq<char>, TomlModel)>::empty());
        lemma_related_refl(a, depth);
    } else {
        assert(b.take(j).drop_last() =~= b.take(j - 1));
        assert(b.take(j).last() == b[j - 1]);
        lemma_merge_relates_prefix(a, b, depth, j - 1);
        let acc = merge_model(a, b.take(j - 1), depth)->0;
        let k = b[j - 1].0;
        let v = b[j - 1].1;
        let i = find_key(acc, k);
        let next = merge_model(a, b.take(j), depth)->0;
        assert forall|x: int| 0 <= x < j - 1 implies (#[trigger] b[x]).0 != k by {
            assert(b[x].0 != b[j - 1].0);
        }
        if i >= 0 {
            lemma_find_found(acc, k);
            if i < a.len() {
                assert(a[i].0 == k);
                assert(acc[i] == a[i]);
            }
            if acc[i].1 is Table && v is Table {
                let m = merge_model(acc[i].1->Table_0, v->Table_0, depth + 1)->0;
                assert(next == acc.update(i, (k, TomlModel::Table(m))));
                if i < a.len() {
                    let at = a[i].1->Table_0;
                    let vt = v->Table_0;
                    assert(unique_deep(at));
                    assert(unique_deep(vt));
                    assert(nests_within(at, depth + 1));
                    assert(decreases_to!(b => b[j - 1]));
                    assert(decreases_to!(b[j - 1] => b[j - 1].1));
                    assert(decreases_to!(b[j - 1].1 => vt));
                    assert(vt.take(vt.len() as int) =~= vt);
                    lemma_merge_relates_prefix(at, vt, depth + 1, vt.len() as int);
                    assert(related(at, m, depth + 1));
                }
            } else {
                assert(next == table_set(acc, k, v));
                assert(next == acc.update(i, (k, v)));
            }
            assert(keys_unique(next)) by {
                assert forall|x: int, y: int|
                    0 <= x < next.len() && 0 <= y < next.len() && x != y implies (
                    #[trigger] next[x]).0 != (#[trigger] next[y]).0 by {
                    assert(acc[x].0 != acc[y].0);
                }
            }
            assert forall|x: int|
                0 <= x < a.len() && (forall|y: int| 0 <= y < j ==> (#[trigger] b[y]).0 != a[x].0)
                    implies (#[trigger] next[x]) == a[x] by {
                assert(b[j - 1].0 != a[x].0);
                assert(x != i);
            }
        } else {
            assert(next == table_set(acc, k, v));
            assert(next == acc.push((k, v)));
            assert forall|x: int| 0 <= x < acc.len() implies (#[trigger] acc[x]).0 != k by {
                if acc[x].0 == k {
                    lemma_find_unique(acc, k, x);
                }
            }
            assert(keys_unique(next)) by {
                assert forall|x: int, y: int|
                    0 <= x < next.len() && 0 <= y < next.len() && x != y implies (
                    #[trigger] next[x]).0 != (#[trigger] next[y]).0 by {
                    if x < acc.len() && y < acc.len() {
                        assert(acc[x].0 != acc[y].0);
                    } else if x < acc.len() {
                        assert(acc[x].0 != k);
                    } else {
                        assert(acc[y].0 != k);
                    }
                }
            }
            assert forall|x: int|
                0 <= x < a.len() && (forall|y: int| 0 <= y < j ==> (#[trigger] b[y]).0 != a[x].0)
                    implies (#[trigger] next[x]) == a[x] by {
                assert(b[j - 1].0 != a[x].0);
            }
        }
    }
}

/// Merging the result of a merge back into the same table changes nothing:
/// `merge(a, merge(a, b)) == merge(a, b)`, for tables whose keys are unique
/// at every level, where `a`'s nested tables stay within the maximum merge
/// depth.
pub proof fn lemma_merge_idempotent(a: TableModel, b: TableModel)
    requires
        unique_deep(a),
        unique_deep(b),
        nests_within(a, 0),
        merge_model(a, b, 0) is Some,
    ensures
        merge_model(a, merge_model(a, b, 0)->0, 0) == merge_model(a, b, 0),
{
    let m = merge_model(a, b, 0)->0;
    assert(b.take(b.len() as int) =~= b);
    lemma_merge_relates_prefix(a, b, 0, b.len() as int);
    assert(related(a, m, 0));
    lemma_merge_related_prefix(a, m, 0, m.len() as int);
    assert(m.take(m.len() as int) =~= m);
    assert(partial(a, m, m.len() as int) =~= m) by {
        if a.len() == m.len() {
            assert(m.take(m.len() as int) + a.skip(m.len() as int) =~= m);
        }
    }
}

proof fn lemma_merge_within_cap_prefix(a: TableModel, b: TableModel, depth: nat, j: int)
    requires
        nests_within(a, depth),
        nests_within(b, depth),
        0 <= j <= b.len(),
    ensures
        merge_model(a, b.take(j), depth) is Some,
        nests_within(merge_model(a, b.take(j), depth)->0, depth),
    decreases b, j,
{
    if j == 0 {
        assert(b.take(0) =~= Seq::<(Seq<char>, TomlModel)>::empty());
    } else {
        assert(b.take(j).drop_last() =~= b.take(j - 1));
        assert(b.take(j).last() == b[j - 1]);
        lemma_merge_within_cap_prefix(a, b, depth, j - 1);
        let acc = merge_model(a, b.take(j - 1), depth)->0;
        let k = b[j - 1].0;
        let v = b[j - 1].1;
        let i = find_key(acc, k);
        if v is Table {
            assert(nests_within(v->Table_0, depth + 1));
        }
        if i >= 0 {
            lemma_find_found(acc, k);
            if acc[i].1 is Table && v is Table {
                let at = acc[i].1->Table_0;
                let vt = v->Table_0;
                assert(nests_within(at, depth + 1));
                assert(decreases_to!(b => b[j - 1]));
                assert(decreases_to!(b[j - 1] => b[j - 1].1));
                assert(decreases_to!(b[j - 1].1 => vt));
                assert(vt.take(vt.len() as int) =~= vt);
                lemma_merge_within_cap_prefix(at, vt, depth + 1, vt.len() as int);
                let m = merge_model(at, vt, depth + 1)->0;
                let next = acc.update(i, (k, TomlModel::Table(m)));
                assert(merge_model(a, b.take(j), depth) == Some(next));
                assert forall|x: int| 0 <= x < next.len() && (#[trigger] next[x]).1 is Table implies nests_within(
                    next[x].1->Table_0,
                    depth + 1,
                ) by {
                    if x != i {
                        assert(next[x] == acc[x]);
                    }
                }
            } else {
                let next = acc.update(i, (k, v));
                assert(merge_model(a, b.take(j), depth) == Some(next));
                assert forall|x: int| 0 <= x < next.len() && (#[trigger] next[x]).1 is Table implies nests_within(
                    next[x].1->Table_0,
                    depth + 1,
                ) by {
                    if x != i {
                        assert(next[x] == acc[x]);
                    }
                }
            }
        } else {
            let next = acc.push((k, v));
            assert(merge_model(a, b.take(j), depth) == Some(next));
            assert forall|x: int| 0 <= x < next.len() && (#[trigger] next[x]).1 is Table implies nests_within(
                next[x].1->Table_0,
                depth + 1,
            ) by {
                if x < acc.len() {
                    assert(next[x] == acc[x]);
                }
            }
        }
    }
}

/// The merge keeps within the depth cap: where neither table nests past
/// the maximum depth, the merge succeeds and its result does not nest past
/// it either.
pub proof fn lemma_merge_within_cap(a: TableModel, b: TableModel)
    requires
        nests_within(a, 0),
        nests_within(b, 0),
    ensures
        merge_model(a, b, 0) is Some,
        nests_within(merge_model(a, b, 0)->0, 0),
{
    assert(b.take(b.len() as int) =~= b);
    lemma_merge_within_cap_prefix(a, b, 0, b.len() as int);
}

} // verus!
