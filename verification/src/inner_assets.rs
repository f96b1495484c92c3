//! Named references to inner assets.
//!
//! Modules can use an [`InnerAssets`] table to alias some requests to
//! already-created module assets.  The alias name is usually written in
//! UPPER_CASE to make clear that it names an inner asset.  The table keeps
//! its entries in insertion order, with unique keys, and that order is
//! observable downstream, so callers may use the entry sequence as stable
//! cache-key material.
//!
//! The table is backed by `indexmap::IndexMap`; the handful of map
//! operations the table needs are taken on trust from that crate's
//! documented behaviour.

use vstd::prelude::*;

use crate::handles::ModuleHandle;

verus! {

#[verifier::external_type_specification]
#[verifier::external_body]
#[verifier::reject_recursive_types(K)]
#[verifier::reject_recursive_types(V)]
#[verifier::reject_recursive_types(S)]
pub struct ExIndexMap<K, V, S>(indexmap::IndexMap<K, V, S>);

/// The entries a map holds, in insertion order: for each entry the key's
/// characters and the stored value.
pub uninterp spec fn inner_asset_entries(m: indexmap::IndexMap<String, u64>) -> Seq<(Seq<char>, u64)>;

/// Whether some entry of `e` has the key `k`.
pub open spec fn entries_has_key(e: Seq<(Seq<char>, u64)>, k: Seq<char>) -> bool {
    exists|i: int| 0 <= i < e.len() && e[i].0 == k
}

/// Whether no two entries of `e` share a key.
pub open spec fn entries_keys_unique(e: Seq<(Seq<char>, u64)>) -> bool {
    forall|i: int, j: int| 0 <= i < j < e.len() ==> e[i].0 != e[j].0
}

/// Relies on `indexmap::IndexMap::new`: creates an empty map.
#[verifier::external_body]
fn index_map_new() -> (m: indexmap::IndexMap<String, u64>)
    ensures
        inner_asset_entries(m) == Seq::<(Seq<char>, u64)>::empty(),
{
    indexmap::IndexMap::new()
}

/// Relies on `indexmap::IndexMap::len`: the number of key-value pairs in
/// the map.
#[verifier::external_body]
fn index_map_len(m: &indexmap::IndexMap<String, u64>) -> (n: usize)
    ensures
        n == inner_asset_entries(*m).len(),
{
    m.len()
}

/// Relies on `indexmap::IndexMap::insert`: if an equivalent key already
/// exists, that key keeps its place in the order, only its value is
/// updated, and the older value is returned; otherwise the new pair is
/// inserted last in order and `None` is returned.
#[verifier::external_body]
fn index_map_insert(m: &mut indexmap::IndexMap<String, u64>, key: String, value: u64) -> (prev:
    Option<u64>)
    ensures
        ({
            let before = inner_asset_entries(*old(m));
            let after = inner_asset_entries(*final(m));
            match prev {
                None => !entries_has_key(before, key@) && after == before.push((key@, value)),
                Some(p) => {
                    &&& entries_has_key(before, key@)
                    &&& after.len() == before.len()
                    &&& exists|i: int|
                        0 <= i < before.len() && before[i].0 == key@ && p == before[i].1
                    &&& forall|i: int|
                        0 <= i < before.len() && before[i].0 != key@ ==> after[i] == before[i]
                    &&& forall|i: int|
                        0 <= i < before.len() && before[i].0 == key@ ==> after[i] == (key@, value)
                },
            }
        }),
{
    m.insert(key, value)
}

/// Relies on `indexmap::IndexMap::get`: returns the stored value for
/// `key` if an equivalent key is present, else `None`.
#[verifier::external_body]
fn index_map_get(m: &indexmap::IndexMap<String, u64>, key: &String) -> (r: Option<u64>)
    ensures
        ({
            let e = inner_asset_entries(*m);
            match r {
                None => !entries_has_key(e, key@),
                Some(v) => exists|i: int| 0 <= i < e.len() && e[i] == (key@, v),
            }
        }),
{
    m.get(key).copied()
}

/// Relies on `indexmap::IndexMap::get_index`: the key-value pair at a
/// position of the insertion order, `None` past the end.
#[verifier::external_body]
fn index_map_get_index(m: &indexmap::IndexMap<String, u64>, index: usize) -> (r: Option<
    (String, u64),
>)
    ensures
        ({
            let e = inner_asset_entries(*m);
            match r {
                None => index >= e.len(),
                Some(kv) => index < e.len() && kv.0@ == e[index as int].0 && kv.1 == e[
                    index as int
                ].1,
            }
        }),
{
    m.get_index(index).map(|kv: (&String, &u64)| (kv.0.clone(), *kv.1))
}

/// An insertion-ordered table from alias name to an already-resolved
/// module, with unique keys.
pub struct InnerAssets {
    map: indexmap::IndexMap<String, u64>,
}

impl View for InnerAssets {
    type V = Seq<(Seq<char>, u64)>;

    /// The entries in insertion order: alias characters paired with the
    /// module handle's id.
    closed spec fn view(&self) -> Seq<(Seq<char>, u64)> {
        inner_asset_entries(self.map)
    }
}

impl InnerAssets {
    /// No two entries share an alias name.
    pub open spec fn wf(self) -> bool {
        entries_keys_unique(self@)
    }

    /// An empty table.  Independent calls give content-equal tables.
    pub fn empty() -> (r: InnerAssets)
        ensures
            r@ == Seq::<(Seq<char>, u64)>::empty(),
            r.wf(),
    {
        InnerAssets { map: index_map_new() }
    }

    /// The number of entries.
    pub fn len(&self) -> (n: usize)
        ensures
            n == self@.len(),
    {
        index_map_len(&self.map)
    }

    /// Binds `name` to `module`.  A new name is appended at the end of the
    /// order; an existing name keeps its place, its module is replaced and
    /// the previous one is returned.
    pub fn insert(&mut self, name: String, module: ModuleHandle) -> (prev: Option<ModuleHandle>)
        requires
            old(self).wf(),
        ensures
            final(self).wf(),
            !entries_has_key(old(self)@, name@) ==> prev is None && final(self)@ == old(self)@.push(
                (name@, module.id),
            ),
            entries_has_key(old(self)@, name@) ==> {
                &&& final(self)@.len() == old(self)@.len()
                &&& forall|i: int|
                    0 <= i < old(self)@.len() && old(self)@[i].0 != name@ ==> final(self)@[i] == old(
                        self,
                    )@[i]
                &&& forall|i: int|
                    0 <= i < old(self)@.len() && old(self)@[i].0 == name@ ==> final(self)@[i] == (
                    name@,
                    module.id,
                    )
                &&& prev matches Some(p) && exists|i: int|
                    0 <= i < old(self)@.len() && old(self)@[i] == (name@, p.id)
            },
    {
        let ghost before = self@;
        let prev = index_map_insert(&mut self.map, name, module.id);
        proof {
            let after = self@;
            if entries_has_key(before, name@) {
                assert(entries_keys_unique(after)) by {
                    assert forall|i: int, j: int| 0 <= i < j < after.len() implies after[i].0
                        != after[j].0 by {
                        assert(after[i].0 == before[i].0);
                        assert(after[j].0 == before[j].0);
                    }
                }
            } else {
                assert(entries_keys_unique(after)) by {
                    assert forall|i: int, j: int| 0 <= i < j < after.len() implies after[i].0
                        != after[j].0 by {
                        if j < before.len() {
                            assert(after[i] == before[i] && after[j] == before[j]);
                        } else {
                            assert(after[i] == before[i] && after[j] == (name@, module.id));
                            assert(!entries_has_key(before, name@));
                            assert(before[i].0 != name@);
                        }
                    }
                }
            }
        }
        match prev {
            Some(p) => Some(ModuleHandle { id: p }),
            None => None,
        }
    }

    /// The module bound to `name`, if any.
    pub fn get(&self, name: &String) -> (r: Option<ModuleHandle>)
        ensures
            match r {
                None => !entries_has_key(self@, name@),
                Some(h) => exists|i: int| 0 <= i < self@.len() && self@[i] == (name@, h.id),
            },
    {
        let r = index_map_get(&self.map, name);
        match r {
            Some(v) => {
                proof {
                    let i = choose|i: int| 0 <= i < self@.len() && self@[i] == (name@, v);
                    assert(0 <= i < self@.len() && self@[i] == (name@, v));
                }
                Some(ModuleHandle { id: v })
            },
            None => None,
        }
    }

    /// The entry at a position of the insertion order, `None` past the end.
    pub fn get_index(&self, index: usize) -> (r: Option<(String, ModuleHandle)>)
        ensures
            match r {
                None => index >= self@.len(),
                Some(kv) => index < self@.len() && kv.0@ == self@[index as int].0 && kv.1.id
                    == self@[index as int].1,
            },
    {
        match index_map_get_index(&self.map, index) {
            Some(kv) => Some((kv.0, ModuleHandle { id: kv.1 })),
            None => None,
        }
    }

    /// Whether two tables hold the same entries in the same order.
    pub fn content_eq(&self, other: &InnerAssets) -> (r: bool)
        ensures
            r <==> self@ =~= other@,
    {
        let n = self.len();
        if n != other.len() {
            return false;
        }
        let mut i: usize = 0;
        while i < n
            invariant
                n == self@.len(),
                n == other@.len(),
                i <= n,
                forall|j: int| 0 <= j < i ==> self@[j] == other@[j],
            decreases n - i,
        {
            let a = match self.get_index(i) {
                Some(kv) => kv,
                None => {
                    return false;
                },
            };
            let b = match other.get_index(i) {
                Some(kv) => kv,
                None => {
                    return false;
                },
            };
            if !(a.0 == b.0) || a.1.id != b.1.id {
                proof {
                    assert(self@[i as int] != other@[i as int]);
                }
                return false;
            }
            proof {
                assert(self@[i as int].0 == other@[i as int].0);
                assert(self@[i as int].1 == other@[i as int].1);
                assert(self@[i as int] == other@[i as int]);
            }
            i += 1;
        }
        true
    }
}

} // verus!
