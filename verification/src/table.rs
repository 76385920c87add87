//! The insertion-ordered device table, kept in an `indexmap::IndexMap`.
//!
//! Contracts speak of a table through [`entries`], the sequence of its
//! key-value pairs in table order. The functions at the end of this file are
//! the only places where the map itself is touched; their contracts restate
//! the map's documentation and are not proved here.

use crate::device::{Device, DeviceView};
use indexmap::IndexMap;
use vstd::prelude::*;

verus! {

/// The pairs of a table as a sequence.
pub type Entries = Seq<(u64, DeviceView)>;

/// Whether some pair of `s` has the key `key`.
pub open spec fn has_key(s: Entries, key: u64) -> bool {
    exists|i: int| 0 <= i < s.len() && (#[trigger] s[i]).0 == key
}

/// A position at which `key` stands in `s`, if it stands anywhere.
pub open spec fn index_of(s: Entries, key: u64) -> int {
    choose|i: int| 0 <= i < s.len() && (#[trigger] s[i]).0 == key
}

/// The record stored under `key`.
pub open spec fn value_of(s: Entries, key: u64) -> DeviceView {
    s[index_of(s, key)].1
}

/// No key stands at two positions.
pub open spec fn distinct_keys(s: Entries) -> bool {
    forall|i: int, j: int| 0 <= i < j < s.len() ==> (#[trigger] s[i]).0 != (#[trigger] s[j]).0
}

/// `s` after storing `value` under `key`: in place where the key is present,
/// at the end where it is not.
pub open spec fn put(s: Entries, key: u64, value: DeviceView) -> Entries {
    if has_key(s, key) {
        s.update(index_of(s, key), (key, value))
    } else {
        s.push((key, value))
    }
}

/// `s` without the pair of `key`; the pairs behind it move up by one.
pub open spec fn without(s: Entries, key: u64) -> Entries {
    if has_key(s, key) {
        s.remove(index_of(s, key))
    } else {
        s
    }
}

/// `s` with the record of `key` replaced, where the key is present.
pub open spec fn amend(s: Entries, key: u64, value: DeviceView) -> Entries {
    if has_key(s, key) {
        s.update(index_of(s, key), (key, value))
    } else {
        s
    }
}

/// No key of `a` is a key of `b`.
pub open spec fn disjoint_keys(a: Entries, b: Entries) -> bool {
    forall|i: int, j: int|
        0 <= i < a.len() && 0 <= j < b.len() ==> (#[trigger] a[i]).0 != (#[trigger] b[j]).0
}

/// A present key is found at a valid position that holds it.
pub proof fn lemma_index_of(s: Entries, key: u64)
    requires
        has_key(s, key),
    ensures
        0 <= index_of(s, key) < s.len(),
        s[index_of(s, key)].0 == key,
{
}

/// With distinct keys, the position of a key is the only one that holds it.
pub proof fn lemma_index_unique(s: Entries, i: int)
    requires
        distinct_keys(s),
        0 <= i < s.len(),
    ensures
        has_key(s, s[i].0),
        index_of(s, s[i].0) == i,
{
    let key = s[i].0;
    assert(has_key(s, key));
    let j = index_of(s, key);
    if j < i {
        assert(s[j].0 != s[i].0);
    } else if i < j {
        assert(s[i].0 != s[j].0);
    }
}

/// Storing under a key keeps keys distinct, makes the key present with the
/// stored value and leaves every other key as it was.
pub proof fn lemma_put(s: Entries, key: u64, value: DeviceView)
    requires
        distinct_keys(s),
    ensures
        distinct_keys(put(s, key, value)),
        has_key(put(s, key, value), key),
        value_of(put(s, key, value), key) == value,
        forall|other: u64|
            other != key ==> has_key(put(s, key, value), other) == has_key(s, other),
        forall|other: u64|
            other != key && has_key(s, other) ==> value_of(put(s, key, value), other) == value_of(
                s,
                other,
            ),
{
    let t = put(s, key, value);
    let at = if has_key(s, key) { index_of(s, key) } else { s.len() as int };
    assert(0 <= at < t.len() && t[at] == (key, value));
    assert forall|i: int| 0 <= i < t.len() && i != at implies t[i] == s[i] by {}
    assert forall|i: int| 0 <= i < s.len() && i != at implies t[i] == s[i] by {}
    assert forall|i: int, j: int| 0 <= i < j < t.len() implies (#[trigger] t[i]).0 != (
    #[trigger] t[j]).0 by {
        if i != at && j != at {
            assert(s[i].0 != s[j].0);
        } else if has_key(s, key) {
            if i == at {
                assert(s[i].0 != s[j].0);
            } else {
                assert(s[i].0 != s[j].0);
            }
        } else {
            assert(j == at);
            assert(s[i].0 != key);
        }
    }
    assert(has_key(t, key));
    lemma_index_unique(t, at);
    assert forall|other: u64| other != key implies has_key(t, other) == has_key(s, other) by {
        if has_key(s, other) {
            let i = index_of(s, other);
            assert(t[i].0 == other);
        }
        if has_key(t, other) {
            let i = index_of(t, other);
            assert(s[i].0 == other);
        }
    }
    assert forall|other: u64| other != key && has_key(s, other) implies value_of(t, other)
        == value_of(s, other) by {
        let i = index_of(s, other);
        assert(t[i] == s[i]);
        lemma_index_unique(t, i);
    }
}

/// Removing a key keeps keys distinct, makes the key absent and leaves every
/// other key as it was.
pub proof fn lemma_without(s: Entries, key: u64)
    requires
        distinct_keys(s),
    ensures
        distinct_keys(without(s, key)),
        !has_key(without(s, key), key),
        forall|other: u64| other != key ==> has_key(without(s, key), other) == has_key(s, other),
        forall|other: u64|
            other != key && has_key(s, other) ==> value_of(without(s, key), other) == value_of(
                s,
                other,
            ),
{
    let t = without(s, key);
    if has_key(s, key) {
        let at = index_of(s, key);
        assert forall|i: int| 0 <= i < t.len() implies t[i] == s[if i < at { i } else { i + 1 }] by {}
        assert forall|i: int, j: int| 0 <= i < j < t.len() implies (#[trigger] t[i]).0 != (
        #[trigger] t[j]).0 by {
            let si = if i < at { i } else { i + 1 };
            let sj = if j < at { j } else { j + 1 };
            assert(s[si].0 != s[sj].0);
        }
        if has_key(t, key) {
            let i = index_of(t, key);
            let si = if i < at { i } else { i + 1 };
            assert(s[si].0 == key);
            if si < at {
                assert(s[si].0 != s[at].0);
            } else {
                assert(s[at].0 != s[si].0);
            }
        }
        assert forall|other: u64| other != key implies has_key(t, other) == has_key(s, other) by {
            if has_key(s, other) {
                let i = index_of(s, other);
                let ti = if i < at { i } else { i - 1 };
                assert(t[ti].0 == other);
            }
            if has_key(t, other) {
                let i = index_of(t, other);
                let si = if i < at { i } else { i + 1 };
                assert(s[si].0 == other);
            }
        }
        assert forall|other: u64| other != key && has_key(s, other) implies value_of(t, other)
            == value_of(s, other) by {
            let i = index_of(s, other);
            let ti = if i < at { i } else { i - 1 };
            assert(t[ti] == s[i]);
            lemma_index_unique(t, ti);
        }
    }
}

/// Two sequences hold the same keys at the same positions.
pub open spec fn same_keys(a: Entries, b: Entries) -> bool {
    &&& a.len() == b.len()
    &&& forall|i: int| 0 <= i < a.len() ==> (#[trigger] a[i]).0 == (#[trigger] b[i]).0
}

/// Replacing a record in place moves no key.
pub proof fn lemma_amend_same_keys(s: Entries, key: u64, value: DeviceView)
    ensures
        same_keys(s, amend(s, key, value)),
{
}

/// Sequences with the same keys at the same positions hold the same keys,
/// and are distinct together.
pub proof fn lemma_same_keys(a: Entries, b: Entries)
    requires
        same_keys(a, b),
    ensures
        forall|key: u64| has_key(a, key) == has_key(b, key),
        distinct_keys(a) == distinct_keys(b),
        forall|c: Entries| disjoint_keys(a, c) == disjoint_keys(b, c),
        forall|c: Entries| disjoint_keys(c, a) == disjoint_keys(c, b),
{
    assert forall|key: u64| has_key(a, key) == has_key(b, key) by {
        if has_key(a, key) {
            assert(b[index_of(a, key)].0 == key);
        }
        if has_key(b, key) {
            assert(a[index_of(b, key)].0 == key);
        }
    }
    if distinct_keys(a) {
        assert forall|i: int, j: int| 0 <= i < j < b.len() implies (#[trigger] b[i]).0 != (
        #[trigger] b[j]).0 by {
            assert(a[i].0 != a[j].0);
        }
    }
    if distinct_keys(b) {
        assert forall|i: int, j: int| 0 <= i < j < a.len() implies (#[trigger] a[i]).0 != (
        #[trigger] a[j]).0 by {
            assert(b[i].0 != b[j].0);
        }
    }
    assert forall|c: Entries| disjoint_keys(a, c) == disjoint_keys(b, c) by {
        if disjoint_keys(a, c) {
            assert forall|i: int, j: int| 0 <= i < b.len() && 0 <= j < c.len() implies (
            #[trigger] b[i]).0 != (#[trigger] c[j]).0 by {
                assert(a[i].0 != c[j].0);
            }
        }
        if disjoint_keys(b, c) {
            assert forall|i: int, j: int| 0 <= i < a.len() && 0 <= j < c.len() implies (
            #[trigger] a[i]).0 != (#[trigger] c[j]).0 by {
                assert(b[i].0 != c[j].0);
            }
        }
    }
    assert forall|c: Entries| disjoint_keys(c, a) == disjoint_keys(c, b) by {
        if disjoint_keys(c, a) {
            assert forall|i: int, j: int| 0 <= i < c.len() && 0 <= j < b.len() implies (
            #[trigger] c[i]).0 != (#[trigger] b[j]).0 by {
                assert(c[i].0 != a[j].0);
            }
        }
        if disjoint_keys(c, b) {
            assert forall|i: int, j: int| 0 <= i < c.len() && 0 <= j < a.len() implies (
            #[trigger] c[i]).0 != (#[trigger] a[j]).0 by {
                assert(c[i].0 != b[j].0);
            }
        }
    }
}

/// Two sequences have no key in common exactly if no key is present in both.
pub proof fn lemma_disjoint_keys(a: Entries, b: Entries)
    ensures
        disjoint_keys(a, b) <==> forall|key: u64| !(has_key(a, key) && has_key(b, key)),
{
    if disjoint_keys(a, b) {
        assert forall|key: u64| !(has_key(a, key) && has_key(b, key)) by {
            if has_key(a, key) && has_key(b, key) {
                assert(a[index_of(a, key)].0 != b[index_of(b, key)].0);
            }
        }
    }
    if forall|key: u64| !(has_key(a, key) && has_key(b, key)) {
        assert forall|i: int, j: int| 0 <= i < a.len() && 0 <= j < b.len() implies (#[trigger] a[i]).0
            != (#[trigger] b[j]).0 by {
            assert(has_key(a, a[i].0));
            assert(has_key(b, b[j].0));
        }
    }
}

#[verifier::external_type_specification]
#[verifier::external_body]
#[verifier::reject_recursive_types(K)]
#[verifier::reject_recursive_types(V)]
#[verifier::reject_recursive_types(S)]
pub struct ExIndexMap<K, V, S>(IndexMap<K, V, S>);

/// The key-value pairs that a table holds, in table order, each record by its view.
pub uninterp spec fn entries(table: IndexMap<u64, Device>) -> Seq<(u64, DeviceView)>;

/// `IndexMap::new`: the new table holds nothing.
#[verifier::external_body]
pub(crate) fn table_new() -> (table: IndexMap<u64, Device>)
    ensures
        entries(table) == Seq::<(u64, DeviceView)>::empty(),
{
    IndexMap::new()
}

/// `IndexMap::len`: the number of pairs held.
#[verifier::external_body]
pub(crate) fn table_len(table: &IndexMap<u64, Device>) -> (n: usize)
    ensures
        n == entries(*table).len(),
{
    table.len()
}

/// `IndexMap::clear`: afterwards the table holds nothing.
#[verifier::external_body]
pub(crate) fn table_clear(table: &mut IndexMap<u64, Device>)
    ensures
        entries(*final(table)) == Seq::<(u64, DeviceView)>::empty(),
{
    table.clear()
}

/// `IndexMap::insert`: a present key keeps its place and gets the new value,
/// an absent key is added last; the value that was stored before is returned.
#[verifier::external_body]
pub(crate) fn table_insert(
    table: &mut IndexMap<u64, Device>,
    key: u64,
    value: Device,
) -> (previous: Option<Device>)
    ensures
        entries(*final(table)) == put(entries(*old(table)), key, value@),
        match previous {
            Some(device) => {
                &&& has_key(entries(*old(table)), key)
                &&& device@ == value_of(entries(*old(table)), key)
            },
            None => !has_key(entries(*old(table)), key),
        },
{
    table.insert(key, value)
}

/// `IndexMap::shift_remove`: the pair of the key leaves, the pairs behind it
/// move up and keep their order; the removed value is returned.
#[verifier::external_body]
pub(crate) fn table_shift_remove(table: &mut IndexMap<u64, Device>, key: u64) -> (removed: Option<
    Device,
>)
    ensures
        entries(*final(table)) == without(entries(*old(table)), key),
        match removed {
            Some(device) => {
                &&& has_key(entries(*old(table)), key)
                &&& device@ == value_of(entries(*old(table)), key)
            },
            None => !has_key(entries(*old(table)), key),
        },
{
    table.shift_remove(&key)
}

/// `IndexMap::get`: the value stored under the key, if the key is present.
#[verifier::external_body]
pub(crate) fn table_get(table: &IndexMap<u64, Device>, key: u64) -> (found: Option<&Device>)
    ensures
        match found {
            Some(device) => {
                &&& has_key(entries(*table), key)
                &&& device@ == value_of(entries(*table), key)
            },
            None => !has_key(entries(*table), key),
        },
{
    table.get(&key)
}

/// `IndexMap::get_mut`: a mutable reference to the value stored under the
/// key, if the key is present. What is written through the reference
/// replaces that value; no pair moves and no other value changes.
#[verifier::external_body]
pub(crate) fn table_get_mut(table: &mut IndexMap<u64, Device>, key: u64) -> (found: Option<
    &mut Device,
>)
    ensures
        match found {
            Some(device) => {
                &&& has_key(entries(*old(table)), key)
                &&& device@ == value_of(entries(*old(table)), key)
                &&& entries(*final(table)) == entries(*old(table)).update(
                    index_of(entries(*old(table)), key),
                    (key, final(device)@),
                )
            },
            None => {
                &&& !has_key(entries(*old(table)), key)
                &&& entries(*final(table)) == entries(*old(table))
            },
        },
{
    table.get_mut(&key)
}

/// `IndexMap::get_index`: the pair at a position, if the position is below
/// the length.
#[verifier::external_body]
pub(crate) fn table_get_index(table: &IndexMap<u64, Device>, index: usize) -> (found: Option<
    (u64, &Device),
>)
    ensures
        match found {
            Some((key, device)) => {
                &&& index < entries(*table).len()
                &&& key == entries(*table)[index as int].0
                &&& device@ == entries(*table)[index as int].1
            },
            None => index >= entries(*table).len(),
        },
{
    table.get_index(index).map(|(key, device)| (*key, device))
}

/// `IndexMap::get_index_mut`: the key at a position and a mutable reference
/// to its value, if the position is below the length. What is written
/// through the reference replaces that value; no pair moves and no other
/// value changes.
#[verifier::external_body]
pub(crate) fn table_get_index_mut(table: &mut IndexMap<u64, Device>, index: usize) -> (found:
    Option<(u64, &mut Device)>)
    ensures
        match found {
            Some((key, device)) => {
                &&& index < entries(*old(table)).len()
                &&& key == entries(*old(table))[index as int].0
                &&& device@ == entries(*old(table))[index as int].1
                &&& entries(*final(table)) == entries(*old(table)).update(
                    index as int,
                    (key, final(device)@),
                )
            },
            None => {
                &&& index >= entries(*old(table)).len()
                &&& entries(*final(table)) == entries(*old(table))
            },
        },
{
    table.get_index_mut(index).map(|(key, device)| (*key, device))
}

} // verus!
