//! Lists of named texts with each name at most once: the library's form of
//! a map from text to text.

use vstd::prelude::*;

use crate::metadata::{extra_get, pairs_view};
use crate::text::str_equal;

verus! {

/// Whether no name occurs twice.
pub open spec fn unique_keys(v: Seq<(Seq<char>, Seq<char>)>) -> bool {
    forall|i: int, j: int| 0 <= i < j < v.len() ==> (#[trigger] v[i]).0 != (#[trigger] v[j]).0
}

/// The map that a list of named texts stands for.
pub open spec fn as_map(v: Seq<(Seq<char>, Seq<char>)>) -> Map<Seq<char>, Seq<char>> {
    Map::new(|k: Seq<char>| extra_get(v, k) is Some, |k: Seq<char>| extra_get(v, k)->0)
}

/// A name is found exactly where it occurs.
pub proof fn lemma_get_at(v: Seq<(Seq<char>, Seq<char>)>, i: int)
    requires
        unique_keys(v),
        0 <= i < v.len(),
    ensures
        extra_get(v, v[i].0) == Some(v[i].1),
    decreases v.len(),
{
    if i > 0 {
        assert(v[0].0 != v[i].0);
        assert(v.drop_first()[i - 1] == v[i]);
        lemma_get_at(v.drop_first(), i - 1);
    }
}

/// A name that does not occur is not found.
pub proof fn lemma_get_absent(v: Seq<(Seq<char>, Seq<char>)>, k: Seq<char>)
    requires
        forall|i: int| 0 <= i < v.len() ==> (#[trigger] v[i]).0 != k,
    ensures
        extra_get(v, k) is None,
    decreases v.len(),
{
    if v.len() > 0 {
        assert forall|i: int| 0 <= i < v.drop_first().len() implies (#[trigger] v.drop_first()[i]).0 != k by {
            assert(v.drop_first()[i] == v[i + 1]);
        }
        lemma_get_absent(v.drop_first(), k);
    }
}

/// A name that is found occurs somewhere.
pub proof fn lemma_get_found(v: Seq<(Seq<char>, Seq<char>)>, k: Seq<char>)
    requires
        extra_get(v, k) is Some,
    ensures
        exists|i: int| 0 <= i < v.len() && v[i].0 == k && v[i].1 == extra_get(v, k)->0,
    decreases v.len(),
{
    if v[0].0 != k {
        lemma_get_found(v.drop_first(), k);
        let i = choose|i: int| 0 <= i < v.drop_first().len() && v.drop_first()[i].0 == k && v.drop_first()[i].1 == extra_get(v.drop_first(), k)->0;
        assert(v[i + 1] == v.drop_first()[i]);
    } else {
        assert(v[0].0 == k);
    }
}

/// The map of a list with unique names, entry by entry.
pub proof fn lemma_map_entries(v: Seq<(Seq<char>, Seq<char>)>, k: Seq<char>)
    requires
        unique_keys(v),
    ensures
        as_map(v).contains_key(k) <==> exists|i: int| 0 <= i < v.len() && v[i].0 == k,
        forall|i: int| 0 <= i < v.len() && v[i].0 == k ==> as_map(v)[k] == v[i].1,
{
    if exists|i: int| 0 <= i < v.len() && v[i].0 == k {
        let i = choose|i: int| 0 <= i < v.len() && v[i].0 == k;
        lemma_get_at(v, i);
        assert forall|j: int| 0 <= j < v.len() && v[j].0 == k implies as_map(v)[k] == v[j].1 by {
            lemma_get_at(v, j);
        }
    } else {
        lemma_get_absent(v, k);
    }
}

proof fn lemma_maps_equal(a: Map<Seq<char>, Seq<char>>, b: Map<Seq<char>, Seq<char>>)
    requires
        forall|k: Seq<char>| #[trigger] a.contains_key(k) == b.contains_key(k),
        forall|k: Seq<char>| #[trigger] a.contains_key(k) ==> a[k] == b[k],
    ensures
        a == b,
{
    assert(a.dom() =~= b.dom());
    assert(a =~= b);
}

/// Sets the text named `key`, adding the name when it is new.
pub fn insert(v: &mut Vec<(String, String)>, key: String, value: String)
    requires
        unique_keys(pairs_view(old(v)@)),
    ensures
        unique_keys(pairs_view(final(v)@)),
        as_map(pairs_view(final(v)@)) == as_map(pairs_view(old(v)@)).insert(key@, value@),
{
    let ghost before = pairs_view(v@);
    let mut i: usize = 0;
    while i < v.len()
        invariant
            i <= v@.len(),
            before == pairs_view(v@),
            before == pairs_view(old(v)@),
            unique_keys(before),
            forall|j: int| 0 <= j < i ==> before[j].0 != key@,
        decreases v@.len() - i,
    {
        assert(before[i as int] == (v@[i as int].0@, v@[i as int].1@));
        if str_equal(v[i].0.as_str(), key.as_str()) {
            let ghost kv = key@;
            let ghost vv = value@;
            v.set(i, (key, value));
            proof {
                let after = pairs_view(v@);
                assert(after == before.update(i as int, (kv, vv)));
                assert(unique_keys(after)) by {
                    assert forall|a: int, b: int| 0 <= a < b < after.len() implies (#[trigger] after[a]).0 != (#[trigger] after[b]).0 by {
                        if a != i && b != i {
                            assert(after[a] == before[a] && after[b] == before[b]);
                        } else if a == i {
                            assert(after[b] == before[b]);
                            assert(before[a].0 != before[b].0);
                        } else {
                            assert(after[a] == before[a]);
                            assert(before[a].0 != before[b].0);
                        }
                    }
                }
                assert(as_map(after) == as_map(before).insert(kv, vv)) by {
                    assert forall|k: Seq<char>| #[trigger] as_map(after).contains_key(k) == as_map(before).insert(kv, vv).contains_key(k) && (as_map(after).contains_key(k) ==> as_map(after)[k] == as_map(before).insert(kv, vv)[k]) by {
                        lemma_map_entries(after, k);
                        lemma_map_entries(before, k);
                        if k == kv {
                            assert(after[i as int].0 == k);
                        } else {
                            if exists|j: int| 0 <= j < before.len() && before[j].0 == k {
                                let j = choose|j: int| 0 <= j < before.len() && before[j].0 == k;
                                assert(j != i);
                                assert(after[j] == before[j]);
                            }
                            if exists|j: int| 0 <= j < after.len() && after[j].0 == k {
                                let j = choose|j: int| 0 <= j < after.len() && after[j].0 == k;
                                assert(j != i);
                                assert(after[j] == before[j]);
                            }
                        }
                    }
                    lemma_maps_equal(as_map(after), as_map(before).insert(kv, vv));
                }
            }
            return;
        }
        i = i + 1;
    }
    let ghost kv = key@;
    let ghost vv = value@;
    v.push((key, value));
    proof {
        let after = pairs_view(v@);
        assert(after == before.push((kv, vv)));
        assert(unique_keys(after)) by {
            assert forall|a: int, b: int| 0 <= a < b < after.len() implies (#[trigger] after[a]).0 != (#[trigger] after[b]).0 by {
                assert(after[a] == before[a]);
                if b < before.len() {
                    assert(after[b] == before[b]);
                }
            }
        }
        assert(as_map(after) == as_map(before).insert(kv, vv)) by {
            assert forall|k: Seq<char>| #[trigger] as_map(after).contains_key(k) == as_map(before).insert(kv, vv).contains_key(k) && (as_map(after).contains_key(k) ==> as_map(after)[k] == as_map(before).insert(kv, vv)[k]) by {
                lemma_map_entries(after, k);
                lemma_map_entries(before, k);
                let n = before.len() as int;
                assert(after[n] == (kv, vv));
                if exists|j: int| 0 <= j < before.len() && before[j].0 == k {
                    let j = choose|j: int| 0 <= j < before.len() && before[j].0 == k;
                    assert(after[j] == before[j]);
                }
                if exists|j: int| 0 <= j < after.len() && after[j].0 == k {
                    let j = choose|j: int| 0 <= j < after.len() && after[j].0 == k;
                    if j < n {
                        assert(after[j] == before[j]);
                    }
                }
            }
            lemma_maps_equal(as_map(after), as_map(before).insert(kv, vv));
        }
    }
}

/// Drops the text named `key`, if there is one.
pub fn remove(v: &mut Vec<(String, String)>, key: &str)
    requires
        unique_keys(pairs_view(old(v)@)),
    ensures
        unique_keys(pairs_view(final(v)@)),
        as_map(pairs_view(final(v)@)) == as_map(pairs_view(old(v)@)).remove(key@),
{
    let ghost before = pairs_view(v@);
    let mut i: usize = 0;
    while i < v.len()
        invariant
            i <= v@.len(),
            before == pairs_view(v@),
            before == pairs_view(old(v)@),
            unique_keys(before),
            forall|j: int| 0 <= j < i ==> before[j].0 != key@,
        decreases v@.len() - i,
    {
        assert(before[i as int] == (v@[i as int].0@, v@[i as int].1@));
        if str_equal(v[i].0.as_str(), key) {
            v.remove(i);
            proof {
                let after = pairs_view(v@);
                assert(after == before.remove(i as int));
                assert(unique_keys(after)) by {
                    assert forall|a: int, b: int| 0 <= a < b < after.len() implies (#[trigger] after[a]).0 != (#[trigger] after[b]).0 by {
                        let a2 = if a < i { a } else { a + 1 };
                        let b2 = if b < i { b } else { b + 1 };
                        assert(after[a] == before[a2] && after[b] == before[b2]);
                    }
                }
                assert(as_map(after) == as_map(before).remove(key@)) by {
                    assert forall|k: Seq<char>| #[trigger] as_map(after).contains_key(k) == as_map(before).remove(key@).contains_key(k) && (as_map(after).contains_key(k) ==> as_map(after)[k] == as_map(before).remove(key@)[k]) by {
                        lemma_map_entries(after, k);
                        lemma_map_entries(before, k);
                        if exists|j: int| 0 <= j < after.len() && after[j].0 == k {
                            let j = choose|j: int| 0 <= j < after.len() && after[j].0 == k;
                            let j2 = if j < i { j } else { j + 1 };
                            assert(after[j] == before[j2]);
                            assert(k != key@) by {
                                if k == key@ {
                                    assert(before[i as int].0 == before[j2].0);
                                }
                            }
                        }
                        if k != key@ && exists|j: int| 0 <= j < before.len() && before[j].0 == k {
                            let j = choose|j: int| 0 <= j < before.len() && before[j].0 == k;
                            assert(j != i);
                            let j1 = if j < i { j } else { j - 1 };
                            assert(after[j1] == before[j]);
                        }
                    }
                    lemma_maps_equal(as_map(after), as_map(before).remove(key@));
                }
            }
            return;
        }
        i = i + 1;
    }
    proof {
        lemma_get_absent(before, key@);
        assert(as_map(before) =~= as_map(before).remove(key@));
    }
}

/// The text named `key`, if there is one.
pub fn get<'a>(v: &'a Vec<(String, String)>, key: &str) -> (r: Option<&'a String>)
    ensures
        match r {
            Some(s) => extra_get(pairs_view(v@), key@) == Some(s@),
            None => extra_get(pairs_view(v@), key@) is None,
        },
{
    match crate::metadata::find_extra(v, key) {
        Some(i) => Some(&v[i].1),
        None => None,
    }
}

/// Whether no name occurs twice in a list of named items.
pub open spec fn names_unique<T>(v: Seq<(String, T)>) -> bool {
    forall|i: int, j: int| 0 <= i < j < v.len() ==> (#[trigger] v[i]).0@ != (#[trigger] v[j]).0@
}

/// Whether `name` occurs in a list of named items.
pub open spec fn has_name<T>(v: Seq<(String, T)>, name: Seq<char>) -> bool {
    exists|i: int| 0 <= i < v.len() && (#[trigger] v[i]).0@ == name
}

/// Sets the item named `name`: it replaces the item of that name, or is
/// added at the end when the name is new, as a map's insert does.
pub fn insert_named<T>(v: &mut Vec<(String, T)>, name: String, item: T)
    requires
        names_unique(old(v)@),
    ensures
        names_unique(final(v)@),
        has_name(old(v)@, name@) ==> exists|i: int|
            0 <= i < old(v)@.len() && (#[trigger] old(v)@[i]).0@ == name@ && final(v)@ == old(v)@.update(
                i,
                (name, item),
            ),
        !has_name(old(v)@, name@) ==> final(v)@ == old(v)@.push((name, item)),
{
    let mut i: usize = 0;
    while i < v.len()
        invariant
            i <= v@.len(),
            v@ == old(v)@,
            names_unique(v@),
            forall|j: int| 0 <= j < i ==> (#[trigger] v@[j]).0@ != name@,
        decreases v@.len() - i,
    {
        if str_equal(v[i].0.as_str(), name.as_str()) {
            let ghost before = v@;
            let ghost entry = (name, item);
            v.set(i, (name, item));
            assert(v@ == before.update(i as int, entry));
            assert forall|a: int, b: int| 0 <= a < b < v@.len() implies (#[trigger] v@[a]).0@ != (#[trigger] v@[b]).0@ by {
                if a != i && b != i {
                    assert(v@[a] == before[a] && v@[b] == before[b]);
                } else if a == i {
                    assert(before[a].0@ == v@[a].0@);
                    assert(v@[b] == before[b]);
                } else {
                    assert(before[b].0@ == v@[b].0@);
                    assert(v@[a] == before[a]);
                }
            }
            return;
        }
        i = i + 1;
    }
    let ghost before = v@;
    v.push((name, item));
    assert(!has_name(before, name@)) by {
        if has_name(before, name@) {
            let k = choose|k: int| 0 <= k < before.len() && (#[trigger] before[k]).0@ == name@;
            assert(before[k].0@ != name@);
        }
    }
    assert forall|a: int, b: int| 0 <= a < b < v@.len() implies (#[trigger] v@[a]).0@ != (#[trigger] v@[b]).0@ by {
        if b == before.len() {
            assert(v@[a] == before[a]);
        } else {
            assert(v@[a] == before[a] && v@[b] == before[b]);
        }
    }
}

} // verus!
