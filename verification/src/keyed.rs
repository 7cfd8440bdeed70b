//! Maps from names to values kept as lists of entries, one per name.
use vstd::prelude::*;

verus! {

/// The map that a list of entries gives when each is entered in turn.
pub open spec fn keyed_map<V>(s: Seq<(Seq<char>, V)>) -> Map<Seq<char>, V>
    decreases s.len(),
{
    if s.len() == 0 {
        Map::empty()
    } else {
        keyed_map(s.drop_last()).insert(s.last().0, s.last().1)
    }
}

/// Whether no two entries of the list share a name.
pub open spec fn keys_distinct<V>(s: Seq<(Seq<char>, V)>) -> bool {
    forall|i: int, j: int|
        0 <= i < s.len() && 0 <= j < s.len() && i != j ==> #[trigger] s[i].0 != #[trigger] s[j].0
}

pub open spec fn has_key<V>(s: Seq<(Seq<char>, V)>, k: Seq<char>) -> bool {
    exists|i: int| 0 <= i < s.len() && #[trigger] s[i].0 == k
}

proof fn lemma_distinct_drop_last<V>(s: Seq<(Seq<char>, V)>)
    requires
        keys_distinct(s),
        s.len() > 0,
    ensures
        keys_distinct(s.drop_last()),
{
    let dl = s.drop_last();
    assert forall|a: int, b: int|
        0 <= a < dl.len() && 0 <= b < dl.len() && a != b implies #[trigger] dl[a].0
        != #[trigger] dl[b].0 by {
        assert(dl[a] == s[a] && dl[b] == s[b]);
    }
}

/// The map of a list without repeated names holds exactly its names, each
/// with the value of its entry.
pub proof fn lemma_keyed_lookup<V>(s: Seq<(Seq<char>, V)>, k: Seq<char>)
    requires
        keys_distinct(s),
    ensures
        keyed_map(s).contains_key(k) <==> has_key(s, k),
        forall|i: int| 0 <= i < s.len() && #[trigger] s[i].0 == k ==> keyed_map(s)[k] == s[i].1,
    decreases s.len(),
{
    if s.len() > 0 {
        let dl = s.drop_last();
        lemma_distinct_drop_last(s);
        lemma_keyed_lookup(dl, k);
        if has_key(dl, k) {
            let j = choose|j: int| 0 <= j < dl.len() && #[trigger] dl[j].0 == k;
            assert(s[j].0 == k);
        }
        if has_key(s, k) && s.last().0 != k {
            let j = choose|j: int| 0 <= j < s.len() && #[trigger] s[j].0 == k;
            assert(dl[j].0 == k);
        }
        assert forall|i: int| 0 <= i < s.len() && #[trigger] s[i].0 == k implies keyed_map(s)[k]
            == s[i].1 by {
            if i < s.len() - 1 {
                assert(dl[i] == s[i]);
                assert(s[s.len() - 1].0 != k);
            }
        }
    }
}

/// The map of any list holds exactly its names, and each name maps to the
/// value of the last entry of that name.
pub proof fn lemma_keyed_lookup_last<V>(s: Seq<(Seq<char>, V)>, k: Seq<char>)
    ensures
        keyed_map(s).contains_key(k) <==> has_key(s, k),
        forall|i: int|
            0 <= i < s.len() && s[i].0 == k && (forall|j: int|
                i < j < s.len() ==> #[trigger] s[j].0 != k) ==> keyed_map(s)[k] == #[trigger] s[i].1,
    decreases s.len(),
{
    if s.len() > 0 {
        let dl = s.drop_last();
        lemma_keyed_lookup_last(dl, k);
        if has_key(dl, k) {
            let j = choose|j: int| 0 <= j < dl.len() && #[trigger] dl[j].0 == k;
            assert(s[j].0 == k);
        }
        if has_key(s, k) && s.last().0 != k {
            let j = choose|j: int| 0 <= j < s.len() && #[trigger] s[j].0 == k;
            assert(dl[j].0 == k);
        }
        assert forall|i: int|
            0 <= i < s.len() && s[i].0 == k && (forall|j: int|
                i < j < s.len() ==> #[trigger] s[j].0 != k) implies keyed_map(s)[k]
            == #[trigger] s[i].1 by {
            if i < s.len() - 1 {
                assert(s[s.len() - 1].0 != k);
                assert(dl[i] == s[i]);
                assert forall|j: int| i < j < dl.len() implies #[trigger] dl[j].0 != k by {
                    assert(dl[j] == s[j]);
                }
            }
        }
    }
}

/// Adding an entry under a new name keeps the names distinct and enters it.
pub proof fn lemma_keyed_push<V>(s: Seq<(Seq<char>, V)>, e: (Seq<char>, V))
    requires
        keys_distinct(s),
        !has_key(s, e.0),
    ensures
        keys_distinct(s.push(e)),
        keyed_map(s.push(e)) == keyed_map(s).insert(e.0, e.1),
{
    let ns = s.push(e);
    assert(ns.drop_last() =~= s);
    assert forall|a: int, b: int|
        0 <= a < ns.len() && 0 <= b < ns.len() && a != b implies #[trigger] ns[a].0
        != #[trigger] ns[b].0 by {
        if a < s.len() && b < s.len() {
            assert(ns[a] == s[a] && ns[b] == s[b]);
        } else if a < s.len() {
            assert(ns[a] == s[a]);
        } else {
            assert(ns[b] == s[b]);
        }
    }
}

/// Replacing the entry of a name keeps the names distinct and enters the
/// new value under it.
pub proof fn lemma_keyed_update<V>(s: Seq<(Seq<char>, V)>, i: int, e: (Seq<char>, V))
    requires
        keys_distinct(s),
        0 <= i < s.len(),
        s[i].0 == e.0,
    ensures
        keys_distinct(s.update(i, e)),
        keyed_map(s.update(i, e)) == keyed_map(s).insert(e.0, e.1),
    decreases s.len(),
{
    let ns = s.update(i, e);
    assert forall|a: int, b: int|
        0 <= a < ns.len() && 0 <= b < ns.len() && a != b implies #[trigger] ns[a].0
        != #[trigger] ns[b].0 by {
        assert(ns[a].0 == s[a].0 && ns[b].0 == s[b].0);
    }
    let dl = s.drop_last();
    if i == s.len() - 1 {
        assert(ns.drop_last() =~= dl);
        assert(keyed_map(ns) =~= keyed_map(s).insert(e.0, e.1));
    } else {
        assert(ns.drop_last() =~= dl.update(i, e));
        lemma_distinct_drop_last(s);
        lemma_keyed_update(dl, i, e);
        assert(s[s.len() - 1].0 != s[i].0);
        assert(keyed_map(ns) =~= keyed_map(s).insert(e.0, e.1));
    }
}

/// Removing the entry of a name keeps the names distinct and takes the name
/// out of the map.
pub proof fn lemma_keyed_remove<V>(s: Seq<(Seq<char>, V)>, i: int)
    requires
        keys_distinct(s),
        0 <= i < s.len(),
    ensures
        keys_distinct(s.remove(i)),
        keyed_map(s.remove(i)) == keyed_map(s).remove(s[i].0),
    decreases s.len(),
{
    let ns = s.remove(i);
    assert forall|a: int, b: int|
        0 <= a < ns.len() && 0 <= b < ns.len() && a != b implies #[trigger] ns[a].0
        != #[trigger] ns[b].0 by {
        let a2 = if a < i { a } else { a + 1 };
        let b2 = if b < i { b } else { b + 1 };
        assert(ns[a] == s[a2] && ns[b] == s[b2]);
    }
    let dl = s.drop_last();
    lemma_distinct_drop_last(s);
    if i == s.len() - 1 {
        assert(ns =~= dl);
        lemma_keyed_lookup(dl, s[i].0);
        if has_key(dl, s[i].0) {
            let j = choose|j: int| 0 <= j < dl.len() && #[trigger] dl[j].0 == s[i].0;
            assert(s[j].0 == s[i].0);
        }
        assert(keyed_map(ns) =~= keyed_map(s).remove(s[i].0));
    } else {
        assert(ns.drop_last() =~= dl.remove(i));
        assert(ns.last() == s.last());
        lemma_keyed_remove(dl, i);
        assert(s[s.len() - 1].0 != s[i].0);
        assert(keyed_map(ns) =~= keyed_map(s).remove(s[i].0));
    }
}

} // verus!
