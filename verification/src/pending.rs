//! The calls to the bridge that still wait for their response, by request id.
use vstd::prelude::*;
use crate::keyed::{
    has_key, keyed_map, keys_distinct, lemma_keyed_lookup, lemma_keyed_push, lemma_keyed_remove,
    lemma_keyed_update,
};
use crate::text::str_eq;

verus! {

/// The entries of a table as (request id, waiter) pairs of views.
pub open spec fn entries_view<T>(s: Seq<(String, T)>) -> Seq<(Seq<char>, T)> {
    s.map_values(|e: (String, T)| (e.0@, e.1))
}

/// The calls that wait for a response, each under its request id; an id
/// has at most one waiter.
pub struct PendingCalls<T> {
    entries: Vec<(String, T)>,
}

impl<T> View for PendingCalls<T> {
    type V = Map<Seq<char>, T>;

    closed spec fn view(&self) -> Map<Seq<char>, T> {
        keyed_map(entries_view(self.entries@))
    }
}

impl<T> PendingCalls<T> {
    #[verifier::type_invariant]
    closed spec fn wf(self) -> bool {
        keys_distinct(entries_view(self.entries@))
    }

    /// A table with no waiting call.
    pub fn new() -> (r: PendingCalls<T>)
        ensures
            r@ == Map::<Seq<char>, T>::empty(),
    {
        let r = PendingCalls { entries: Vec::new() };
        assert(r@ =~= Map::<Seq<char>, T>::empty());
        r
    }

    fn find(&self, id: &str) -> (r: Option<usize>)
        ensures
            match r {
                Some(i) => i < self.entries@.len() && self.entries@[i as int].0@ == id@,
                None => !has_key(entries_view(self.entries@), id@),
            },
    {
        let n = self.entries.len();
        let mut i: usize = 0;
        while i < n
            invariant
                n == self.entries@.len(),
                i <= n,
                forall|j: int| 0 <= j < i ==> self.entries@[j].0@ != id@,
            decreases n - i,
        {
            if str_eq(self.entries[i].0.as_str(), id) {
                return Some(i);
            }
            i = i + 1;
        }
        proof {
            let s = entries_view(self.entries@);
            if has_key(s, id@) {
                let k = choose|k: int| 0 <= k < s.len() && #[trigger] s[k].0 == id@;
                assert(self.entries@[k].0@ == id@);
            }
        }
        None
    }

    /// Files `waiter` under request id `id`; a waiter filed earlier under
    /// the same id is dropped.
    pub fn register(&mut self, id: String, waiter: T)
        ensures
            final(self)@ == old(self)@.insert(id@, waiter),
    {
        proof {
            use_type_invariant(&*self);
        }
        let ghost s = entries_view(self.entries@);
        let ghost e = (id@, waiter);
        let found = self.find(id.as_str());
        let mut entries: Vec<(String, T)> = Vec::new();
        std::mem::swap(&mut entries, &mut self.entries);
        match found {
            Some(i) => {
                entries.set(i, (id, waiter));
                proof {
                    assert(entries_view(entries@) =~= s.update(i as int, e));
                    lemma_keyed_update(s, i as int, e);
                }
            },
            None => {
                entries.push((id, waiter));
                proof {
                    assert(entries_view(entries@) =~= s.push(e));
                    lemma_keyed_push(s, e);
                }
            },
        }
        self.entries = entries;
    }

    /// Takes out the waiter filed under `id`, if there is one.
    pub fn take(&mut self, id: &str) -> (r: Option<T>)
        ensures
            final(self)@ == old(self)@.remove(id@),
            r == (if old(self)@.contains_key(id@) {
                Some(old(self)@[id@])
            } else {
                None::<T>
            }),
    {
        proof {
            use_type_invariant(&*self);
        }
        let ghost s = entries_view(self.entries@);
        proof {
            lemma_keyed_lookup(s, id@);
        }
        match self.find(id) {
            Some(i) => {
                let mut entries: Vec<(String, T)> = Vec::new();
                std::mem::swap(&mut entries, &mut self.entries);
                let (_, waiter) = entries.remove(i);
                proof {
                    assert(s[i as int].0 == id@);
                    assert(entries_view(entries@) =~= s.remove(i as int));
                    lemma_keyed_remove(s, i as int);
                }
                self.entries = entries;
                Some(waiter)
            },
            None => {
                assert(self@.remove(id@) =~= self@);
                None
            },
        }
    }

    /// Whether a call waits under `id`.
    pub fn contains(&self, id: &str) -> (r: bool)
        ensures
            r == self@.contains_key(id@),
    {
        proof {
            use_type_invariant(self);
            lemma_keyed_lookup(entries_view(self.entries@), id@);
        }
        match self.find(id) {
            Some(i) => {
                assert(entries_view(self.entries@)[i as int].0 == id@);
                true
            },
            None => false,
        }
    }

    /// The number of calls that wait.
    pub fn len(&self) -> (r: usize)
        ensures
            r as nat == self@.dom().len(),
    {
        proof {
            use_type_invariant(self);
            lemma_keyed_len(entries_view(self.entries@));
        }
        self.entries.len()
    }
}

/// A list without repeated names gives a map with as many names as entries.
proof fn lemma_keyed_len<T>(s: Seq<(Seq<char>, T)>)
    requires
        keys_distinct(s),
    ensures
        keyed_map(s).dom().finite(),
        keyed_map(s).dom().len() == s.len(),
    decreases s.len(),
{
    if s.len() > 0 {
        let dl = s.drop_last();
        assert(keys_distinct(dl)) by {
            assert forall|a: int, b: int|
                0 <= a < dl.len() && 0 <= b < dl.len() && a != b implies #[trigger] dl[a].0
                != #[trigger] dl[b].0 by {
                assert(dl[a] == s[a] && dl[b] == s[b]);
            }
        }
        lemma_keyed_len(dl);
        lemma_keyed_lookup(dl, s.last().0);
        if has_key(dl, s.last().0) {
            let j = choose|j: int| 0 <= j < dl.len() && #[trigger] dl[j].0 == s.last().0;
            assert(s[j].0 == s[s.len() - 1].0);
        }
    }
}

} // verus!
