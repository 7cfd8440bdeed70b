//! Cookies as the client reads them, and the map from cookie names to
//! values that is handed to the bridge.
use vstd::prelude::*;
use crate::keyed::{
    has_key, keyed_map, keys_distinct, lemma_keyed_lookup, lemma_keyed_lookup_last,
    lemma_keyed_push, lemma_keyed_update,
};
use crate::text::str_eq;

verus! {

/// A cookie, by the two things the client reads of it.
#[derive(Clone, Debug)]
pub struct Cookie {
    pub name: String,
    pub value: String,
}

/// What a cookie is, as a pair of character sequences.
pub struct CookieView {
    pub name: Seq<char>,
    pub value: Seq<char>,
}

impl View for Cookie {
    type V = CookieView;

    open spec fn view(&self) -> CookieView {
        CookieView { name: self.name@, value: self.value@ }
    }
}

impl Cookie {
    pub fn new(name: String, value: String) -> (r: Cookie)
        ensures
            r.name == name,
            r.value == value,
    {
        Cookie { name, value }
    }
}

/// The views of a sequence of cookies.
pub open spec fn cookies_view(cs: Seq<Cookie>) -> Seq<CookieView> {
    cs.map_values(|c: Cookie| c@)
}

/// The (name, value) pairs of a list of cookies.
pub open spec fn cookie_pairs(cs: Seq<CookieView>) -> Seq<(Seq<char>, Seq<char>)> {
    cs.map_values(|c: CookieView| (c.name, c.value))
}

/// The map that a list of cookies gives when each is entered in turn: a
/// later cookie of the same name replaces an earlier one.
pub open spec fn cookie_map(cs: Seq<CookieView>) -> Map<Seq<char>, Seq<char>> {
    keyed_map(cookie_pairs(cs))
}

/// Whether some cookie of the list has the given name.
pub open spec fn has_cookie_named(cs: Seq<CookieView>, name: Seq<char>) -> bool {
    exists|i: int| 0 <= i < cs.len() && #[trigger] cs[i].name == name
}

/// Whether no two cookies of the list share a name.
pub open spec fn names_distinct(cs: Seq<CookieView>) -> bool {
    forall|i: int, j: int|
        0 <= i < cs.len() && 0 <= j < cs.len() && i != j ==> #[trigger] cs[i].name
            != #[trigger] cs[j].name
}

/// The cookie predicates are those of the list of their pairs.
proof fn lemma_cookie_pairs(cs: Seq<CookieView>)
    ensures
        cookie_pairs(cs).len() == cs.len(),
        forall|name: Seq<char>|
            #[trigger] has_cookie_named(cs, name) == has_key(cookie_pairs(cs), name),
        names_distinct(cs) == keys_distinct(cookie_pairs(cs)),
{
    let ps = cookie_pairs(cs);
    assert forall|name: Seq<char>| #[trigger] has_cookie_named(cs, name) == has_key(ps, name) by {
        if has_cookie_named(cs, name) {
            let i = choose|i: int| 0 <= i < cs.len() && #[trigger] cs[i].name == name;
            assert(ps[i].0 == name);
        }
        if has_key(ps, name) {
            let i = choose|i: int| 0 <= i < ps.len() && #[trigger] ps[i].0 == name;
            assert(cs[i].name == name);
        }
    }
    if names_distinct(cs) {
        assert forall|a: int, b: int|
            0 <= a < ps.len() && 0 <= b < ps.len() && a != b implies #[trigger] ps[a].0
            != #[trigger] ps[b].0 by {
            assert(cs[a].name != cs[b].name);
        }
    }
    if keys_distinct(ps) {
        assert forall|a: int, b: int|
            0 <= a < cs.len() && 0 <= b < cs.len() && a != b implies #[trigger] cs[a].name
            != #[trigger] cs[b].name by {
            assert(ps[a].0 != ps[b].0);
        }
    }
}

/// The map of a list holds exactly the names of its cookies, and each name
/// maps to the value of the last cookie of that name.
pub proof fn lemma_cookie_map_lookup(cs: Seq<CookieView>, name: Seq<char>)
    ensures
        cookie_map(cs).contains_key(name) <==> has_cookie_named(cs, name),
        forall|i: int|
            0 <= i < cs.len() && cs[i].name == name && (forall|j: int|
                i < j < cs.len() ==> #[trigger] cs[j].name != name) ==> cookie_map(cs)[name]
                == #[trigger] cs[i].value,
{
    let ps = cookie_pairs(cs);
    lemma_cookie_pairs(cs);
    lemma_keyed_lookup_last(ps, name);
    assert forall|i: int|
        0 <= i < cs.len() && cs[i].name == name && (forall|j: int|
            i < j < cs.len() ==> #[trigger] cs[j].name != name) implies cookie_map(cs)[name]
        == #[trigger] cs[i].value by {
        assert forall|j: int| i < j < ps.len() implies #[trigger] ps[j].0 != name by {
            assert(cs[j].name != name);
        }
        assert(ps[i].0 == name);
        assert(ps[i].1 == cs[i].value);
    }
}

/// Whether some cookie of the list is named `name`.
pub fn contains_cookie_named(cookies: &Vec<Cookie>, name: &str) -> (r: bool)
    ensures
        r == has_cookie_named(cookies_view(cookies@), name@),
{
    let n = cookies.len();
    let mut i: usize = 0;
    while i < n
        invariant
            n == cookies@.len(),
            i <= n,
            forall|j: int| 0 <= j < i ==> cookies@[j].name@ != name@,
        decreases n - i,
    {
        if str_eq(cookies[i].name.as_str(), name) {
            assert(cookies_view(cookies@)[i as int].name == name@);
            return true;
        }
        i = i + 1;
    }
    proof {
        let cs = cookies_view(cookies@);
        if has_cookie_named(cs, name@) {
            let k = choose|k: int| 0 <= k < cs.len() && #[trigger] cs[k].name == name@;
            assert(cookies@[k].name@ == name@);
        }
    }
    false
}

/// The map of a list of cookies: each is entered in turn, a later cookie
/// replacing an earlier one of the same name.
pub fn cookie_map_of(cookies: &Vec<Cookie>) -> (r: CookieMap)
    ensures
        r@ == cookie_map(cookies_view(cookies@)),
{
    let ghost cs = cookies_view(cookies@);
    let mut map = CookieMap::new();
    let n = cookies.len();
    let mut i: usize = 0;
    while i < n
        invariant
            n == cookies@.len(),
            cs == cookies_view(cookies@),
            i <= n,
            map@ == cookie_map(cs.take(i as int)),
        decreases n - i,
    {
        map.insert(cookies[i].name.clone(), cookies[i].value.clone());
        proof {
            assert(cookie_pairs(cs.take(i + 1)).drop_last() =~= cookie_pairs(cs.take(i as int)));
        }
        i = i + 1;
    }
    assert(cs.take(n as int) =~= cs);
    map
}

/// A map from cookie names to values; each name occurs once.
#[derive(Debug)]
pub struct CookieMap {
    entries: Vec<Cookie>,
}

impl View for CookieMap {
    type V = Map<Seq<char>, Seq<char>>;

    closed spec fn view(&self) -> Map<Seq<char>, Seq<char>> {
        cookie_map(cookies_view(self.entries@))
    }
}

impl CookieMap {
    #[verifier::type_invariant]
    closed spec fn wf(self) -> bool {
        names_distinct(cookies_view(self.entries@))
    }

    /// The cookies of the map, one per name, in the order their names were
    /// first entered.
    pub closed spec fn spec_entries(self) -> Seq<CookieView> {
        cookies_view(self.entries@)
    }

    pub fn new() -> (r: CookieMap)
        ensures
            r@ == Map::<Seq<char>, Seq<char>>::empty(),
            r.spec_entries().len() == 0,
    {
        let r = CookieMap { entries: Vec::new() };
        assert(r@ =~= Map::<Seq<char>, Seq<char>>::empty());
        r
    }

    /// The position of the entry named `name`, if there is one.
    fn find(&self, name: &str) -> (r: Option<usize>)
        ensures
            match r {
                Some(i) => i < self.entries@.len() && self.entries@[i as int].name@ == name@,
                None => !has_cookie_named(cookies_view(self.entries@), name@),
            },
    {
        let n = self.entries.len();
        let mut i: usize = 0;
        while i < n
            invariant
                n == self.entries@.len(),
                i <= n,
                forall|j: int| 0 <= j < i ==> self.entries@[j].name@ != name@,
            decreases n - i,
        {
            if str_eq(self.entries[i].name.as_str(), name) {
                return Some(i);
            }
            i = i + 1;
        }
        proof {
            let cs = cookies_view(self.entries@);
            if has_cookie_named(cs, name@) {
                let k = choose|k: int| 0 <= k < cs.len() && #[trigger] cs[k].name == name@;
                assert(self.entries@[k].name@ == name@);
            }
        }
        None
    }

    /// Enters `value` under `name`, replacing what was there.
    pub fn insert(&mut self, name: String, value: String)
        ensures
            final(self)@ == old(self)@.insert(name@, value@),
    {
        proof {
            use_type_invariant(&*self);
        }
        let ghost cs = cookies_view(self.entries@);
        match self.find(name.as_str()) {
            Some(i) => {
                let c = Cookie { name, value };
                let mut entries: Vec<Cookie> = Vec::new();
                std::mem::swap(&mut entries, &mut self.entries);
                entries.set(i, c);
                proof {
                    let ncs = cookies_view(entries@);
                    assert(ncs =~= cs.update(i as int, c@));
                    assert(cookie_pairs(ncs) =~= cookie_pairs(cs).update(i as int, (c@.name, c@.value)));
                    lemma_cookie_pairs(cs);
                    lemma_cookie_pairs(ncs);
                    lemma_keyed_update(cookie_pairs(cs), i as int, (c@.name, c@.value));
                }
                self.entries = entries;
            },
            None => {
                let c = Cookie { name, value };
                let mut entries: Vec<Cookie> = Vec::new();
                std::mem::swap(&mut entries, &mut self.entries);
                entries.push(c);
                proof {
                    let ncs = cookies_view(entries@);
                    assert(ncs =~= cs.push(c@));
                    assert(cookie_pairs(ncs) =~= cookie_pairs(cs).push((c@.name, c@.value)));
                    lemma_cookie_pairs(cs);
                    lemma_cookie_pairs(ncs);
                    lemma_keyed_push(cookie_pairs(cs), (c@.name, c@.value));
                }
                self.entries = entries;
            },
        }
    }

    /// The value entered under `name`, if any.
    pub fn get(&self, name: &str) -> (r: Option<&String>)
        ensures
            match r {
                Some(v) => self@.contains_key(name@) && v@ == self@[name@],
                None => !self@.contains_key(name@),
            },
    {
        proof {
            use_type_invariant(self);
            lemma_cookie_map_lookup(cookies_view(self.entries@), name@);
        }
        match self.find(name) {
            Some(i) => {
                proof {
                    let cs = cookies_view(self.entries@);
                    lemma_cookie_pairs(cs);
                    lemma_keyed_lookup(cookie_pairs(cs), name@);
                    assert(cookie_pairs(cs)[i as int].0 == name@);
                }
                Some(&self.entries[i].value)
            },
            None => None,
        }
    }

    /// Whether some value is entered under `name`.
    pub fn contains_key(&self, name: &str) -> (r: bool)
        ensures
            r == self@.contains_key(name@),
    {
        proof {
            use_type_invariant(self);
            lemma_cookie_map_lookup(cookies_view(self.entries@), name@);
        }
        match self.find(name) {
            Some(i) => {
                assert(cookies_view(self.entries@)[i as int].name == name@);
                true
            },
            None => false,
        }
    }

    /// The cookies of the map, one per name.
    pub fn entries(&self) -> (r: &Vec<Cookie>)
        ensures
            cookies_view(r@) == self.spec_entries(),
            names_distinct(cookies_view(r@)),
            cookie_map(cookies_view(r@)) == self@,
    {
        proof {
            use_type_invariant(self);
        }
        &self.entries
    }

    /// The number of names in the map.
    pub fn len(&self) -> (r: usize)
        ensures
            r == self.spec_entries().len(),
    {
        self.entries.len()
    }
}

} // verus!
