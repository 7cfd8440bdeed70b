//! Signing in to Google in an embedded window: the window watches the pages
//! it loads and, the first time a page of Google Messages carries the
//! session cookies, hands them on to pair.
use vstd::prelude::*;
use crate::cookie_jar::{
    lemma_cookie_map_lookup,
    contains_cookie_named, cookie_map, cookie_map_of, cookies_view, has_cookie_named, Cookie,
    CookieMap, CookieView,
};
use crate::cookies::sapisid;
use crate::text::str_eq;

verus! {

/// The host on which a finished sign-in lands.
pub open spec fn messages_host() -> Seq<char> {
    "messages.google.com"@
}

/// Whether a page load with these cookies pairs, given whether one did
/// before: only the first load that carries a SAPISID does.
pub open spec fn pairs_on(triggered: bool, cs: Seq<CookieView>) -> bool {
    has_cookie_named(cs, sapisid()) && !triggered
}

/// The number of page loads that pair, in a run of loads starting from the
/// given state.
pub open spec fn pairings(triggered: bool, loads: Seq<Seq<CookieView>>) -> nat
    decreases loads.len(),
{
    if loads.len() == 0 {
        0
    } else {
        let fired = pairs_on(triggered, loads[0]);
        (if fired {
            1nat
        } else {
            0nat
        }) + pairings(triggered || fired, loads.drop_first())
    }
}

/// The state of a sign-in window: whether it has already handed cookies on.
#[derive(Clone, Copy, Debug)]
pub struct GaiaLogin {
    triggered: bool,
}

impl GaiaLogin {
    pub closed spec fn spec_triggered(&self) -> bool {
        self.triggered
    }

    /// A sign-in window that has handed nothing on.
    pub fn new() -> (r: GaiaLogin)
        ensures
            !r.spec_triggered(),
    {
        GaiaLogin { triggered: false }
    }

    /// Whether the window has already handed cookies on.
    pub fn is_triggered(&self) -> (r: bool)
        ensures
            r == self.spec_triggered(),
    {
        self.triggered
    }

    /// Whether a loaded page is on the host where a finished sign-in lands;
    /// a page without a host is not.
    pub fn is_messages_host(host: Option<&str>) -> (r: bool)
        ensures
            r == (host matches Some(h) && h@ == messages_host()),
    {
        match host {
            Some(h) => str_eq(h, "messages.google.com"),
            None => false,
        }
    }

    /// Looks at the cookies of a loaded page of Google Messages. The first
    /// time they hold a SAPISID, the window is marked and they are handed
    /// on by name, a later cookie replacing an earlier one of the same name;
    /// otherwise nothing is handed on and the window stays as it was.
    pub fn on_cookies(&mut self, cookies: &Vec<Cookie>) -> (r: Option<CookieMap>)
        ensures
            r is Some == pairs_on(old(self).spec_triggered(), cookies_view(cookies@)),
            r is Some <==> (!old(self).spec_triggered() && exists|i: int|
                0 <= i < cookies@.len() && #[trigger] cookies@[i].name@ == "SAPISID"@),
            final(self).spec_triggered() == (old(self).spec_triggered() || r is Some),
            r matches Some(m) ==> m@ == cookie_map(cookies_view(cookies@)),
    {
        proof {
            lemma_pairs_on_any_position(old(self).spec_triggered(), cookies_view(cookies@));
            if has_cookie_named(cookies_view(cookies@), sapisid()) {
                let k = choose|k: int|
                    0 <= k < cookies_view(cookies@).len() && #[trigger] cookies_view(cookies@)[k].name
                        == sapisid();
                assert(cookies@[k].name@ == "SAPISID"@);
            }
            if exists|i: int| 0 <= i < cookies@.len() && #[trigger] cookies@[i].name@ == "SAPISID"@ {
                let k = choose|k: int| 0 <= k < cookies@.len() && #[trigger] cookies@[k].name@ == "SAPISID"@;
                assert(cookies_view(cookies@)[k].name == sapisid());
            }
        }
        if !contains_cookie_named(cookies, "SAPISID") {
            return None;
        }
        if self.triggered {
            return None;
        }
        self.triggered = true;
        Some(cookie_map_of(cookies))
    }
}

/// A page load pairs exactly when the window has not paired yet and some
/// cookie of the page, wherever it stands, is named SAPISID.
pub proof fn lemma_pairs_on_any_position(triggered: bool, cs: Seq<CookieView>)
    ensures
        pairs_on(triggered, cs) <==> (!triggered && exists|i: int|
            0 <= i < cs.len() && #[trigger] cs[i].name == "SAPISID"@),
{
}

/// What a pairing page load hands on holds every cookie of the page by
/// name, SAPISID among them, each name with the value of its last cookie.
pub proof fn lemma_handed_on_cookies(cs: Seq<CookieView>, name: Seq<char>, i: int)
    requires
        pairs_on(false, cs),
        0 <= i < cs.len(),
        cs[i].name == name,
        forall|j: int| i < j < cs.len() ==> #[trigger] cs[j].name != name,
    ensures
        cookie_map(cs).contains_key("SAPISID"@),
        cookie_map(cs).contains_key(name),
        cookie_map(cs)[name] == cs[i].value,
{
    lemma_cookie_map_lookup(cs, name);
    lemma_cookie_map_lookup(cs, "SAPISID"@);
}

/// However many pages a sign-in window loads, it pairs at most once, and
/// not at all once it has paired.
pub proof fn lemma_pairs_at_most_once(triggered: bool, loads: Seq<Seq<CookieView>>)
    ensures
        pairings(triggered, loads) <= 1,
        triggered ==> pairings(triggered, loads) == 0,
    decreases loads.len(),
{
    if loads.len() > 0 {
        let fired = pairs_on(triggered, loads[0]);
        lemma_pairs_at_most_once(triggered || fired, loads.drop_first());
    }
}

} // verus!
