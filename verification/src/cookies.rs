//! Reading Google session cookies out of the browsers the user is signed
//! into: which browsers yielded something, and whether what one yielded can
//! be used to pair.
use vstd::prelude::*;
use vstd::string::StringExecFns;
use crate::browsers::{display_name, spec_display_name};
use crate::cookie_jar::{
    contains_cookie_named, cookie_map, cookie_map_of, cookies_view, has_cookie_named, lemma_cookie_map_lookup,
    Cookie, CookieMap, CookieView,
};

verus! {

/// The name of the cookie without which Google Messages does not pair.
pub open spec fn sapisid() -> Seq<char> {
    "SAPISID"@
}

/// A browser that yielded at least one google.com cookie.
#[derive(Debug)]
pub struct DetectedBrowser {
    pub id: String,
    pub display: String,
    pub cookie_count: usize,
    pub has_sapisid: bool,
}

pub struct DetectedView {
    pub id: Seq<char>,
    pub display: Seq<char>,
    pub cookie_count: nat,
    pub has_sapisid: bool,
}

impl View for DetectedBrowser {
    type V = DetectedView;

    open spec fn view(&self) -> DetectedView {
        DetectedView {
            id: self.id@,
            display: self.display@,
            cookie_count: self.cookie_count as nat,
            has_sapisid: self.has_sapisid,
        }
    }
}

/// What reading the google.com cookies of one browser gave: its cookies,
/// or the reason they could not be read.
#[derive(Debug)]
pub struct BrowserProbe {
    pub id: String,
    pub outcome: Result<Vec<Cookie>, String>,
}

pub struct ProbeView {
    pub id: Seq<char>,
    pub outcome: Result<Seq<CookieView>, Seq<char>>,
}

impl View for BrowserProbe {
    type V = ProbeView;

    open spec fn view(&self) -> ProbeView {
        ProbeView {
            id: self.id@,
            outcome: match self.outcome {
                Ok(cs) => Ok(cookies_view(cs@)),
                Err(e) => Err(e@),
            },
        }
    }
}

/// Google session cookies taken from one browser, by name.
#[derive(Debug)]
pub struct ImportedCookies {
    pub browser: String,
    pub cookies: CookieMap,
}

/// What a probe reports: a browser whose read succeeded with at least one
/// cookie is detected; a failed or empty read is passed over.
pub open spec fn detection(p: ProbeView) -> Option<DetectedView> {
    match p.outcome {
        Ok(cs) => if cs.len() > 0 {
            Some(
                DetectedView {
                    id: p.id,
                    display: spec_display_name(p.id),
                    cookie_count: cs.len(),
                    has_sapisid: has_cookie_named(cs, sapisid()),
                },
            )
        } else {
            None
        },
        Err(_) => None,
    }
}

/// The detected browsers of a sequence of probes, in probe order.
pub open spec fn detections(ps: Seq<ProbeView>) -> Seq<DetectedView>
    decreases ps.len(),
{
    if ps.len() == 0 {
        Seq::empty()
    } else {
        match detection(ps.last()) {
            Some(d) => detections(ps.drop_last()).push(d),
            None => detections(ps.drop_last()),
        }
    }
}

pub open spec fn probes_view(ps: Seq<BrowserProbe>) -> Seq<ProbeView> {
    ps.map_values(|p: BrowserProbe| p@)
}

pub open spec fn detected_view(ds: Seq<DetectedBrowser>) -> Seq<DetectedView> {
    ds.map_values(|d: DetectedBrowser| d@)
}

/// The error for a browser that has no google.com cookies.
pub open spec fn no_cookies_message(browser: Seq<char>) -> Seq<char> {
    spec_display_name(browser)
        + " has no google.com cookies. Sign into messages.google.com/web in that browser first."@
}

/// The error for a browser whose google.com cookies hold no SAPISID.
pub open spec fn no_sapisid_message(browser: Seq<char>) -> Seq<char> {
    spec_display_name(browser)
        + " has google.com cookies but no SAPISID. Make sure you're signed into messages.google.com/web in that browser."@
}

/// What importing the cookies that a read of `browser` gave comes to: the
/// read's own error; an error when it found no cookie, or no SAPISID; else
/// the cookies by name.
pub open spec fn import_outcome(
    browser: Seq<char>,
    extracted: Result<Seq<CookieView>, Seq<char>>,
) -> Result<Map<Seq<char>, Seq<char>>, Seq<char>> {
    match extracted {
        Err(e) => Err(e),
        Ok(cs) => if cs.len() == 0 {
            Err(no_cookies_message(browser))
        } else if !has_cookie_named(cs, sapisid()) {
            Err(no_sapisid_message(browser))
        } else {
            Ok(cookie_map(cs))
        },
    }
}

/// The browsers among `probes` that yielded at least one google.com cookie,
/// in the order of `probes`, each with its display name, the number of
/// cookies it yielded and whether a SAPISID was among them.
pub fn detect(probes: &Vec<BrowserProbe>) -> (r: Vec<DetectedBrowser>)
    ensures
        detected_view(r@) == detections(probes_view(probes@)),
{
    let mut found: Vec<DetectedBrowser> = Vec::new();
    let n = probes.len();
    let mut i: usize = 0;
    while i < n
        invariant
            n == probes@.len(),
            i <= n,
            detected_view(found@) == detections(probes_view(probes@).take(i as int)),
        decreases n - i,
    {
        let probe = &probes[i];
        let ghost ps = probes_view(probes@).take(i + 1);
        proof {
            assert(ps.drop_last() =~= probes_view(probes@).take(i as int));
            assert(ps.last() == probe@);
        }
        match &probe.outcome {
            Ok(cookies) => {
                if cookies.len() > 0 {
                    let has_sapisid = contains_cookie_named(cookies, "SAPISID");
                    let d = DetectedBrowser {
                        id: probe.id.clone(),
                        display: String::from_str(display_name(probe.id.as_str())),
                        cookie_count: cookies.len(),
                        has_sapisid,
                    };
                    found.push(d);
                    assert(detected_view(found@) =~= detections(ps));
                } else {
                    assert(detected_view(found@) =~= detections(ps));
                }
            },
            Err(_) => {
                assert(detected_view(found@) =~= detections(ps));
            },
        }
        i = i + 1;
    }
    assert(probes_view(probes@).take(n as int) =~= probes_view(probes@));
    found
}

/// Takes the cookies that a read of `browser` gave, as `import_outcome`
/// says: the read's error is passed on; a read with no cookie, or with no
/// SAPISID, is refused with a message that names the browser; otherwise
/// the cookies are kept by name, a later cookie replacing an earlier one of
/// the same name.
pub fn import(browser: &str, extracted: Result<Vec<Cookie>, String>) -> (r: Result<
    ImportedCookies,
    String,
>)
    ensures
        match (r, extracted) {
            (Ok(ic), Ok(cs)) => ic.browser@ == browser@ && import_outcome(
                browser@,
                Ok(cookies_view(cs@)),
            ) == Ok::<Map<Seq<char>, Seq<char>>, Seq<char>>(ic.cookies@),
            (Err(e), Ok(cs)) => import_outcome(browser@, Ok(cookies_view(cs@))) == Err::<
                Map<Seq<char>, Seq<char>>,
                Seq<char>,
            >(e@),
            (Err(e), Err(x)) => e@ == x@,
            (Ok(_), Err(_)) => false,
        },
{
    let cookies = match extracted {
        Ok(cookies) => cookies,
        Err(e) => return Err(e),
    };
    if cookies.len() == 0 {
        return Err(
            String::from_str(display_name(browser)).concat(
                " has no google.com cookies. Sign into messages.google.com/web in that browser first.",
            ),
        );
    }
    let map = cookie_map_of(&cookies);
    proof {
        lemma_cookie_map_lookup(cookies_view(cookies@), sapisid());
    }
    if !map.contains_key("SAPISID") {
        return Err(
            String::from_str(display_name(browser)).concat(
                " has google.com cookies but no SAPISID. Make sure you're signed into messages.google.com/web in that browser.",
            ),
        );
    }
    Ok(ImportedCookies { browser: String::from_str(browser), cookies: map })
}

/// Detection reports every browser that yielded at least one cookie and no
/// other: each reported browser is what some probe detected, with at least
/// one cookie, and each probe that yielded a cookie is reported.
pub proof fn lemma_detections_exact(ps: Seq<ProbeView>)
    ensures
        detections(ps).len() <= ps.len(),
        forall|k: int|
            0 <= k < detections(ps).len() ==> (#[trigger] detections(ps)[k]).cookie_count > 0
                && exists|j: int| 0 <= j < ps.len() && detection(#[trigger] ps[j]) == Some(detections(ps)[k]),
        forall|j: int|
            0 <= j < ps.len() && (#[trigger] detection(ps[j])) is Some ==> exists|k: int|
                0 <= k < detections(ps).len() && Some(#[trigger] detections(ps)[k])
                    == detection(ps[j]),
    decreases ps.len(),
{
    if ps.len() > 0 {
        let dl = ps.drop_last();
        lemma_detections_exact(dl);
        let ds = detections(ps);
        let dd = detections(dl);
        assert forall|k: int| 0 <= k < ds.len() implies (#[trigger] ds[k]).cookie_count > 0
            && exists|j: int| 0 <= j < ps.len() && detection(#[trigger] ps[j]) == Some(ds[k]) by {
            if k < dd.len() {
                assert(ds[k] == dd[k]);
                let j = choose|j: int| 0 <= j < dl.len() && detection(#[trigger] dl[j]) == Some(dd[k]);
                assert(ps[j] == dl[j]);
            } else {
                assert(detection(ps[ps.len() - 1]) == Some(ds[k]));
            }
        }
        assert forall|j: int| 0 <= j < ps.len() && (#[trigger] detection(ps[j])) is Some implies exists|k: int|
            0 <= k < ds.len() && Some(#[trigger] ds[k]) == detection(ps[j]) by {
            if j < dl.len() {
                assert(dl[j] == ps[j]);
                let k = choose|k: int| 0 <= k < dd.len() && Some(#[trigger] dd[k]) == detection(dl[j]);
                assert(ds[k] == dd[k]);
            } else {
                assert(ds[ds.len() - 1] == detection(ps[j]).unwrap());
            }
        }
    }
}

/// What the picker shows agrees with what an import of the same read
/// does: a read is imported exactly when it was detected with a SAPISID.
pub proof fn lemma_detected_with_sapisid_imports(p: ProbeView)
    ensures
        (detection(p) matches Some(d) && d.has_sapisid) <==> import_outcome(p.id, p.outcome) is Ok,
{
}

/// An import that succeeds holds a SAPISID: the cookie without which
/// pairing is refused.
pub proof fn lemma_import_keeps_sapisid(
    browser: Seq<char>,
    extracted: Result<Seq<CookieView>, Seq<char>>,
)
    ensures
        import_outcome(browser, extracted) matches Ok(m) ==> m.contains_key(sapisid()),
        import_outcome(browser, extracted) is Ok <==> (extracted matches Ok(cs) && cs.len() > 0
            && has_cookie_named(cs, sapisid())),
{
    if let Ok(cs) = extracted {
        lemma_cookie_map_lookup(cs, sapisid());
    }
}

/// What a probe reports of a browser: it is reported exactly when its read
/// succeeded with at least one cookie, under its own id and display name,
/// with the number of cookies read and whether one of them, wherever it
/// stands, is named SAPISID.
pub proof fn lemma_detection_of_probe(p: ProbeView)
    ensures
        detection(p) is Some <==> (p.outcome is Ok && p.outcome->Ok_0.len() > 0),
        detection(p) is Some ==> {
            let d = detection(p)->0;
            &&& d.id == p.id
            &&& d.display == spec_display_name(p.id)
            &&& d.cookie_count == p.outcome->Ok_0.len()
            &&& d.cookie_count > 0
            &&& (d.has_sapisid <==> exists|i: int|
                0 <= i < p.outcome->Ok_0.len() && #[trigger] p.outcome->Ok_0[i].name == "SAPISID"@)
        },
{
}

/// An import that succeeds keeps every cookie it was given, by name: the
/// names are exactly those of the cookies, and each maps to the value of
/// the last cookie of that name; its errors are those of the read, or name
/// the browser.
pub proof fn lemma_import_keeps_every_cookie(
    browser: Seq<char>,
    cs: Seq<CookieView>,
    name: Seq<char>,
    i: int,
)
    requires
        0 <= i < cs.len(),
        cs[i].name == name,
        forall|j: int| i < j < cs.len() ==> #[trigger] cs[j].name != name,
    ensures
        import_outcome(browser, Ok(cs)) is Ok ==> {
            &&& import_outcome(browser, Ok(cs))->Ok_0.contains_key(name)
            &&& import_outcome(browser, Ok(cs))->Ok_0[name] == cs[i].value
        },
        import_outcome(browser, Ok(cs)) is Ok ==> forall|n: Seq<char>|
            #[trigger] import_outcome(browser, Ok(cs))->Ok_0.contains_key(n) ==> exists|j: int|
                0 <= j < cs.len() && #[trigger] cs[j].name == n,
        import_outcome(browser, Ok(cs)) is Err ==> {
            ||| import_outcome(browser, Ok(cs))->Err_0 == spec_display_name(browser)
                + " has no google.com cookies. Sign into messages.google.com/web in that browser first."@
            ||| import_outcome(browser, Ok(cs))->Err_0 == spec_display_name(browser)
                + " has google.com cookies but no SAPISID. Make sure you're signed into messages.google.com/web in that browser."@
        },
{
    lemma_cookie_map_lookup(cs, name);
    assert forall|n: Seq<char>| #[trigger] cookie_map(cs).contains_key(n) implies exists|j: int|
        0 <= j < cs.len() && #[trigger] cs[j].name == n by {
        lemma_cookie_map_lookup(cs, n);
    }
}

} // verus!
