//! The browsers whose cookie stores the client can read, and how they are
//! named and ordered.
use vstd::prelude::*;
use vstd::string::StringExecFns;
use crate::text::str_eq;

verus! {

/// The operating system the client runs on, as far as it changes which
/// browsers can be read.
#[derive(Clone, Copy, Debug, PartialEq, Eq, Structural)]
pub enum Platform {
    MacOs,
    Windows,
    Other,
}

/// A browser whose cookie store can be read.
#[derive(Clone, Copy, Debug, PartialEq, Eq, Structural)]
pub enum Browser {
    Brave,
    Chrome,
    Chromium,
    Edge,
    Vivaldi,
    Opera,
    OperaGx,
    Arc,
    Firefox,
    LibreWolf,
    Zen,
    Safari,
    InternetExplorer,
}

/// The browser that a browser id names on a platform, if it can be read there.
pub open spec fn spec_extractor(id: Seq<char>, platform: Platform) -> Option<Browser> {
    if id == "brave"@ {
        Some(Browser::Brave)
    } else if id == "chrome"@ {
        Some(Browser::Chrome)
    } else if id == "chromium"@ {
        Some(Browser::Chromium)
    } else if id == "edge"@ {
        Some(Browser::Edge)
    } else if id == "vivaldi"@ {
        Some(Browser::Vivaldi)
    } else if id == "opera"@ {
        Some(Browser::Opera)
    } else if id == "opera_gx"@ {
        Some(Browser::OperaGx)
    } else if id == "arc"@ {
        Some(Browser::Arc)
    } else if id == "firefox"@ {
        Some(Browser::Firefox)
    } else if id == "librewolf"@ {
        Some(Browser::LibreWolf)
    } else if id == "zen"@ {
        Some(Browser::Zen)
    } else if id == "safari"@ && platform == Platform::MacOs {
        Some(Browser::Safari)
    } else if id == "internet_explorer"@ && platform == Platform::Windows {
        Some(Browser::InternetExplorer)
    } else {
        None
    }
}

/// The name under which a browser id is shown to the user.
pub open spec fn spec_display_name(id: Seq<char>) -> Seq<char> {
    if id == "brave"@ {
        "Brave"@
    } else if id == "chrome"@ {
        "Google Chrome"@
    } else if id == "chromium"@ {
        "Chromium"@
    } else if id == "edge"@ {
        "Microsoft Edge"@
    } else if id == "vivaldi"@ {
        "Vivaldi"@
    } else if id == "opera"@ {
        "Opera"@
    } else if id == "opera_gx"@ {
        "Opera GX"@
    } else if id == "arc"@ {
        "Arc"@
    } else if id == "firefox"@ {
        "Firefox"@
    } else if id == "librewolf"@ {
        "LibreWolf"@
    } else if id == "zen"@ {
        "Zen"@
    } else if id == "safari"@ {
        "Safari"@
    } else if id == "internet_explorer"@ {
        "Internet Explorer"@
    } else {
        "Unknown"@
    }
}

/// The browsers probed on a platform: every browser readable there, in the
/// order in which they are shown to the user and tried by an automatic
/// import.
pub open spec fn spec_candidates(platform: Platform) -> Seq<Seq<char>> {
    let common = seq![
        "brave"@,
        "chrome"@,
        "chromium"@,
        "vivaldi"@,
        "edge"@,
        "opera"@,
        "opera_gx"@,
        "arc"@,
        "firefox"@,
        "librewolf"@,
        "zen"@,
    ];
    if platform == Platform::MacOs {
        common.push("safari"@)
    } else if platform == Platform::Windows {
        common.push("internet_explorer"@)
    } else {
        common
    }
}

/// The id under which each browser is named.
pub open spec fn spec_browser_id(b: Browser) -> Seq<char> {
    match b {
        Browser::Brave => "brave"@,
        Browser::Chrome => "chrome"@,
        Browser::Chromium => "chromium"@,
        Browser::Edge => "edge"@,
        Browser::Vivaldi => "vivaldi"@,
        Browser::Opera => "opera"@,
        Browser::OperaGx => "opera_gx"@,
        Browser::Arc => "arc"@,
        Browser::Firefox => "firefox"@,
        Browser::LibreWolf => "librewolf"@,
        Browser::Zen => "zen"@,
        Browser::Safari => "safari"@,
        Browser::InternetExplorer => "internet_explorer"@,
    }
}

/// Whether a browser's store can be read on a platform: Safari only on
/// macOS, Internet Explorer only on Windows, every other browser anywhere.
pub open spec fn readable_on(b: Browser, platform: Platform) -> bool {
    match b {
        Browser::Safari => platform == Platform::MacOs,
        Browser::InternetExplorer => platform == Platform::Windows,
        _ => true,
    }
}

/// An id resolves to a browser only when it is that browser's own id, and
/// only on a platform where that browser can be read; so no two ids resolve
/// to the same browser.
pub proof fn lemma_extractor_names_the_browser(id: Seq<char>, platform: Platform)
    ensures
        spec_extractor(id, platform) matches Some(b) ==> id == spec_browser_id(b) && readable_on(
            b,
            platform,
        ),
{
}

/// Every browser's own id resolves to that browser on each platform where
/// it can be read, and to nothing elsewhere.
pub proof fn lemma_browser_id_resolves(b: Browser, platform: Platform)
    ensures
        readable_on(b, platform) ==> spec_extractor(spec_browser_id(b), platform) == Some(b),
        !readable_on(b, platform) ==> spec_extractor(spec_browser_id(b), platform) is None,
{
    broadcast use vstd::string::group_string_axioms;

    reveal_strlit("brave");
    reveal_strlit("chrome");
    reveal_strlit("chromium");
    reveal_strlit("edge");
    reveal_strlit("vivaldi");
    reveal_strlit("opera");
    reveal_strlit("opera_gx");
    reveal_strlit("arc");
    reveal_strlit("firefox");
    reveal_strlit("librewolf");
    reveal_strlit("zen");
    reveal_strlit("safari");
    reveal_strlit("internet_explorer");
    assert("brave"@.len() == 5 && "brave"@[0] == 'b');
    assert("chrome"@.len() == 6 && "chrome"@[0] == 'c');
    assert("chromium"@.len() == 8 && "chromium"@[0] == 'c');
    assert("edge"@.len() == 4 && "edge"@[0] == 'e');
    assert("vivaldi"@.len() == 7 && "vivaldi"@[0] == 'v');
    assert("opera"@.len() == 5 && "opera"@[0] == 'o');
    assert("opera_gx"@.len() == 8 && "opera_gx"@[0] == 'o');
    assert("arc"@.len() == 3 && "arc"@[0] == 'a');
    assert("firefox"@.len() == 7 && "firefox"@[0] == 'f');
    assert("librewolf"@.len() == 9 && "librewolf"@[0] == 'l');
    assert("zen"@.len() == 3 && "zen"@[0] == 'z');
    assert("safari"@.len() == 6 && "safari"@[0] == 's');
    assert("internet_explorer"@.len() == 17 && "internet_explorer"@[0] == 'i');
}

/// The name under which each browser is shown.
pub open spec fn spec_browser_display(b: Browser) -> Seq<char> {
    match b {
        Browser::Brave => "Brave"@,
        Browser::Chrome => "Google Chrome"@,
        Browser::Chromium => "Chromium"@,
        Browser::Edge => "Microsoft Edge"@,
        Browser::Vivaldi => "Vivaldi"@,
        Browser::Opera => "Opera"@,
        Browser::OperaGx => "Opera GX"@,
        Browser::Arc => "Arc"@,
        Browser::Firefox => "Firefox"@,
        Browser::LibreWolf => "LibreWolf"@,
        Browser::Zen => "Zen"@,
        Browser::Safari => "Safari"@,
        Browser::InternetExplorer => "Internet Explorer"@,
    }
}

/// Each browser's id is shown under that browser's own name, and an id that
/// is no browser's is shown as "Unknown".
pub proof fn lemma_display_name_of_browser(b: Browser, id: Seq<char>)
    ensures
        spec_display_name(spec_browser_id(b)) == spec_browser_display(b),
        (forall|c: Browser| id != #[trigger] spec_browser_id(c)) ==> spec_display_name(id)
            == "Unknown"@,
{
    broadcast use vstd::string::group_string_axioms;

    reveal_strlit("brave");
    reveal_strlit("chrome");
    reveal_strlit("chromium");
    reveal_strlit("edge");
    reveal_strlit("vivaldi");
    reveal_strlit("opera");
    reveal_strlit("opera_gx");
    reveal_strlit("arc");
    reveal_strlit("firefox");
    reveal_strlit("librewolf");
    reveal_strlit("zen");
    reveal_strlit("safari");
    reveal_strlit("internet_explorer");
    assert("brave"@.len() == 5 && "brave"@[0] == 'b');
    assert("chrome"@.len() == 6 && "chrome"@[0] == 'c');
    assert("chromium"@.len() == 8 && "chromium"@[0] == 'c');
    assert("edge"@.len() == 4 && "edge"@[0] == 'e');
    assert("vivaldi"@.len() == 7 && "vivaldi"@[0] == 'v');
    assert("opera"@.len() == 5 && "opera"@[0] == 'o');
    assert("opera_gx"@.len() == 8 && "opera_gx"@[0] == 'o');
    assert("arc"@.len() == 3 && "arc"@[0] == 'a');
    assert("firefox"@.len() == 7 && "firefox"@[0] == 'f');
    assert("librewolf"@.len() == 9 && "librewolf"@[0] == 'l');
    assert("zen"@.len() == 3 && "zen"@[0] == 'z');
    assert("safari"@.len() == 6 && "safari"@[0] == 's');
    assert("internet_explorer"@.len() == 17 && "internet_explorer"@[0] == 'i');
    if forall|c: Browser| id != #[trigger] spec_browser_id(c) {
        assert(id != spec_browser_id(Browser::Brave));
        assert(id != spec_browser_id(Browser::Chrome));
        assert(id != spec_browser_id(Browser::Chromium));
        assert(id != spec_browser_id(Browser::Edge));
        assert(id != spec_browser_id(Browser::Vivaldi));
        assert(id != spec_browser_id(Browser::Opera));
        assert(id != spec_browser_id(Browser::OperaGx));
        assert(id != spec_browser_id(Browser::Arc));
        assert(id != spec_browser_id(Browser::Firefox));
        assert(id != spec_browser_id(Browser::LibreWolf));
        assert(id != spec_browser_id(Browser::Zen));
        assert(id != spec_browser_id(Browser::Safari));
        assert(id != spec_browser_id(Browser::InternetExplorer));
    }
}

/// The domain whose cookies are read from a browser.
pub fn google_domain() -> (r: &'static str)
    ensures
        r@ == "google.com"@,
{
    "google.com"
}

/// The browser that `id` names, if its cookie store can be read on `platform`.
pub fn extractor(id: &str, platform: Platform) -> (r: Option<Browser>)
    ensures
        r == spec_extractor(id@, platform),
        r matches Some(b) ==> id@ == spec_browser_id(b) && readable_on(b, platform),
{
    proof {
        lemma_extractor_names_the_browser(id@, platform);
    }
    if str_eq(id, "brave") {
        Some(Browser::Brave)
    } else if str_eq(id, "chrome") {
        Some(Browser::Chrome)
    } else if str_eq(id, "chromium") {
        Some(Browser::Chromium)
    } else if str_eq(id, "edge") {
        Some(Browser::Edge)
    } else if str_eq(id, "vivaldi") {
        Some(Browser::Vivaldi)
    } else if str_eq(id, "opera") {
        Some(Browser::Opera)
    } else if str_eq(id, "opera_gx") {
        Some(Browser::OperaGx)
    } else if str_eq(id, "arc") {
        Some(Browser::Arc)
    } else if str_eq(id, "firefox") {
        Some(Browser::Firefox)
    } else if str_eq(id, "librewolf") {
        Some(Browser::LibreWolf)
    } else if str_eq(id, "zen") {
        Some(Browser::Zen)
    } else if str_eq(id, "safari") && platform == Platform::MacOs {
        Some(Browser::Safari)
    } else if str_eq(id, "internet_explorer") && platform == Platform::Windows {
        Some(Browser::InternetExplorer)
    } else {
        None
    }
}

/// The name under which the browser `id` is shown; "Unknown" for an id
/// that names no browser.
pub fn display_name(id: &str) -> (r: &'static str)
    ensures
        r@ == spec_display_name(id@),
{
    if str_eq(id, "brave") {
        "Brave"
    } else if str_eq(id, "chrome") {
        "Google Chrome"
    } else if str_eq(id, "chromium") {
        "Chromium"
    } else if str_eq(id, "edge") {
        "Microsoft Edge"
    } else if str_eq(id, "vivaldi") {
        "Vivaldi"
    } else if str_eq(id, "opera") {
        "Opera"
    } else if str_eq(id, "opera_gx") {
        "Opera GX"
    } else if str_eq(id, "arc") {
        "Arc"
    } else if str_eq(id, "firefox") {
        "Firefox"
    } else if str_eq(id, "librewolf") {
        "LibreWolf"
    } else if str_eq(id, "zen") {
        "Zen"
    } else if str_eq(id, "safari") {
        "Safari"
    } else if str_eq(id, "internet_explorer") {
        "Internet Explorer"
    } else {
        "Unknown"
    }
}

/// The browser ids probed on `platform`, in priority order.
pub fn candidates(platform: Platform) -> (r: Vec<&'static str>)
    ensures
        r@.map_values(|s: &str| s@) == spec_candidates(platform),
{
    let mut r: Vec<&'static str> = vec![
        "brave",
        "chrome",
        "chromium",
        "vivaldi",
        "edge",
        "opera",
        "opera_gx",
        "arc",
        "firefox",
        "librewolf",
        "zen",
    ];
    if platform == Platform::MacOs {
        r.push("safari");
    } else if platform == Platform::Windows {
        r.push("internet_explorer");
    }
    assert(r@.map_values(|s: &str| s@) =~= spec_candidates(platform));
    r
}

/// The browser to read for `id` on `platform`, or the error that the id
/// names no browser readable there.
pub fn extract_plan(id: &str, platform: Platform) -> (r: Result<Browser, String>)
    ensures
        match r {
            Ok(b) => spec_extractor(id@, platform) == Some(b),
            Err(e) => spec_extractor(id@, platform) is None && e@ == "unsupported browser: "@
                + id@,
        },
{
    match extractor(id, platform) {
        Some(b) => Ok(b),
        None => Err(String::from_str("unsupported browser: ").concat(id)),
    }
}

/// Every browser probed on a platform can be read there and has a name of
/// its own to be shown under.
pub proof fn lemma_candidates_are_readable(platform: Platform)
    ensures
        forall|i: int|
            0 <= i < spec_candidates(platform).len() ==> {
                &&& #[trigger] spec_extractor(spec_candidates(platform)[i], platform) is Some
                &&& spec_display_name(spec_candidates(platform)[i]) != "Unknown"@
            },
{
    broadcast use vstd::string::group_string_axioms;

    reveal_strlit("Unknown");
    reveal_strlit("Brave");
    reveal_strlit("Google Chrome");
    reveal_strlit("Chromium");
    reveal_strlit("Microsoft Edge");
    reveal_strlit("Vivaldi");
    reveal_strlit("Opera");
    reveal_strlit("Opera GX");
    reveal_strlit("Arc");
    reveal_strlit("Firefox");
    reveal_strlit("LibreWolf");
    reveal_strlit("Zen");
    reveal_strlit("Safari");
    reveal_strlit("Internet Explorer");
    assert("Unknown"@[0] == 'U');
    assert("Brave"@[0] == 'B');
    assert("Google Chrome"@[0] == 'G');
    assert("Chromium"@[0] == 'C');
    assert("Microsoft Edge"@[0] == 'M');
    assert("Vivaldi"@[0] == 'V');
    assert("Opera"@[0] == 'O');
    assert("Opera GX"@[0] == 'O');
    assert("Arc"@[0] == 'A');
    assert("Firefox"@[0] == 'F');
    assert("LibreWolf"@[0] == 'L');
    assert("Zen"@[0] == 'Z');
    assert("Safari"@[0] == 'S');
    assert("Internet Explorer"@[0] == 'I');
    let c = spec_candidates(platform);
    assert forall|i: int| 0 <= i < c.len() implies {
        &&& #[trigger] spec_extractor(c[i], platform) is Some
        &&& spec_display_name(c[i]) != "Unknown"@
    } by {
        if i < 11 {
            assert(c[i] == seq![
                "brave"@, "chrome"@, "chromium"@, "vivaldi"@, "edge"@, "opera"@,
                "opera_gx"@, "arc"@, "firefox"@, "librewolf"@, "zen"@,
            ][i]);
        } else if platform == Platform::MacOs {
            assert(c[i] == "safari"@);
        } else {
            assert(platform == Platform::Windows && c[i] == "internet_explorer"@);
        }
    }
}

/// Every browser readable on a platform is probed there: the probe list
/// leaves out no supported browser.
pub proof fn lemma_every_readable_browser_is_probed(id: Seq<char>, platform: Platform)
    requires
        spec_extractor(id, platform) is Some,
    ensures
        spec_candidates(platform).contains(id),
{
    let c = spec_candidates(platform);
    if id == "brave"@ {
        assert(c[0] == id);
    } else if id == "chrome"@ {
        assert(c[1] == id);
    } else if id == "chromium"@ {
        assert(c[2] == id);
    } else if id == "vivaldi"@ {
        assert(c[3] == id);
    } else if id == "edge"@ {
        assert(c[4] == id);
    } else if id == "opera"@ {
        assert(c[5] == id);
    } else if id == "opera_gx"@ {
        assert(c[6] == id);
    } else if id == "arc"@ {
        assert(c[7] == id);
    } else if id == "firefox"@ {
        assert(c[8] == id);
    } else if id == "librewolf"@ {
        assert(c[9] == id);
    } else if id == "zen"@ {
        assert(c[10] == id);
    } else if id == "safari"@ {
        assert(c[11] == id);
    } else {
        assert(c[11] == id);
    }
}

} // verus!
