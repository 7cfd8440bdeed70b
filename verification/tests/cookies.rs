use lumina_rcs::cookie_jar::{contains_cookie_named, cookie_map_of, Cookie, CookieMap};
use lumina_rcs::cookies::{detect, import, BrowserProbe};

fn c(name: &str, value: &str) -> Cookie {
    Cookie::new(name.to_string(), value.to_string())
}

#[test]
fn cookie_map_insert_and_replace() {
    let mut m = CookieMap::new();
    assert_eq!(m.len(), 0);
    assert!(!m.contains_key("SID"));
    m.insert("SID".to_string(), "a".to_string());
    m.insert("HSID".to_string(), "b".to_string());
    assert_eq!(m.get("SID").map(|s| s.as_str()), Some("a"));
    m.insert("SID".to_string(), "c".to_string());
    assert_eq!(m.get("SID").map(|s| s.as_str()), Some("c"));
    assert_eq!(m.get("HSID").map(|s| s.as_str()), Some("b"));
    assert_eq!(m.get("SSID"), None);
    assert_eq!(m.len(), 2);
    let names: Vec<&str> = m.entries().iter().map(|e| e.name.as_str()).collect();
    assert_eq!(names, vec!["SID", "HSID"]);
}

#[test]
fn cookie_map_of_keeps_last_value() {
    let cs = vec![c("SAPISID", "1"), c("SID", "2"), c("SAPISID", "3")];
    let m = cookie_map_of(&cs);
    assert_eq!(m.len(), 2);
    assert_eq!(m.get("SAPISID").map(|s| s.as_str()), Some("3"));
    assert_eq!(m.get("SID").map(|s| s.as_str()), Some("2"));
}

#[test]
fn contains_named() {
    let cs = vec![c("SID", "2"), c("SAPISID", "3")];
    assert!(contains_cookie_named(&cs, "SAPISID"));
    assert!(!contains_cookie_named(&cs, "APISID"));
    assert!(!contains_cookie_named(&Vec::new(), "SAPISID"));
}

#[test]
fn detect_reports_browsers_with_cookies_in_order() {
    let probes = vec![
        BrowserProbe { id: "brave".to_string(), outcome: Err("not installed".to_string()) },
        BrowserProbe { id: "chrome".to_string(), outcome: Ok(vec![c("SID", "x"), c("SAPISID", "y")]) },
        BrowserProbe { id: "chromium".to_string(), outcome: Ok(vec![]) },
        BrowserProbe { id: "firefox".to_string(), outcome: Ok(vec![c("HSID", "z")]) },
    ];
    let found = detect(&probes);
    assert_eq!(found.len(), 2);
    assert_eq!(found[0].id, "chrome");
    assert_eq!(found[0].display, "Google Chrome");
    assert_eq!(found[0].cookie_count, 2);
    assert!(found[0].has_sapisid);
    assert_eq!(found[1].id, "firefox");
    assert_eq!(found[1].display, "Firefox");
    assert_eq!(found[1].cookie_count, 1);
    assert!(!found[1].has_sapisid);
}

#[test]
fn detect_of_nothing_is_nothing() {
    assert!(detect(&Vec::new()).is_empty());
    let probes = vec![BrowserProbe { id: "zen".to_string(), outcome: Ok(vec![]) }];
    assert!(detect(&probes).is_empty());
}

#[test]
fn import_passes_read_error_on() {
    match import("brave", Err("unsupported browser: brave".to_string())) {
        Err(e) => assert_eq!(e, "unsupported browser: brave"),
        Ok(_) => panic!("expected an error"),
    }
}

#[test]
fn import_refuses_empty_read() {
    match import("chrome", Ok(vec![])) {
        Err(e) => assert_eq!(
            e,
            "Google Chrome has no google.com cookies. Sign into messages.google.com/web in that browser first."
        ),
        Ok(_) => panic!("expected an error"),
    }
}

#[test]
fn import_refuses_read_without_sapisid() {
    match import("firefox", Ok(vec![c("SID", "1"), c("HSID", "2")])) {
        Err(e) => assert_eq!(
            e,
            "Firefox has google.com cookies but no SAPISID. Make sure you're signed into messages.google.com/web in that browser."
        ),
        Ok(_) => panic!("expected an error"),
    }
}

#[test]
fn import_keeps_cookies_by_name() {
    let got = import("vivaldi", Ok(vec![c("SID", "1"), c("SAPISID", "2"), c("SID", "3")]));
    match got {
        Ok(ic) => {
            assert_eq!(ic.browser, "vivaldi");
            assert_eq!(ic.cookies.len(), 2);
            assert_eq!(ic.cookies.get("SID").map(|s| s.as_str()), Some("3"));
            assert_eq!(ic.cookies.get("SAPISID").map(|s| s.as_str()), Some("2"));
        }
        Err(e) => panic!("unexpected error {e}"),
    }
}

#[test]
fn import_names_unknown_browser_in_errors() {
    match import("netscape", Ok(vec![])) {
        Err(e) => assert!(e.starts_with("Unknown has no google.com cookies.")),
        Ok(_) => panic!("expected an error"),
    }
}
