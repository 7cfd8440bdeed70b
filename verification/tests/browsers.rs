use lumina_rcs::browsers::{
    candidates, display_name, extract_plan, extractor, google_domain, Browser, Platform,
};

#[test]
fn extractor_knows_common_browsers() {
    assert_eq!(extractor("brave", Platform::Other), Some(Browser::Brave));
    assert_eq!(extractor("chrome", Platform::Windows), Some(Browser::Chrome));
    assert_eq!(extractor("opera_gx", Platform::MacOs), Some(Browser::OperaGx));
    assert_eq!(extractor("zen", Platform::Other), Some(Browser::Zen));
    assert_eq!(extractor("netscape", Platform::Other), None);
    assert_eq!(extractor("", Platform::Other), None);
    assert_eq!(extractor("Brave", Platform::Other), None);
}

#[test]
fn extractor_platform_specific_browsers() {
    assert_eq!(extractor("safari", Platform::MacOs), Some(Browser::Safari));
    assert_eq!(extractor("safari", Platform::Other), None);
    assert_eq!(extractor("safari", Platform::Windows), None);
    assert_eq!(extractor("internet_explorer", Platform::Windows), Some(Browser::InternetExplorer));
    assert_eq!(extractor("internet_explorer", Platform::MacOs), None);
}

#[test]
fn display_names() {
    assert_eq!(display_name("brave"), "Brave");
    assert_eq!(display_name("chrome"), "Google Chrome");
    assert_eq!(display_name("edge"), "Microsoft Edge");
    assert_eq!(display_name("opera_gx"), "Opera GX");
    assert_eq!(display_name("librewolf"), "LibreWolf");
    assert_eq!(display_name("safari"), "Safari");
    assert_eq!(display_name("internet_explorer"), "Internet Explorer");
    assert_eq!(display_name("netscape"), "Unknown");
}

#[test]
fn candidates_in_priority_order() {
    let other = candidates(Platform::Other);
    assert_eq!(
        other,
        vec![
            "brave", "chrome", "chromium", "vivaldi", "edge", "opera", "opera_gx", "arc",
            "firefox", "librewolf", "zen"
        ]
    );
    let windows = candidates(Platform::Windows);
    assert_eq!(windows.len(), 12);
    assert_eq!(&windows[..11], &other[..]);
    assert_eq!(windows[11], "internet_explorer");
    let mac = candidates(Platform::MacOs);
    assert_eq!(mac.len(), 12);
    assert_eq!(mac[11], "safari");
}

#[test]
fn every_candidate_is_readable_and_named() {
    for p in [Platform::MacOs, Platform::Windows, Platform::Other] {
        for id in candidates(p) {
            assert!(extractor(id, p).is_some());
            assert_ne!(display_name(id), "Unknown");
        }
    }
}

#[test]
fn extract_plan_refuses_unknown_ids() {
    assert_eq!(extract_plan("firefox", Platform::Other), Ok(Browser::Firefox));
    assert_eq!(
        extract_plan("netscape", Platform::Other),
        Err("unsupported browser: netscape".to_string())
    );
    assert_eq!(
        extract_plan("safari", Platform::Windows),
        Err("unsupported browser: safari".to_string())
    );
}

#[test]
fn domain_is_google() {
    assert_eq!(google_domain(), "google.com");
}

#[test]
fn every_readable_browser_is_a_candidate() {
    let ids = [
        "brave", "chrome", "chromium", "edge", "vivaldi", "opera", "opera_gx", "arc", "firefox",
        "librewolf", "zen", "safari", "internet_explorer", "netscape",
    ];
    for p in [Platform::MacOs, Platform::Windows, Platform::Other] {
        let c = candidates(p);
        for id in ids {
            assert_eq!(extractor(id, p).is_some(), c.contains(&id));
        }
    }
}
