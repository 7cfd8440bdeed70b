use lumina_rcs::cookie_jar::Cookie;
use lumina_rcs::gaia::GaiaLogin;

fn c(name: &str, value: &str) -> Cookie {
    Cookie::new(name.to_string(), value.to_string())
}

#[test]
fn only_messages_host_counts() {
    assert!(GaiaLogin::is_messages_host(Some("messages.google.com")));
    assert!(!GaiaLogin::is_messages_host(Some("accounts.google.com")));
    assert!(!GaiaLogin::is_messages_host(Some("")));
    assert!(!GaiaLogin::is_messages_host(None));
}

#[test]
fn pairs_once_when_sapisid_appears() {
    let mut g = GaiaLogin::new();
    assert!(!g.is_triggered());
    assert!(g.on_cookies(&vec![c("NID", "1")]).is_none());
    assert!(!g.is_triggered());
    let m = g.on_cookies(&vec![c("SAPISID", "s"), c("SID", "t")]).unwrap();
    assert_eq!(m.get("SAPISID").map(|s| s.as_str()), Some("s"));
    assert_eq!(m.len(), 2);
    assert!(g.is_triggered());
    assert!(g.on_cookies(&vec![c("SAPISID", "s2")]).is_none());
    assert!(g.is_triggered());
}
