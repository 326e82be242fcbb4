use vncviewer::profile::ConnectionProfile;
use vncviewer::text::{chars_of, is_white_space, retain_ascii_digits, trim};

fn profile(name: &str, address: &str, port: &str, username: &str, password: &str) -> ConnectionProfile {
    ConnectionProfile {
        name: name.to_string(),
        address: address.to_string(),
        port: port.to_string(),
        username: username.to_string(),
        password: password.to_string(),
    }
}

#[test]
fn trim_removes_surrounding_whitespace() {
    assert_eq!(trim("  host \t\n"), "host");
    assert_eq!(trim("a b"), "a b");
    assert_eq!(trim(""), "");
    assert_eq!(trim(" \t "), "");
    assert_eq!(trim("\u{3000}x\u{a0}"), "x");
    assert_eq!(trim(" x y "), "x y");
}

#[test]
fn trim_is_idempotent_on_examples() {
    for s in ["  a  ", "\u{2003}b c\n", "", "   "] {
        let once = trim(s);
        assert_eq!(trim(&once), once);
    }
}

#[test]
fn chars_of_keeps_every_char() {
    assert_eq!(chars_of("añb"), vec!['a', 'ñ', 'b']);
    assert_eq!(chars_of(""), Vec::<char>::new());
}

#[test]
fn retain_ascii_digits_keeps_only_digits() {
    let mut s = "5a9 0x".to_string();
    retain_ascii_digits(&mut s);
    assert_eq!(s, "590");
    let mut t = "٣12".to_string();
    retain_ascii_digits(&mut t);
    assert_eq!(t, "12");
    let mut u = String::new();
    retain_ascii_digits(&mut u);
    assert_eq!(u, "");
}

#[test]
fn default_name_cases() {
    assert_eq!(profile("", "", "", "", "").default_name(), "");
    assert_eq!(profile("", " host ", "", "", "").default_name(), "host");
    assert_eq!(profile("", "host", " 5900 ", "", "").default_name(), "host:5900");
    assert_eq!(profile("", "", "5900", "", "").default_name(), "");
    assert_eq!(profile("", "", "5900", " bob ", "").default_name(), "bob");
    assert_eq!(profile("", "host", "", "bob", "").default_name(), "host (bob)");
    assert_eq!(
        profile("", " 10.0.0.2", "5901 ", "alice", "pw").default_name(),
        "10.0.0.2:5901 (alice)"
    );
}

#[test]
fn display_name_prefers_own_name() {
    assert_eq!(profile("  Work  ", "h", "1", "", "").display_name(), "Work");
    assert_eq!(profile("   ", "h", "1", "", "").display_name(), "h:1");
}

#[test]
fn normalized_trims_all_but_password() {
    let p = profile(" n ", " a ", " 1 ", " u ", " pw ").normalized();
    assert_eq!(p.name, "n");
    assert_eq!(p.address, "a");
    assert_eq!(p.port, "1");
    assert_eq!(p.username, "u");
    assert_eq!(p.password, " pw ");
}

#[test]
fn same_account_compares_address_port_username() {
    let a = profile("x", "h", "1", "u", "p");
    assert!(a.same_account(&profile("y", "h", "1", "u", "q")));
    assert!(!a.same_account(&profile("x", "h", "2", "u", "p")));
    assert!(!a.same_account(&profile("x", "g", "1", "u", "p")));
    assert!(!a.same_account(&profile("x", "h", "1", "v", "p")));
}

#[test]
fn clone_and_empty() {
    let a = profile("n", "a", "p", "u", "w");
    let b = a.clone();
    assert_eq!((b.name, b.address, b.port, b.username, b.password), ("n".into(), "a".into(), "p".into(), "u".into(), "w".into()));
    let e = ConnectionProfile::empty();
    assert!(e.name.is_empty() && e.address.is_empty() && e.port.is_empty());
    assert!(e.username.is_empty() && e.password.is_empty());
}

#[test]
fn white_space_matches_std_on_every_char() {
    for code in 0u32..=0x10ffff {
        if let Some(c) = char::from_u32(code) {
            assert_eq!(is_white_space(c), c.is_whitespace(), "U+{code:04X}");
        }
    }
}
