use vncviewer::connect::{ConnectForm, SavedFields, SubmitOutcome};
use vncviewer::profile::ConnectionProfile;

fn profile(name: &str, address: &str, port: &str, username: &str, password: &str) -> ConnectionProfile {
    ConnectionProfile {
        name: name.to_string(),
        address: address.to_string(),
        port: port.to_string(),
        username: username.to_string(),
        password: password.to_string(),
    }
}

fn key(p: &ConnectionProfile) -> (String, String, String, String, String) {
    (p.name.clone(), p.address.clone(), p.port.clone(), p.username.clone(), p.password.clone())
}

fn no_saved() -> SavedFields {
    SavedFields { address: None, port: None, username: None, password: None }
}

fn form(profiles: Vec<ConnectionProfile>, selected: Option<usize>, current: ConnectionProfile) -> ConnectForm {
    ConnectForm { profiles, selected, current }
}

#[test]
fn from_store_uses_address_book() {
    let book = vec![profile("a", "h1", "1", "", ""), profile("b", "h2", "2", "", "")];
    let f = ConnectForm::from_store(Some(book), || -> SavedFields { panic!("saved fields must not be read") });
    assert_eq!(f.profiles.len(), 2);
    assert_eq!(f.selected, Some(0));
    assert_eq!(key(&f.current), key(&profile("a", "h1", "1", "", "")));
}

#[test]
fn from_store_with_empty_book_starts_fresh() {
    let f = ConnectForm::from_store(Some(Vec::new()), || -> SavedFields { panic!("saved fields must not be read") });
    assert!(f.profiles.is_empty());
    assert_eq!(f.selected, None);
    assert_eq!(key(&f.current), key(&profile("", "192.168.0.1", "5900", "", "")));
}

#[test]
fn from_store_without_book_reads_saved_fields() {
    let f = ConnectForm::from_store(None, || SavedFields {
        address: Some("10.1.1.1".to_string()),
        port: None,
        username: Some("root".to_string()),
        password: Some("pw".to_string()),
    });
    assert!(f.profiles.is_empty());
    assert_eq!(f.selected, None);
    assert_eq!(key(&f.current), key(&profile("", "10.1.1.1", "5900", "root", "pw")));
    let g = ConnectForm::from_store(None, no_saved);
    assert_eq!(key(&g.current), key(&profile("", "192.168.0.1", "5900", "", "")));
}

#[test]
fn save_current_puts_trimmed_profile_first() {
    let mut f = form(
        vec![
            profile("one", "h1", "1", "u", "p"),
            profile("two", "h2", "2", "", ""),
            profile("three", "h3", "3", "x", ""),
        ],
        Some(1),
        profile(" renamed ", " h3 ", " 3 ", " x ", " secret "),
    );
    f.save_current();
    let names: Vec<String> = f.profiles.iter().map(|p| p.name.clone()).collect();
    // the edited entry (index 1) and the entry for the same account (h3:3 x) are dropped
    assert_eq!(names, vec!["renamed", "one"]);
    assert_eq!(key(&f.profiles[0]), key(&profile("renamed", "h3", "3", "x", " secret ")));
    assert_eq!(key(&f.current), key(&f.profiles[0]));
    assert_eq!(f.selected, Some(0));
}

#[test]
fn save_current_with_out_of_range_selection_drops_nothing_but_duplicates() {
    let mut f = form(vec![profile("a", "h", "1", "", "")], Some(7), profile("b", "g", "2", "", ""));
    f.save_current();
    let names: Vec<String> = f.profiles.iter().map(|p| p.name.clone()).collect();
    assert_eq!(names, vec!["b", "a"]);
    assert_eq!(f.selected, Some(0));
}

#[test]
fn save_current_twice_is_same_as_once() {
    let mut f = form(
        vec![profile("a", "h", "1", "", ""), profile("b", "g", "2", "", "")],
        None,
        profile(" c ", "h", "1", "", ""),
    );
    f.save_current();
    let once: Vec<_> = f.profiles.iter().map(key).collect();
    let current = key(&f.current);
    f.save_current();
    let twice: Vec<_> = f.profiles.iter().map(key).collect();
    assert_eq!(once, twice);
    assert_eq!(current, key(&f.current));
    assert_eq!(f.selected, Some(0));
}

#[test]
fn saving_keeps_accounts_distinct() {
    let mut f = form(
        vec![profile("a", "h", "1", "u", ""), profile("b", "g", "2", "", "")],
        None,
        profile("c", "g", "2", "", ""),
    );
    f.save_current();
    for i in 0..f.profiles.len() {
        for j in (i + 1)..f.profiles.len() {
            assert!(!f.profiles[i].same_account(&f.profiles[j]));
        }
    }
    assert_eq!(f.profiles.len(), 2);
}

#[test]
fn pick_loads_entry_or_clears_name() {
    let mut f = form(vec![profile("a", "h", "1", "u", "p")], None, profile("typed", "x", "9", "", ""));
    f.pick(Some(0));
    assert_eq!(f.selected, Some(0));
    assert_eq!(key(&f.current), key(&profile("a", "h", "1", "u", "p")));
    assert!(!f.rename_pending());
    f.pick(None);
    assert_eq!(f.selected, None);
    assert_eq!(key(&f.current), key(&profile("", "h", "1", "u", "p")));
    f.pick(Some(5));
    assert_eq!(f.selected, None);
    // choosing the current selection again changes nothing
    f.current.name = "kept".to_string();
    f.pick(None);
    assert_eq!(f.current.name, "kept");
}

#[test]
fn delete_selected_removes_entry() {
    let mut f = form(
        vec![profile("a", "h", "1", "", ""), profile("b", "g", "2", "", "")],
        Some(0),
        profile("a", "h", "1", "", ""),
    );
    assert!(f.delete_selected());
    assert_eq!(f.profiles.len(), 1);
    assert_eq!(f.profiles[0].name, "b");
    assert_eq!(f.selected, None);
    assert_eq!(f.current.name, "");
    assert_eq!(f.current.address, "h");
    assert!(!f.delete_selected());
    let mut g = form(vec![profile("a", "h", "1", "", "")], Some(3), profile("z", "", "", "", ""));
    assert!(!g.delete_selected());
    assert_eq!(g.selected, None);
    assert_eq!(g.profiles.len(), 1);
    assert_eq!(g.current.name, "z");
}

#[test]
fn can_connect_needs_address_and_port() {
    assert!(form(vec![], None, profile("", "h", "1", "", "")).can_connect());
    assert!(!form(vec![], None, profile("", "  ", "1", "", "")).can_connect());
    assert!(!form(vec![], None, profile("", "h", " ", "", "")).can_connect());
}

#[test]
fn rename_pending_compares_with_selected_name() {
    let book = vec![profile(" Work ", "h", "1", "", "")];
    assert!(!form(book.clone(), Some(0), profile("Work", "h", "1", "", "")).rename_pending());
    assert!(form(book.clone(), Some(0), profile("Home", "h", "1", "", "")).rename_pending());
    assert!(!form(book.clone(), None, profile("  ", "h", "1", "", "")).rename_pending());
    assert!(form(book, None, profile("New", "h", "1", "", "")).rename_pending());
}

#[test]
fn selected_label_names_entry() {
    let book = vec![profile("", "h", "1", "bob", "")];
    assert_eq!(form(book.clone(), Some(0), profile("", "", "", "", "")).selected_label(), "h:1 (bob)");
    assert_eq!(form(book.clone(), None, profile("", "", "", "", "")).selected_label(), "New connection");
    assert_eq!(form(book, Some(4), profile("", "", "", "", "")).selected_label(), "New connection");
}

#[test]
fn sanitize_port_filters_digits() {
    let mut f = form(vec![], None, profile("n", "a", "59a0b0", "u", "p"));
    f.sanitize_port();
    assert_eq!(f.current.port, "5900");
    assert_eq!(f.current.address, "a");
}

#[test]
fn submit_idle_without_click_or_enter() {
    let mut f = form(vec![], None, profile("", "h", "1", "", ""));
    assert!(matches!(f.submit(false, false), SubmitOutcome::Idle));
    assert!(f.profiles.is_empty());
    let mut g = form(vec![], None, profile("", "", "1", "", ""));
    assert!(matches!(g.submit(false, true), SubmitOutcome::Idle));
}

#[test]
fn submit_connects_with_credentials() {
    let mut f = form(vec![], None, profile("", " host ", "5900", "", "pw"));
    match f.submit(false, true) {
        SubmitOutcome::Connect(req) => {
            assert_eq!(req.host, "host:5900");
            assert_eq!(req.username, None);
            assert_eq!(req.password, Some("pw".to_string()));
        }
        _ => panic!("expected a connection request"),
    }
    assert_eq!(f.profiles.len(), 1);
    assert_eq!(f.selected, Some(0));
}

#[test]
fn submit_with_new_name_only_saves() {
    let mut f = form(vec![], None, profile("Office", "h", "1", "u", ""));
    assert!(matches!(f.submit(true, false), SubmitOutcome::Saved));
    assert_eq!(f.profiles.len(), 1);
    assert_eq!(f.profiles[0].name, "Office");
    // now the name matches the selected entry: the next submit connects
    match f.submit(true, false) {
        SubmitOutcome::Connect(req) => {
            assert_eq!(req.host, "h:1");
            assert_eq!(req.username, Some("u".to_string()));
            assert_eq!(req.password, None);
        }
        _ => panic!("expected a connection request"),
    }
}
