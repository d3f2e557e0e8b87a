use vault_nova::entries::{select_entry, sort_entries, EntrySelection};
use vault_nova::vault::{Entry, VaultData};

fn entry(service: &str, username: &str, password: &str) -> Entry {
    Entry {
        service: service.to_string(),
        username: username.to_string(),
        password: password.to_string(),
        notes: None,
        updated_at: 1,
    }
}

fn data() -> VaultData {
    VaultData {
        entries: vec![
            entry("gitlab", "bob", "p1"),
            entry("github", "alice", "p2"),
            entry("github", "carol", "p3"),
            entry("aws", "root", "p4"),
        ],
    }
}

#[test]
fn upsert_adds_a_new_account() {
    let mut d = data();
    let created = d.upsert_entry("github".into(), "dave".into(), "p5".into(), Some("n".into()), 9);
    assert!(created);
    assert_eq!(d.entries.len(), 5);
    let last = &d.entries[4];
    assert_eq!((last.service.as_str(), last.username.as_str(), last.password.as_str()), ("github", "dave", "p5"));
    assert_eq!(last.notes.as_deref(), Some("n"));
    assert_eq!(last.updated_at, 9);
}

#[test]
fn upsert_updates_an_existing_account_in_place() {
    let mut d = data();
    let created = d.upsert_entry("github".into(), "carol".into(), "new".into(), None, 42);
    assert!(!created);
    assert_eq!(d.entries.len(), 4);
    assert_eq!(d.entries[2].service, "github");
    assert_eq!(d.entries[2].username, "carol");
    assert_eq!(d.entries[2].password, "new");
    assert_eq!(d.entries[2].updated_at, 42);
    assert_eq!(d.entries[1].password, "p2");
}

#[test]
fn remove_by_service_or_account() {
    let mut d = data();
    let alice = "alice".to_string();
    assert_eq!(d.remove_entries(&"github".to_string(), Some(&alice)), 1);
    assert_eq!(d.entries.len(), 3);
    assert_eq!(d.entries[1].username, "carol");
    let mut d = data();
    assert_eq!(d.remove_entries(&"github".to_string(), None), 2);
    let services: Vec<&str> = d.entries.iter().map(|e| e.service.as_str()).collect();
    assert_eq!(services, vec!["gitlab", "aws"]);
    assert_eq!(d.remove_entries(&"none".to_string(), None), 0);
    assert_eq!(d.entries.len(), 2);
}

#[test]
fn select_reports_missing_ambiguous_and_found() {
    let d = data();
    assert!(matches!(select_entry(&d.entries, &"none".to_string(), None), EntrySelection::NotFound));
    match select_entry(&d.entries, &"github".to_string(), None) {
        EntrySelection::Ambiguous(names) => assert_eq!(names, vec!["alice".to_string(), "carol".to_string()]),
        other => panic!("unexpected {other:?}"),
    }
    let carol = "carol".to_string();
    assert!(matches!(select_entry(&d.entries, &"github".to_string(), Some(&carol)), EntrySelection::Found(2)));
    assert!(matches!(select_entry(&d.entries, &"aws".to_string(), None), EntrySelection::Found(3)));
    let nobody = "nobody".to_string();
    assert!(matches!(select_entry(&d.entries, &"aws".to_string(), Some(&nobody)), EntrySelection::NotFound));
}

#[test]
fn sort_orders_by_service_then_username_stably() {
    let mut entries = data().entries;
    entries.push(entry("github", "alice", "dup"));
    entries.push(entry("Zeta", "z", "p"));
    let sorted = sort_entries(entries);
    let keys: Vec<(String, String, String)> = sorted
        .iter()
        .map(|e| (e.service.clone(), e.username.clone(), e.password.clone()))
        .collect();
    let expected: Vec<(String, String, String)> = [
        ("Zeta", "z", "p"),
        ("aws", "root", "p4"),
        ("github", "alice", "p2"),
        ("github", "alice", "dup"),
        ("github", "carol", "p3"),
        ("gitlab", "bob", "p1"),
    ]
    .iter()
    .map(|(a, b, c)| (a.to_string(), b.to_string(), c.to_string()))
    .collect();
    assert_eq!(keys, expected);
}

#[test]
fn sort_of_nothing_is_nothing() {
    assert!(sort_entries(Vec::new()).is_empty());
}

#[test]
fn lookup_after_upsert_finds_the_saved_entry() {
    let mut d = data();
    d.upsert_entry("aws".into(), "root".into(), "rotated".into(), None, 7);
    let root = "root".to_string();
    match select_entry(&d.entries, &"aws".to_string(), Some(&root)) {
        EntrySelection::Found(i) => {
            assert_eq!(d.entries[i].password, "rotated");
            assert_eq!(d.entries[i].updated_at, 7);
        }
        other => panic!("unexpected {other:?}"),
    }
    d.upsert_entry("new".into(), "user".into(), "pw".into(), None, 8);
    let user = "user".to_string();
    assert!(matches!(select_entry(&d.entries, &"new".to_string(), Some(&user)), EntrySelection::Found(4)));
}

#[test]
fn lookup_after_remove_finds_nothing() {
    let mut d = data();
    let service = "github".to_string();
    d.remove_entries(&service, None);
    assert!(matches!(select_entry(&d.entries, &service, None), EntrySelection::NotFound));
    assert_eq!(d.entries.len(), 2);
}
