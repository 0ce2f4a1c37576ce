use astraos::vault::{Entry, Vault};

fn entry(id: &str, title: &str, favorite: bool) -> Entry {
    Entry {
        id: id.to_string(),
        title: title.to_string(),
        username: String::new(),
        password: String::new(),
        notes: String::new(),
        favorite,
        created_at: 0,
    }
}

#[test]
fn entry_id_is_32_hex_chars() {
    let e = Entry::new(0);
    assert_eq!(e.id.len(), 32);
    assert!(e.id.chars().all(|c| c.is_ascii_hexdigit()));
}

#[test]
fn toggle_favorite_flips_flag() {
    let mut v = Vault::create("pw");
    v.add_entry(Entry {
        id: "x".to_string(),
        title: "T".to_string(),
        username: String::new(),
        password: String::new(),
        notes: String::new(),
        favorite: false,
        created_at: 0,
    });
    v.toggle_favorite("x");
    assert!(v.get_entries()[0].favorite);
    v.toggle_favorite("x");
    assert!(!v.get_entries()[0].favorite);
}

#[test]
fn new_entry_is_empty_and_stamped() {
    let e = Entry::new(1_700_000_000);
    assert_eq!(e.created_at, 1_700_000_000);
    assert!(e.title.is_empty() && e.username.is_empty() && e.password.is_empty() && e.notes.is_empty());
    assert!(!e.favorite);
    assert!(e.id.chars().all(|c| matches!(c, '0'..='9' | 'a'..='f')));
}

#[test]
fn entry_ids_differ() {
    let a = Entry::new(0);
    let b = Entry::new(0);
    assert_ne!(a.id, b.id);
}

#[test]
fn create_gives_empty_vault_with_salt() {
    let v = Vault::create("masterpw");
    assert!(v.get_entries().is_empty());
    assert_eq!(v.salt.len(), 16);
}

#[test]
fn remove_entry_removes_every_match() {
    let mut v = Vault::create("pw");
    v.add_entry(entry("a", "A", false));
    v.add_entry(entry("b", "B", false));
    v.add_entry(entry("a", "A2", false));
    assert!(v.remove_entry("a"));
    assert_eq!(v.get_entries().len(), 1);
    assert_eq!(v.get_entries()[0].id, "b");
    assert!(!v.remove_entry("a"));
    assert_eq!(v.get_entries().len(), 1);
}

#[test]
fn find_entry_mut_edits_first_match() {
    let mut v = Vault::create("pw");
    v.add_entry(entry("a", "first", false));
    v.add_entry(entry("a", "second", false));
    if let Some(e) = v.find_entry_mut("a") {
        e.title = "edited".to_string();
    }
    assert_eq!(v.get_entries()[0].title, "edited");
    assert_eq!(v.get_entries()[1].title, "second");
    assert!(v.find_entry_mut("zzz").is_none());
}

#[test]
fn toggle_unknown_id_changes_nothing() {
    let mut v = Vault::create("pw");
    v.add_entry(entry("a", "A", true));
    v.toggle_favorite("b");
    assert!(v.get_entries()[0].favorite);
}
