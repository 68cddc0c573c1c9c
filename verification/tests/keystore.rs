use desktop_core::generator::generate_keypair;
use desktop_core::keys::PrivateKeyEntry;
use desktop_core::keystore::{KeyRecord, KeyStore};

fn record(key: &[u8], name: &str, credential_id: &str) -> KeyRecord {
    KeyRecord {
        public_key_bytes: key.to_vec(),
        private_key: None,
        name: name.to_owned(),
        credential_id: credential_id.to_owned(),
    }
}

#[test]
fn find_returns_most_recent_insert() {
    let mut store = KeyStore::new();
    store.insert_or_replace(record(&[1, 2, 3], "first", "uuid-1"));
    store.insert_or_replace(record(&[9, 9], "other", "uuid-2"));
    store.insert_or_replace(record(&[1, 2, 3], "second", "uuid-3"));

    let found = store.find(&vec![1, 2, 3]).expect("key must be present");
    assert_eq!(found.name, "second");
    assert_eq!(found.credential_id, "uuid-3");
    assert_eq!(store.list().len(), 2);

    let other = store.find(&vec![9, 9]).expect("other key must be present");
    assert_eq!(other.name, "other");
}

#[test]
fn find_on_empty_store_is_none() {
    let store = KeyStore::new();
    assert!(store.find(&vec![1, 2, 3]).is_none());
}

#[test]
fn clear_empties_the_store() {
    let mut store = KeyStore::new();
    store.insert_or_replace(record(&[1], "a", "u1"));
    store.clear();
    assert_eq!(store.list().len(), 0);
    assert!(store.find(&vec![1]).is_none());
}

#[test]
fn lock_strips_private_material_and_keeps_metadata() {
    let generated = generate_keypair("ed25519").expect("generation must succeed");
    let mut store = KeyStore::new();
    let entries = vec![PrivateKeyEntry {
        private_key: generated.private_key.clone(),
        name: "my key".to_owned(),
        uuid: "uuid-lock".to_owned(),
    }];
    let skipped = store.replace_all(&entries);
    assert_eq!(skipped, 0);
    assert_eq!(store.list().len(), 1);
    assert!(store.list()[0].private_key.is_some());
    let public_key_bytes = store.list()[0].public_key_bytes.clone();

    store.lock();

    assert_eq!(store.list().len(), 1);
    let rec = &store.list()[0];
    assert!(rec.private_key.is_none());
    assert_eq!(rec.name, "my key");
    assert_eq!(rec.credential_id, "uuid-lock");
    assert_eq!(rec.public_key_bytes, public_key_bytes);
}

#[test]
fn replace_all_keeps_exactly_the_parsed_subset() {
    let a = generate_keypair("ed25519").expect("generation must succeed");
    let b = generate_keypair("ed25519").expect("generation must succeed");
    let mut store = KeyStore::new();
    store.insert_or_replace(record(&[7, 7, 7], "stale", "uuid-stale"));

    let entries = vec![
        PrivateKeyEntry {
            private_key: a.private_key.clone(),
            name: "a".to_owned(),
            uuid: "uuid-a".to_owned(),
        },
        PrivateKeyEntry {
            private_key: "not a key at all".to_owned(),
            name: "broken".to_owned(),
            uuid: "uuid-broken".to_owned(),
        },
        PrivateKeyEntry {
            private_key: b.private_key.clone(),
            name: "b".to_owned(),
            uuid: "uuid-b".to_owned(),
        },
    ];
    let skipped = store.replace_all(&entries);

    assert_eq!(skipped, 1);
    assert_eq!(store.list().len(), 2);
    assert!(store.find(&vec![7, 7, 7]).is_none(), "prior contents must be gone");
    let names: Vec<&str> = store.list().iter().map(|r| r.name.as_str()).collect();
    assert!(names.contains(&"a"));
    assert!(names.contains(&"b"));
    assert!(!names.contains(&"broken"));
}

#[test]
fn replace_all_with_only_bad_entries_clears_the_store() {
    let mut store = KeyStore::new();
    store.insert_or_replace(record(&[5], "old", "uuid-old"));
    let entries = vec![PrivateKeyEntry {
        private_key: "garbage".to_owned(),
        name: "x".to_owned(),
        uuid: "uuid-x".to_owned(),
    }];
    let skipped = store.replace_all(&entries);
    assert_eq!(skipped, 1);
    assert_eq!(store.list().len(), 0);
}
