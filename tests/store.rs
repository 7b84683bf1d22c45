use shortlink::model::{
    after_commit, after_lookup, check_record, AliasRecord, Lookup, Resolution, StoreError,
    MAX_ALIAS_BYTES,
};
use shortlink::service::Store;
use std::sync::Arc;

fn fresh_store() -> (tempfile::TempDir, Store) {
    let dir = tempfile::tempdir().unwrap();
    let store = Store::open(dir.path().to_str().unwrap()).unwrap();
    (dir, store)
}

#[test]
fn check_record_accepts_a_plain_record() {
    assert_eq!(check_record("a", "http://x"), Ok(()));
}

#[test]
fn check_record_rejects_empty_parts() {
    assert_eq!(check_record("", "http://x"), Err(StoreError::InvalidRecord));
    assert_eq!(check_record("a", ""), Err(StoreError::InvalidRecord));
    assert_eq!(check_record("", ""), Err(StoreError::InvalidRecord));
}

#[test]
fn check_record_counts_alias_bytes() {
    let longest = "a".repeat(MAX_ALIAS_BYTES);
    assert_eq!(check_record(&longest, "http://x"), Ok(()));
    let too_long = "a".repeat(MAX_ALIAS_BYTES + 1);
    assert_eq!(check_record(&too_long, "http://x"), Err(StoreError::InvalidRecord));
    // 256 two-byte characters: 256 chars but 512 bytes.
    let wide = "\u{e9}".repeat(256);
    assert_eq!(check_record(&wide, "http://x"), Err(StoreError::InvalidRecord));
    let wide_fits = "\u{e9}".repeat(255);
    assert_eq!(check_record(&wide_fits, "http://x"), Ok(()));
}

#[test]
fn create_returns_the_record() {
    let (_dir, store) = fresh_store();
    let rec = store.create("gh", "https://github.com").unwrap();
    assert_eq!(
        rec,
        AliasRecord { alias: "gh".to_string(), destination: "https://github.com".to_string() }
    );
}

#[test]
fn create_then_resolve_returns_destination() {
    let (_dir, store) = fresh_store();
    store.create("docs", "https://docs.rs").unwrap();
    store.create("crates", "https://crates.io").unwrap();
    assert_eq!(store.resolve("docs"), Ok(Resolution::Found("https://docs.rs".to_string())));
    assert_eq!(store.resolve("crates"), Ok(Resolution::Found("https://crates.io".to_string())));
}

#[test]
fn unknown_alias_is_not_found() {
    let (_dir, store) = fresh_store();
    assert_eq!(store.resolve("nothing-here"), Ok(Resolution::NotFound));
    store.create("other", "http://o").unwrap();
    assert_eq!(store.resolve("nothing-here"), Ok(Resolution::NotFound));
}

#[test]
fn resolve_of_an_alias_that_cannot_be_a_key_is_not_found() {
    let (_dir, store) = fresh_store();
    assert_eq!(store.resolve(""), Ok(Resolution::NotFound));
    assert_eq!(store.resolve(&"z".repeat(MAX_ALIAS_BYTES + 1)), Ok(Resolution::NotFound));
}

#[test]
fn longest_alias_round_trips() {
    let (_dir, store) = fresh_store();
    let longest = "k".repeat(MAX_ALIAS_BYTES);
    store.create(&longest, "http://long").unwrap();
    assert_eq!(store.resolve(&longest), Ok(Resolution::Found("http://long".to_string())));
}

#[test]
fn second_create_is_alias_taken() {
    let (_dir, store) = fresh_store();
    store.create("a", "http://first").unwrap();
    assert_eq!(store.create("a", "http://second"), Err(StoreError::AliasTaken));
    assert_eq!(store.create("a", "http://first"), Err(StoreError::AliasTaken));
    assert_eq!(store.resolve("a"), Ok(Resolution::Found("http://first".to_string())));
}

#[test]
fn concurrent_creates_have_one_winner() {
    let (_dir, store) = fresh_store();
    let store = Arc::new(store);
    let rt = tokio::runtime::Runtime::new().unwrap();
    let s1 = Arc::clone(&store);
    let s2 = Arc::clone(&store);
    let h1 = rt.spawn_blocking(move || s1.create("race", "http://one"));
    let h2 = rt.spawn_blocking(move || s2.create("race", "http://two"));
    let r1 = rt.block_on(h1).unwrap();
    let r2 = rt.block_on(h2).unwrap();
    let winner = match (&r1, &r2) {
        (Ok(rec), Err(StoreError::AliasTaken)) => rec.destination.clone(),
        (Err(StoreError::AliasTaken), Ok(rec)) => rec.destination.clone(),
        other => panic!("expected one success and one AliasTaken, got {:?}", other),
    };
    assert_eq!(store.resolve("race"), Ok(Resolution::Found(winner)));
}

#[test]
fn invalid_records_add_nothing() {
    let (_dir, store) = fresh_store();
    assert_eq!(store.create("", "http://x"), Err(StoreError::InvalidRecord));
    assert_eq!(store.create("a", ""), Err(StoreError::InvalidRecord));
    assert_eq!(store.resolve("a"), Ok(Resolution::NotFound));
    assert_eq!(store.resolve(""), Ok(Resolution::NotFound));
}

#[test]
fn reopen_keeps_created_records() {
    let dir = tempfile::tempdir().unwrap();
    let path = dir.path().to_str().unwrap().to_string();
    let store = Store::open(&path).unwrap();
    store.create("a", "http://x").unwrap();
    store.close();
    let reopened = Store::open(&path).unwrap();
    assert_eq!(reopened.resolve("a"), Ok(Resolution::Found("http://x".to_string())));
    assert_eq!(reopened.create("a", "http://y"), Err(StoreError::AliasTaken));
}

#[test]
fn open_read_snapshot_misses_a_later_create() {
    let (_dir, store) = fresh_store();
    let before = store.begin_read().unwrap();
    store.create("b", "http://y").unwrap();
    assert_eq!(store.resolve_in(&before, "b"), Ok(Resolution::NotFound));
    drop(before);
    assert_eq!(store.resolve("b"), Ok(Resolution::Found("http://y".to_string())));
}

#[test]
fn write_transaction_sees_its_own_record_and_drop_discards_it() {
    let (_dir, store) = fresh_store();
    {
        let mut t = store.begin_write().unwrap();
        let rec = store.create_in(&mut t, "w", "http://w").unwrap();
        assert_eq!(rec.destination, "http://w");
        assert_eq!(store.create_in(&mut t, "w", "http://v"), Err(StoreError::AliasTaken));
    }
    assert_eq!(store.resolve("w"), Ok(Resolution::NotFound));
}

#[test]
fn open_on_a_missing_directory_fails() {
    let dir = tempfile::tempdir().unwrap();
    let missing = dir.path().join("no").join("such").join("dir");
    assert!(matches!(
        Store::open(missing.to_str().unwrap()),
        Err(StoreError::StorageInitError)
    ));
}

#[test]
fn after_lookup_decides_each_case() {
    assert_eq!(after_lookup(Lookup::Present), Some(StoreError::AliasTaken));
    assert_eq!(after_lookup(Lookup::Absent), None);
    assert_eq!(after_lookup(Lookup::Failed), Some(StoreError::StorageUnavailable));
}

#[test]
fn after_commit_keeps_or_drops_the_record() {
    let rec = AliasRecord { alias: "a".to_string(), destination: "http://x".to_string() };
    assert_eq!(after_commit(rec.clone(), true), Ok(rec.clone()));
    assert_eq!(after_commit(rec, false), Err(StoreError::StorageCommitError));
}
