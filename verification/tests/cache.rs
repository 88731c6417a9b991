use waffle::db::github::Repository;
use waffle::db::idb::{
    add_repo, create_object_store, delete_repo, filter_records, filter_repos_in_idb, get_all_repos,
    get_repo, is_match, languages, open_waffle_db, open_waffle_db_with_languages, snapshot_key,
    Database, Error, DB_NAME, DB_VERSION,
};

fn repo(full_name: &str, description: &str, language: &str) -> Repository {
    Repository {
        full_name: Some(full_name.to_string()),
        description: Some(description.to_string()),
        language: Some(language.to_string()),
        ..Default::default()
    }
}

fn names(records: &[Repository]) -> Vec<String> {
    records.iter().map(|r| r.full_name.clone().unwrap_or_default()).collect()
}

fn opened() -> Database {
    let mut db = Database::new();
    open_waffle_db(&mut db);
    db
}

#[test]
fn database_constants() {
    assert_eq!(DB_NAME, "WaffleDB");
    assert_eq!(DB_VERSION, 1);
    assert_eq!(languages(), vec!["Rust", "Python", "Javascript"]);
}

#[test]
fn snapshot_key_is_lowercase() {
    assert_eq!(snapshot_key("Rust"), "latest_rust");
    assert_eq!(snapshot_key("Javascript"), "latest_javascript");
    assert_eq!(snapshot_key("PYTHON"), "latest_python");
    assert_eq!(snapshot_key(""), "latest_");
}

#[test]
fn new_database_has_no_partition() {
    let db = Database::new();
    assert!(!db.has_store("Rust"));
    assert_eq!(get_repo(&db, "Rust", "latest_rust").unwrap_err(), Error::ObjectStoreNotFound);
}

#[test]
fn open_creates_a_partition_per_language() {
    let db = opened();
    for language in languages() {
        assert!(db.has_store(&language));
        assert!(get_repo(&db, &language, &snapshot_key(&language)).unwrap().is_none());
        assert!(get_all_repos(&db, &language).unwrap().is_empty());
    }
    assert!(!db.has_store("Go"));
    assert!(!db.has_store("rust"));
}

#[test]
fn open_twice_keeps_what_is_stored() {
    let mut db = opened();
    add_repo(&mut db, "Rust", "latest_rust", &vec![repo("a/a", "", "Rust")]).unwrap();
    open_waffle_db(&mut db);
    let found = get_repo(&db, "Rust", "latest_rust").unwrap().unwrap();
    assert_eq!(names(&found), vec!["a/a"]);
    assert!(get_repo(&db, "Python", "latest_python").unwrap().is_none());
}

#[test]
fn open_with_languages_adds_only_missing_partitions() {
    let mut db = Database::new();
    open_waffle_db_with_languages(&mut db, &vec!["Go".to_string()]);
    assert!(db.has_store("Go"));
    assert!(!db.has_store("Rust"));
    add_repo(&mut db, "Go", "k", &vec![repo("g/g", "", "Go")]).unwrap();
    open_waffle_db_with_languages(&mut db, &vec!["Go".to_string(), "Rust".to_string()]);
    assert!(db.has_store("Rust"));
    assert_eq!(names(&get_repo(&db, "Go", "k").unwrap().unwrap()), vec!["g/g"]);
}

#[test]
fn create_object_store_is_idempotent() {
    let mut db = Database::new();
    create_object_store(&mut db, "Rust");
    add_repo(&mut db, "Rust", "k", &vec![repo("a/a", "", "Rust")]).unwrap();
    create_object_store(&mut db, "Rust");
    assert_eq!(names(&get_repo(&db, "Rust", "k").unwrap().unwrap()), vec!["a/a"]);
}

#[test]
fn put_then_get_returns_the_snapshot() {
    let mut db = opened();
    let snapshot = vec![repo("a/a", "first", "Rust"), repo("b/b", "second", "Rust")];
    assert_eq!(add_repo(&mut db, "Rust", "latest_rust", &snapshot), Ok(()));
    let found = get_repo(&db, "Rust", "latest_rust").unwrap().unwrap();
    assert_eq!(names(&found), vec!["a/a", "b/b"]);
    assert_eq!(found[1].description.as_deref(), Some("second"));
}

#[test]
fn put_overwrites_without_merging() {
    let mut db = opened();
    let old = vec![repo("A", "", "Rust"), repo("B", "", "Rust")];
    let new = vec![repo("B", "", "Rust"), repo("C", "", "Rust")];
    add_repo(&mut db, "Rust", "latest_rust", &old).unwrap();
    add_repo(&mut db, "Rust", "latest_rust", &new).unwrap();
    let found = get_repo(&db, "Rust", "latest_rust").unwrap().unwrap();
    assert_eq!(names(&found), vec!["B", "C"]);
    assert_eq!(names(&get_all_repos(&db, "Rust").unwrap()), vec!["B", "C"]);
}

#[test]
fn put_leaves_other_keys_and_partitions() {
    let mut db = opened();
    add_repo(&mut db, "Rust", "one", &vec![repo("a", "", "Rust")]).unwrap();
    add_repo(&mut db, "Python", "one", &vec![repo("p", "", "Python")]).unwrap();
    add_repo(&mut db, "Rust", "two", &vec![repo("b", "", "Rust")]).unwrap();
    assert_eq!(names(&get_repo(&db, "Rust", "one").unwrap().unwrap()), vec!["a"]);
    assert_eq!(names(&get_repo(&db, "Rust", "two").unwrap().unwrap()), vec!["b"]);
    assert_eq!(names(&get_repo(&db, "Python", "one").unwrap().unwrap()), vec!["p"]);
    assert!(get_repo(&db, "Python", "two").unwrap().is_none());
}

#[test]
fn put_to_a_missing_partition_fails() {
    let mut db = opened();
    let r = add_repo(&mut db, "Go", "latest_go", &vec![repo("g", "", "Go")]);
    assert_eq!(r, Err(Error::ObjectStoreNotFound));
    assert!(!db.has_store("Go"));
    assert_eq!(Error::ObjectStoreNotFound.message(), "object store not found");
}

#[test]
fn delete_removes_the_snapshot() {
    let mut db = opened();
    add_repo(&mut db, "Rust", "latest_rust", &vec![repo("a", "", "Rust")]).unwrap();
    assert_eq!(delete_repo(&mut db, "Rust", "latest_rust"), Ok(()));
    assert!(get_repo(&db, "Rust", "latest_rust").unwrap().is_none());
    assert!(get_all_repos(&db, "Rust").unwrap().is_empty());
}

#[test]
fn delete_twice_is_the_same_as_once() {
    let mut db = opened();
    add_repo(&mut db, "Rust", "latest_rust", &vec![repo("a", "", "Rust")]).unwrap();
    add_repo(&mut db, "Rust", "other", &vec![repo("b", "", "Rust")]).unwrap();
    delete_repo(&mut db, "Rust", "latest_rust").unwrap();
    let once = names(&get_all_repos(&db, "Rust").unwrap());
    assert_eq!(delete_repo(&mut db, "Rust", "latest_rust"), Ok(()));
    assert_eq!(names(&get_all_repos(&db, "Rust").unwrap()), once);
    assert_eq!(once, vec!["b"]);
    assert!(get_repo(&db, "Rust", "latest_rust").unwrap().is_none());
}

#[test]
fn delete_in_a_missing_partition_fails() {
    let mut db = opened();
    assert_eq!(delete_repo(&mut db, "Go", "latest_go"), Err(Error::ObjectStoreNotFound));
}

#[test]
fn scan_reads_the_snapshots_in_entry_order() {
    let mut db = opened();
    add_repo(&mut db, "Rust", "z", &vec![repo("1", "", "Rust"), repo("2", "", "Rust")]).unwrap();
    add_repo(&mut db, "Rust", "a", &vec![repo("3", "", "Rust")]).unwrap();
    add_repo(&mut db, "Rust", "z", &vec![repo("4", "", "Rust")]).unwrap();
    assert_eq!(names(&get_all_repos(&db, "Rust").unwrap()), vec!["4", "3"]);
    assert_eq!(get_all_repos(&db, "Go").unwrap_err(), Error::ObjectStoreNotFound);
}

#[test]
fn filter_matches_name_or_description_ignoring_case() {
    let records = vec![
        repo("rust-lang/FooBar", "the compiler", "Rust"),
        repo("x/y", "All about foo", "Rust"),
        repo("x/z", "nothing here", "Rust"),
        repo("x/foo", "other language", "Python"),
    ];
    let found = filter_records(&records, "Rust", "foo");
    assert_eq!(names(&found), vec!["rust-lang/FooBar", "x/y"]);
    let found = filter_records(&records, "rust", "FOO");
    assert_eq!(names(&found), vec!["rust-lang/FooBar", "x/y"]);
    let found = filter_records(&records, "Python", "foo");
    assert_eq!(names(&found), vec!["x/foo"]);
}

#[test]
fn filter_with_empty_query_keeps_the_category() {
    let records = vec![
        repo("a", "", "Rust"),
        repo("b", "", "Python"),
        repo("c", "", "RUST"),
        Repository { full_name: Some("d".to_string()), ..Default::default() },
    ];
    assert_eq!(names(&filter_records(&records, "Rust", "")), vec!["a", "c"]);
    assert!(filter_records(&records, "Javascript", "").is_empty());
}

#[test]
fn filter_without_a_match_is_empty() {
    let records = vec![repo("a/b", "desc", "Rust")];
    assert!(filter_records(&records, "Rust", "zzz").is_empty());
    assert!(filter_records(&records, "Rust", "a/bc").is_empty());
    assert!(filter_records(&Vec::new(), "Rust", "").is_empty());
}

#[test]
fn is_match_reads_absent_fields_as_empty() {
    let bare = Repository { language: Some("Rust".to_string()), ..Default::default() };
    assert!(is_match(&bare, "Rust", ""));
    assert!(!is_match(&bare, "Rust", "x"));
    let no_language = Repository { full_name: Some("x".to_string()), ..Default::default() };
    assert!(!is_match(&no_language, "Rust", "x"));
    assert!(!is_match(&no_language, "", ""));
    let only_description = Repository {
        description: Some("Fast PARSER".to_string()),
        language: Some("rust".to_string()),
        ..Default::default()
    };
    assert!(is_match(&only_description, "Rust", "parser"));
    assert!(!is_match(&only_description, "Rust", "parsers"));
}

#[test]
fn filter_in_the_cache_searches_one_partition() {
    let mut db = opened();
    add_repo(
        &mut db,
        "Rust",
        "latest_rust",
        &vec![repo("tokio-rs/tokio", "async runtime", "Rust"), repo("serde-rs/serde", "", "Rust")],
    )
    .unwrap();
    add_repo(&mut db, "Python", "latest_python", &vec![repo("py/tokio", "", "Python")]).unwrap();
    let found = filter_repos_in_idb(&db, "Rust", "tokio").unwrap();
    assert_eq!(names(&found), vec!["tokio-rs/tokio"]);
    let found = filter_repos_in_idb(&db, "Rust", "").unwrap();
    assert_eq!(names(&found), vec!["tokio-rs/tokio", "serde-rs/serde"]);
    assert!(filter_repos_in_idb(&db, "Javascript", "").unwrap().is_empty());
    assert_eq!(filter_repos_in_idb(&db, "Go", "").unwrap_err(), Error::ObjectStoreNotFound);
}
