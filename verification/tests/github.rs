use waffle::db::github::{
    cache_failure, copy_records, fetch_failure, retain_licensed, search_request, FetchOutcome,
    GithubDb, License, Owner, Repository, SearchResponse,
};
use waffle::db::idb::CacheFailure;
use waffle::text::decimal;

fn licensed(full_name: &str) -> Repository {
    Repository {
        full_name: Some(full_name.to_string()),
        language: Some("Rust".to_string()),
        license: Some(License { node_id: None, name: Some("MIT".to_string()) }),
        ..Default::default()
    }
}

fn unlicensed(full_name: &str) -> Repository {
    Repository {
        full_name: Some(full_name.to_string()),
        language: Some("Rust".to_string()),
        ..Default::default()
    }
}

fn names(records: &[Repository]) -> Vec<String> {
    records.iter().map(|r| r.full_name.clone().unwrap_or_default()).collect()
}

fn answer(items: Vec<Repository>) -> FetchOutcome {
    FetchOutcome::Parsed(SearchResponse {
        total_count: Some(items.len() as u64),
        incomplete_results: Some(false),
        items,
    })
}

#[test]
fn default_record_is_blank() {
    let r = Repository::default();
    assert!(r.id.is_none());
    assert!(r.full_name.is_none());
    assert!(r.description.is_none());
    assert!(r.language.is_none());
    assert!(r.license.is_none());
    assert!(r.topics.is_none());
    assert!(r.score.is_none());
}

#[test]
fn record_clone_keeps_every_field_given() {
    let r = Repository {
        id: Some(7),
        full_name: Some("a/b".to_string()),
        owner: Some(Owner { site_admin: Some(true) }),
        license: Some(License { node_id: Some("n".to_string()), name: Some("MIT".to_string()) }),
        topics: Some(vec!["x".to_string(), "y".to_string()]),
        stargazers_count: Some(42),
        score: Some(1.5f64.to_bits()),
        archived: Some(false),
        ..Default::default()
    };
    let c = r.clone();
    assert_eq!(c.id, Some(7));
    assert_eq!(c.full_name.as_deref(), Some("a/b"));
    assert_eq!(c.owner.unwrap().site_admin, Some(true));
    let license = c.license.unwrap();
    assert_eq!(license.node_id.as_deref(), Some("n"));
    assert_eq!(license.name.as_deref(), Some("MIT"));
    assert_eq!(c.topics, Some(vec!["x".to_string(), "y".to_string()]));
    assert_eq!(c.stargazers_count, Some(42));
    assert_eq!(c.score.map(f64::from_bits), Some(1.5));
    assert_eq!(c.archived, Some(false));
    assert!(c.description.is_none());
}

#[test]
fn copy_records_keeps_order() {
    let v = vec![licensed("a"), unlicensed("b"), licensed("c")];
    assert_eq!(names(&copy_records(&v)), vec!["a", "b", "c"]);
    assert!(copy_records(&Vec::new()).is_empty());
}

#[test]
fn retain_licensed_drops_records_without_license() {
    let v = vec![unlicensed("a"), licensed("b"), unlicensed("c"), licensed("d")];
    assert_eq!(names(&retain_licensed(&v)), vec!["b", "d"]);
    assert!(retain_licensed(&vec![unlicensed("a")]).is_empty());
    assert_eq!(names(&retain_licensed(&vec![licensed("a")])), vec!["a"]);
}

#[test]
fn search_request_asks_for_the_most_starred() {
    let request = search_request("Python");
    assert_eq!(request.method, "GET");
    assert_eq!(
        request.url,
        "https://api.github.com/search/repositories?q=language:Python&sort=stars&order=desc&per_page=100"
    );
    assert!(request.body.is_empty());
    assert_eq!(
        request.headers,
        vec![("User-Agent".to_string(), "rust-egui-ehttp-app".to_string())]
    );
}

#[test]
fn decimal_writes_numbers() {
    assert_eq!(decimal(0), "0");
    assert_eq!(decimal(7), "7");
    assert_eq!(decimal(10), "10");
    assert_eq!(decimal(404), "404");
    assert_eq!(decimal(65535), "65535");
    assert_eq!(decimal(u64::MAX), "18446744073709551615");
}

#[test]
fn fetch_failure_messages() {
    assert_eq!(
        fetch_failure(&FetchOutcome::RequestFailed("timed out".to_string())).as_deref(),
        Some("Request failed: timed out")
    );
    assert_eq!(
        fetch_failure(&FetchOutcome::HttpError {
            status: 404,
            status_text: "Not Found".to_string()
        })
        .as_deref(),
        Some("HTTP Error: 404 - Not Found")
    );
    assert_eq!(
        fetch_failure(&FetchOutcome::ParseFailed("expected value".to_string())).as_deref(),
        Some("Failed to parse JSON: expected value")
    );
    assert_eq!(fetch_failure(&answer(vec![])), None);
}

#[test]
fn cache_failure_messages() {
    assert_eq!(
        cache_failure("store in", &CacheFailure::Access("quota".to_string())),
        "Failed to store in IndexedDB: quota"
    );
    assert_eq!(
        cache_failure("load from", &CacheFailure::Access("x".to_string())),
        "Failed to load from IndexedDB: x"
    );
    assert_eq!(
        cache_failure("clear", &CacheFailure::Access("y".to_string())),
        "Failed to clear IndexedDB: y"
    );
    assert_eq!(
        cache_failure("clear", &CacheFailure::Open("blocked".to_string())),
        "Failed to open IndexedDB: blocked"
    );
}

#[test]
fn new_set_is_empty_and_selects_rust() {
    let db = GithubDb::new();
    assert_eq!(db.get_language(), "Rust");
    assert!(db.get_repos().is_empty());
    assert!(!db.is_loading());
    assert_eq!(db.last_error(), None);
}

#[test]
fn set_language_changes_only_the_language() {
    let mut db = GithubDb::new();
    db.set_language("Python");
    assert_eq!(db.get_language(), "Python");
    assert!(!db.is_loading());
    let place = db.snapshot();
    assert_eq!(place.language, "Python");
    assert_eq!(place.key, "latest_python");
}

#[test]
fn sync_marks_loading_and_builds_the_request() {
    let mut db = GithubDb::new();
    db.set_language("Javascript");
    let request = db.sync_and_store();
    assert!(db.is_loading());
    assert_eq!(
        request.url,
        "https://api.github.com/search/repositories?q=language:Javascript&sort=stars&order=desc&per_page=100"
    );
}

#[test]
fn sync_completed_keeps_licensed_records() {
    let mut db = GithubDb::new();
    db.sync_and_store();
    let write = db
        .sync_completed(&answer(vec![licensed("a"), unlicensed("b"), licensed("c")]))
        .unwrap();
    assert!(!db.is_loading());
    assert_eq!(names(db.get_repos()), vec!["a", "c"]);
    assert_eq!(db.last_error(), None);
    assert_eq!(write.language, "Rust");
    assert_eq!(write.key, "latest_rust");
    assert_eq!(names(&write.records), vec!["a", "c"]);
}

#[test]
fn sync_completed_records_a_failure_and_keeps_the_set() {
    let mut db = GithubDb::new();
    db.sync_and_store();
    db.sync_completed(&answer(vec![licensed("a")]));
    db.sync_and_store();
    let write = db.sync_completed(&FetchOutcome::HttpError {
        status: 503,
        status_text: "Service Unavailable".to_string(),
    });
    assert!(write.is_none());
    assert!(!db.is_loading());
    assert_eq!(names(db.get_repos()), vec!["a"]);
    assert_eq!(db.last_error().as_deref(), Some("HTTP Error: 503 - Service Unavailable"));
}

#[test]
fn fetch_repositories_is_refused_while_loading() {
    let mut db = GithubDb::new();
    db.set_language("Python");
    let request = db.fetch_repositories().unwrap();
    assert_eq!(
        request.url,
        "https://api.github.com/search/repositories?q=language:rust&sort=stars&order=desc&per_page=100"
    );
    assert!(db.is_loading());
    assert!(db.fetch_repositories().is_none());
    assert!(db.is_loading());
    let write = db.fetch_completed(&answer(vec![licensed("a"), unlicensed("b")])).unwrap();
    assert!(!db.is_loading());
    assert_eq!(write.language, "rust");
    assert_eq!(write.key, "latest_rust");
    assert_eq!(names(&write.records), vec!["a"]);
    assert!(db.fetch_repositories().is_some());
}

#[test]
fn store_and_clear_failures_are_recorded() {
    let mut db = GithubDb::new();
    db.store_completed(&Ok(()));
    assert_eq!(db.last_error(), None);
    db.store_completed(&Err(CacheFailure::Access("full".to_string())));
    assert_eq!(db.last_error().as_deref(), Some("Failed to store in IndexedDB: full"));
    db.clear_completed(&Ok(()));
    assert_eq!(db.last_error().as_deref(), Some("Failed to store in IndexedDB: full"));
    db.clear_completed(&Err(CacheFailure::Open("denied".to_string())));
    assert_eq!(db.last_error().as_deref(), Some("Failed to open IndexedDB: denied"));
    db.clear_completed(&Err(CacheFailure::Access("busy".to_string())));
    assert_eq!(db.last_error().as_deref(), Some("Failed to clear IndexedDB: busy"));
    let place = db.clear_indexeddb();
    assert_eq!(place.language, "Rust");
    assert_eq!(place.key, "latest_rust");
}

#[test]
fn load_completed_takes_the_snapshot() {
    let mut db = GithubDb::new();
    let place = db.load_from_indexeddb();
    assert_eq!(place.key, "latest_rust");
    db.load_completed(&Ok(Some(vec![unlicensed("a"), licensed("b")])));
    assert_eq!(names(db.get_repos()), vec!["a", "b"]);
    db.load_completed(&Err(CacheFailure::Access("gone".to_string())));
    assert_eq!(names(db.get_repos()), vec!["a", "b"]);
    assert_eq!(db.last_error().as_deref(), Some("Failed to load from IndexedDB: gone"));
    db.load_completed(&Ok(None));
    assert!(db.get_repos().is_empty());
    assert_eq!(db.last_error().as_deref(), Some("Failed to load from IndexedDB: gone"));
}
