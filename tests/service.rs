use shortcut::clock::{get_timestamp, timestamp_from_elapsed};
use shortcut::error::ShortcutError;
use shortcut::matching::{rank, rank_by_scores, rank_order};
use shortcut::repository::{rows_changed, InMemoryRepository, Rows, ShortcutRepositoryTrait, StorageError};
use shortcut::service::{ShortcutService, Upsert};
use shortcut::shortcut::{PostRequest, Shortcut};
use shortcut::text::normalize_keyword;
use shortcut::views::{
    ChangeView, CheckUpdateTemplate, CreateNewTemplate, CreateView, EmptyTemplate, ErrorAlert, InfoAlert,
    SearchView, SuccessAlert,
};

fn request(keyword: &str, url: &str) -> PostRequest {
    PostRequest { keyword: keyword.to_owned(), url: url.to_owned() }
}

fn seeded() -> ShortcutService<InMemoryRepository> {
    let mut service = ShortcutService::new(InMemoryRepository::new());
    for (keyword, url) in [
        ("google", "https://google.co.uk"),
        ("g", "https://google.com"),
        ("test", "https://test.co.uk"),
        ("gle", "https://greatlightexchange.co.uk"),
    ] {
        assert_eq!(service.create(&request(keyword, url)), Ok(true));
    }
    service
}

fn keywords(shortcuts: &[Shortcut]) -> Vec<&str> {
    shortcuts.iter().map(|s| s.keyword.as_str()).collect()
}

/// A store whose every operation fails.
struct BrokenRepository;

impl ShortcutRepositoryTrait for BrokenRepository {
    fn rows(&self) -> Rows {
        unreachable!("the rows of a store are a model for proofs, never computed")
    }

    fn fetch_all(&self) -> Result<Vec<Shortcut>, StorageError> {
        Err(StorageError::Fault)
    }

    fn get(&self, _keyword: &str) -> Result<Shortcut, StorageError> {
        Err(StorageError::Fault)
    }

    fn create(&mut self, _shortcut: &Shortcut) -> Result<(), StorageError> {
        Err(StorageError::Fault)
    }

    fn update(&mut self, _shortcut: &Shortcut) -> Result<bool, StorageError> {
        Err(StorageError::Fault)
    }

    fn delete(&mut self, _keyword: &str) -> Result<bool, StorageError> {
        Err(StorageError::Fault)
    }
}

/// A store that reports every keyword as taken and cannot update.
struct TakenRepository;

impl ShortcutRepositoryTrait for TakenRepository {
    fn rows(&self) -> Rows {
        unreachable!("the rows of a store are a model for proofs, never computed")
    }

    fn fetch_all(&self) -> Result<Vec<Shortcut>, StorageError> {
        Ok(Vec::new())
    }

    fn get(&self, _keyword: &str) -> Result<Shortcut, StorageError> {
        Err(StorageError::Fault)
    }

    fn create(&mut self, _shortcut: &Shortcut) -> Result<(), StorageError> {
        Err(StorageError::UniqueViolation)
    }

    fn update(&mut self, _shortcut: &Shortcut) -> Result<bool, StorageError> {
        Err(StorageError::Fault)
    }

    fn delete(&mut self, _keyword: &str) -> Result<bool, StorageError> {
        Err(StorageError::Fault)
    }
}

#[test]
fn create_then_get_returns_url_and_lowercase_keyword() {
    let mut service = ShortcutService::new(InMemoryRepository::new());
    assert_eq!(service.create(&request("GitHub", "https://github.com")), Ok(true));
    let found = service.get("GitHub").unwrap();

    assert_eq!(found.url, "https://github.com");
    assert_eq!(found.keyword, "github");
    assert_eq!(found.id, Some(1));
    assert_eq!(found.created, found.updated);
}

#[test]
fn second_create_is_unique_violation_and_keeps_first_url() {
    let mut service = ShortcutService::new(InMemoryRepository::new());
    assert_eq!(service.create(&request("docs", "https://one.example")), Ok(true));
    assert_eq!(service.create(&request("docs", "https://two.example")), Err(ShortcutError::UniqueConstraintError));

    assert_eq!(service.get("docs").unwrap().url, "https://one.example");
}

#[test]
fn upsert_after_create_updates() {
    let mut service = ShortcutService::new(InMemoryRepository::new());
    assert_eq!(service.create(&request("docs", "https://one.example")), Ok(true));
    let result = service.create_or_update(&request("docs", "https://two.example")).unwrap();

    assert_eq!(result, Upsert::Updated);
    assert_eq!(result.as_str(), "updated");
    let found = service.get("docs").unwrap();
    assert_eq!(found.url, "https://two.example");
    assert_eq!(found.id, Some(1));
}

#[test]
fn upsert_of_new_keyword_creates() {
    let mut service = ShortcutService::new(InMemoryRepository::new());
    let result = service.create_or_update(&request("docs", "https://one.example")).unwrap();

    assert_eq!(result, Upsert::Created);
    assert_eq!(result.as_str(), "created");
    assert_eq!(service.get("docs").unwrap().url, "https://one.example");
}

#[test]
fn update_of_missing_keyword_is_false() {
    let mut service = seeded();
    assert_eq!(service.update(&request("bing", "https://bing.com")), Ok(false));
    assert_eq!(service.get("bing"), Err(ShortcutError::NotFound));
}

#[test]
fn update_of_existing_keyword_changes_url() {
    let mut service = seeded();
    assert_eq!(service.update(&request("Google", "https://google.com")), Ok(true));
    let found = service.get("google").unwrap();

    assert_eq!(found.url, "https://google.com");
    assert_eq!(found.id, Some(1));
}

#[test]
fn delete_of_missing_keyword_is_false() {
    let mut service = seeded();
    assert_eq!(service.delete("bing"), Ok(false));
}

#[test]
fn delete_then_get_is_not_found() {
    let mut service = seeded();
    assert_eq!(service.delete("google"), Ok(true));
    assert_eq!(service.get("google"), Err(ShortcutError::NotFound));
    assert_eq!(service.get("g").unwrap().url, "https://google.com");
}

#[test]
fn empty_keyword_never_reaches_storage() {
    let mut service = ShortcutService::new(BrokenRepository);
    assert_eq!(service.find_similar(""), Err(ShortcutError::EmptyShortcut));
    assert_eq!(service.find_similar("   "), Err(ShortcutError::EmptyShortcut));
    assert_eq!(service.get(""), Err(ShortcutError::EmptyShortcut));
    assert_eq!(service.create(&request(" ", "https://x.example")), Err(ShortcutError::EmptyShortcut));
    assert_eq!(service.create_or_update(&request("", "https://x.example")), Err(ShortcutError::EmptyShortcut));
    assert_eq!(service.update(&request("", "https://x.example")), Err(ShortcutError::EmptyShortcut));
    assert_eq!(service.delete(""), Err(ShortcutError::EmptyShortcut));
}

#[test]
fn storage_faults_map_to_operation_errors() {
    let mut service = ShortcutService::new(BrokenRepository);
    assert_eq!(service.find_similar("google"), Err(ShortcutError::FailedToSearch));
    assert_eq!(service.get("google"), Err(ShortcutError::FailedToGet));
    assert_eq!(service.create(&request("google", "https://x.example")), Err(ShortcutError::FailedToCreate));
    assert_eq!(
        service.create_or_update(&request("google", "https://x.example")),
        Err(ShortcutError::FailedToCreate)
    );
    assert_eq!(service.update(&request("google", "https://x.example")), Err(ShortcutError::FailedToUpdate));
    assert_eq!(service.delete("google"), Err(ShortcutError::FailedToDelete));
}

#[test]
fn upsert_fails_when_update_after_collision_fails() {
    let mut service = ShortcutService::new(TakenRepository);
    assert_eq!(
        service.create_or_update(&request("google", "https://x.example")),
        Err(ShortcutError::FailedToCreateOrUpdate)
    );
    assert_eq!(service.create(&request("google", "https://x.example")), Err(ShortcutError::UniqueConstraintError));
}

#[test]
fn find_similar_ranks_and_excludes_non_matches() {
    let service = seeded();
    let result = service.find_similar("google").unwrap();

    assert_eq!(keywords(&result), vec!["google", "gle", "g"]);
}

#[test]
fn find_similar_ignores_query_case() {
    let service = seeded();
    let result = service.find_similar("  GOOGLE ").unwrap();

    assert_eq!(keywords(&result), vec!["google", "gle", "g"]);
}

#[test]
fn find_similar_without_overlap_is_no_matches() {
    let service = seeded();
    assert_eq!(service.find_similar("bing"), Err(ShortcutError::NoMatches));
}

#[test]
fn get_twice_gives_the_same_result() {
    let service = seeded();
    assert_eq!(service.get("gle"), service.get("gle"));
    assert_eq!(service.get("nope"), service.get("nope"));
}

#[test]
fn keyword_lookup_ignores_case() {
    let mut service = ShortcutService::new(InMemoryRepository::new());
    assert_eq!(service.create(&request("Google", "https://google.com")), Ok(true));
    let lower = service.get("google").unwrap();
    let upper = service.get("GOOGLE").unwrap();

    assert_eq!(lower, upper);
    assert_eq!(lower.keyword, "google");
    assert_eq!(lower.url, "https://google.com");
}

#[test]
fn rank_keeps_storage_order_for_equal_scores() {
    let first = vec![
        Shortcut::new("xab".to_owned(), "https://x.example".to_owned()),
        Shortcut::new("yab".to_owned(), "https://y.example".to_owned()),
    ];
    let second = vec![first[1].clone(), first[0].clone()];

    assert_eq!(keywords(&rank("ab", &first).unwrap()), vec!["xab", "yab"]);
    assert_eq!(keywords(&rank("ab", &second).unwrap()), vec!["yab", "xab"]);
}

#[test]
fn rank_by_scores_orders_by_score_then_position() {
    let candidates: Vec<Shortcut> = ["a", "b", "c", "d"]
        .iter()
        .map(|k| Shortcut::new(k.to_string(), format!("https://{}.example", k)))
        .collect();
    let result = rank_by_scores(&vec![0, 5, 5, 9], &candidates).unwrap();

    assert_eq!(keywords(&result), vec!["d", "b", "c"]);
    assert_eq!(rank_by_scores(&vec![0, 0, 0, 0], &candidates), Err(ShortcutError::NoMatches));
    assert_eq!(rank_by_scores(&vec![], &vec![]), Err(ShortcutError::NoMatches));
}

#[test]
fn rank_order_lists_positive_scores() {
    assert_eq!(rank_order(&vec![3, 0, 7, 3, 1]), vec![2, 0, 3, 4]);
    assert_eq!(rank_order(&vec![]), Vec::<usize>::new());
}

#[test]
fn normalize_trims_and_lowercases() {
    assert_eq!(normalize_keyword("  GoOgle \t"), "google");
    assert_eq!(normalize_keyword(""), "");
}

#[test]
fn new_shortcut_is_fresh() {
    let before = get_timestamp();
    let s = Shortcut::new("Docs".to_owned(), "https://docs.example".to_owned());
    let from_request = Shortcut::from_request(&request(" Docs ", "https://docs.example"));

    assert!(before > 0);
    assert_eq!(s.id, None);
    assert_eq!(s.keyword, "Docs");
    assert_eq!(s.created, s.updated);
    assert!(s.created.unwrap() >= before);
    assert_eq!(from_request.keyword, "docs");
    assert_eq!(from_request.url, "https://docs.example");
    assert_eq!(s.duplicate(), s);
}

#[test]
fn timestamps_from_elapsed_seconds() {
    assert_eq!(timestamp_from_elapsed(Some(1_700_000_000)), 1_700_000_000);
    assert_eq!(timestamp_from_elapsed(Some(u64::MAX)), i64::MAX);
    assert_eq!(timestamp_from_elapsed(None), 0);
}

#[test]
fn create_gives_fresh_ids() {
    let mut service = seeded();
    assert_eq!(service.delete("gle"), Ok(true));
    assert_eq!(service.create(&request("bing", "https://bing.co.uk")), Ok(true));
    let bing = service.get("bing").unwrap();

    assert_eq!(bing.id, Some(5));
    assert_eq!(bing.url, "https://bing.co.uk");
}

#[test]
fn row_counts_decide_update_and_delete_results() {
    assert_eq!(rows_changed(1), Ok(true));
    assert_eq!(rows_changed(0), Ok(false));
    assert_eq!(rows_changed(2), Err(StorageError::Fault));
}

#[test]
fn show_search_over_store() {
    let service = seeded();
    let shown = service.show_search("google");
    match shown {
        SearchView::Results(t) => {
            assert_eq!(keywords(&t.shortcuts), vec!["google", "gle", "g"]);
            assert_eq!(t.query, "google");
        }
        other => panic!("unexpected view {:?}", other),
    }
    assert_eq!(service.show_search("bing"), SearchView::CreateNew(CreateNewTemplate { keyword: "bing".to_owned() }));
    assert_eq!(service.show_search(""), SearchView::Empty(EmptyTemplate {}));
    assert_eq!(
        ShortcutService::new(BrokenRepository).show_search("google"),
        SearchView::Error(ErrorAlert { error: ShortcutError::FailedToSearch.message(), successful: false })
    );
}

#[test]
fn show_create_over_store() {
    let mut service = seeded();
    assert_eq!(
        service.show_create(&request("bing", "https://bing.co.uk")),
        CreateView::Success(SuccessAlert { message: "Successfully created shortcut!".to_owned(), successful: true })
    );
    assert_eq!(
        service.show_create(&request("Google", "https://google.co.uk")),
        CreateView::Info(InfoAlert { message: "Shortcut already added.".to_owned(), successful: true })
    );
    let stored = service.get("google").unwrap();
    assert_eq!(
        service.show_create(&request("google", "https://google.com")),
        CreateView::CheckUpdate(CheckUpdateTemplate {
            shortcut: stored,
            new_url: "https://google.com".to_owned(),
            successful: false
        })
    );
    assert_eq!(service.get("google").unwrap().url, "https://google.co.uk");
}

#[test]
fn show_create_over_failing_stores() {
    assert_eq!(
        ShortcutService::new(TakenRepository).show_create(&request("google", "https://google.com")),
        CreateView::Error(ErrorAlert { error: ShortcutError::FailedToGet.message(), successful: false })
    );
    assert_eq!(
        ShortcutService::new(BrokenRepository).show_create(&request("google", "https://google.com")),
        CreateView::Error(ErrorAlert { error: ShortcutError::FailedToCreate.message(), successful: false })
    );
}

#[test]
fn show_update_and_delete_over_store() {
    let mut service = seeded();
    assert_eq!(
        service.show_update(&request("google", "https://google.com")),
        ChangeView::Success(SuccessAlert { message: "Successfully updated shortcut!".to_owned(), successful: true })
    );
    assert_eq!(
        service.show_update(&request("bing", "https://bing.com")),
        ChangeView::Info(InfoAlert { message: "No shortcut to update.".to_owned(), successful: false })
    );
    assert_eq!(
        service.show_delete("google"),
        ChangeView::Success(SuccessAlert { message: "Successfully deleted shortcut!".to_owned(), successful: true })
    );
    assert_eq!(
        service.show_delete("google"),
        ChangeView::Info(InfoAlert { message: "No shortcut to delete.".to_owned(), successful: false })
    );
    assert_eq!(
        ShortcutService::new(BrokenRepository).show_update(&request("google", "https://google.com")),
        ChangeView::Error(ErrorAlert { error: ShortcutError::FailedToUpdate.message(), successful: false })
    );
}

#[test]
fn redirect_over_store() {
    let service = seeded();
    assert_eq!(service.redirect("Google", "http://localhost:3000"), "https://google.co.uk");
    assert_eq!(service.redirect("bing", "http://localhost:3000"), "/search?keyword=bing");
    assert_eq!(
        ShortcutService::new(BrokenRepository).redirect("google", "http://localhost:3000"),
        "http://localhost:3000"
    );
}
