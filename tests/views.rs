use shortcut::error::ShortcutError;
use shortcut::shortcut::{PostRequest, Shortcut};
use shortcut::views::{
    create_view, delete_view, redirect_location, search_view, update_view, ChangeView, CheckUpdateTemplate,
    CreateNewTemplate, CreateView, EmptyTemplate, ErrorAlert, InfoAlert, SearchResultsTemplate, SearchView,
    SuccessAlert,
};

fn row(id: i64, created: i64, updated: i64, keyword: &str, url: &str) -> Shortcut {
    Shortcut {
        id: Some(id),
        created: Some(created),
        updated: Some(updated),
        keyword: keyword.to_owned(),
        url: url.to_owned(),
    }
}

fn google_shortcut() -> Shortcut {
    row(1, 1, 2, "google", "https://google.co.uk")
}

fn g_shortcut() -> Shortcut {
    row(2, 11, 22, "g", "https://google.com")
}

fn gle_shortcut() -> Shortcut {
    row(4, 1111, 2222, "gle", "https://greatlightexchange.co.uk")
}

fn google_com_shortcut() -> Shortcut {
    row(1, 1, 3, "google", "https://google.com")
}

fn error_view(e: ShortcutError) -> ErrorAlert {
    ErrorAlert { error: e.message(), successful: false }
}

#[test]
fn get_redirect_to_shortcut_when_exists() {
    let input = "google".to_string();
    let result = redirect_location(&input, Ok(google_shortcut()), "http://localhost:3000");

    assert_eq!(result, google_shortcut().url);
}

#[test]
fn get_redirect_to_search_when_not_exists() {
    let input = "google".to_string();
    let result = redirect_location(&input, Err(ShortcutError::NotFound), "http://localhost:3000");

    assert_eq!(result, format!("/search?keyword={}", input));
}

#[test]
fn redirect_to_fallback_when_lookup_fails() {
    let result = redirect_location("google", Err(ShortcutError::FailedToGet), "http://localhost:3000");

    assert_eq!(result, "http://localhost:3000");
}

#[test]
fn return_success_html_when_updated() {
    let result = update_view(Ok(true));

    let message: String = "Successfully updated shortcut!".to_string();
    assert_eq!(result, ChangeView::Success(SuccessAlert { message, successful: true }));
}

#[test]
fn return_error_html_when_failed_to_update() {
    let result = update_view(Err(ShortcutError::FailedToUpdate));

    assert_eq!(result, ChangeView::Error(error_view(ShortcutError::FailedToUpdate)));
}

#[test]
fn return_info_html_when_nothing_updated() {
    let result = update_view(Ok(false));

    assert_eq!(
        result,
        ChangeView::Info(InfoAlert { message: "No shortcut to update.".to_owned(), successful: false })
    );
}

#[test]
fn delete_views() {
    assert_eq!(
        delete_view(Ok(true)),
        ChangeView::Success(SuccessAlert { message: "Successfully deleted shortcut!".to_owned(), successful: true })
    );
    assert_eq!(
        delete_view(Ok(false)),
        ChangeView::Info(InfoAlert { message: "No shortcut to delete.".to_owned(), successful: false })
    );
    assert_eq!(
        delete_view(Err(ShortcutError::FailedToDelete)),
        ChangeView::Error(error_view(ShortcutError::FailedToDelete))
    );
}

#[test]
fn shortcut_return_success_html_when_updated() {
    let input = PostRequest { keyword: "google".to_owned(), url: "https://google.co.uk".to_owned() };
    let result = create_view(&input.url, Ok(true), None);

    assert_eq!(
        result,
        CreateView::Success(SuccessAlert { message: "Successfully created shortcut!".into(), successful: true })
    );
}

#[test]
fn return_info_html_when_shortcut_already_created() {
    let input = PostRequest { keyword: "google".to_owned(), url: "https://google.co.uk".to_owned() };
    let result = create_view(&input.url, Err(ShortcutError::UniqueConstraintError), Some(Ok(google_shortcut())));

    assert_eq!(result, CreateView::Info(InfoAlert { message: "Shortcut already added.".into(), successful: true }));
}

#[test]
fn return_error_html_when_shortcut_already_created() {
    let input = PostRequest { keyword: "google".to_owned(), url: "https://google.co.uk".to_owned() };
    let result =
        create_view(&input.url, Err(ShortcutError::UniqueConstraintError), Some(Ok(google_com_shortcut())));

    assert_eq!(
        result,
        CreateView::CheckUpdate(CheckUpdateTemplate {
            shortcut: google_com_shortcut(),
            new_url: input.url,
            successful: false
        })
    );
}

#[test]
fn return_error_html_when_shortcut_already_created_and_get_error() {
    let input = PostRequest { keyword: "google".to_owned(), url: "https://google.co.uk".to_owned() };
    let result = create_view(
        &input.url,
        Err(ShortcutError::UniqueConstraintError),
        Some(Err(ShortcutError::FailedToGet)),
    );

    assert_eq!(result, CreateView::Error(error_view(ShortcutError::FailedToGet)));
}

#[test]
fn return_error_html_when_failed_() {
    let input = PostRequest { keyword: "google".to_owned(), url: "https://google.co.uk".to_owned() };
    let result = create_view(&input.url, Err(ShortcutError::FailedToCreate), None);

    assert_eq!(result, CreateView::Error(error_view(ShortcutError::FailedToCreate)));
}

#[test]
fn return_success_html_when_matches_found() {
    let input = "google".to_owned();
    let shortcuts: Vec<Shortcut> = vec![google_shortcut(), gle_shortcut(), g_shortcut()];
    let result = search_view(&input, Ok(shortcuts.clone()));

    assert_eq!(result, SearchView::Results(SearchResultsTemplate { shortcuts, query: input }));
}

#[test]
fn return_create_new_html_when_no_matches_found() {
    let input = "google".to_owned();
    let result = search_view(&input, Err(ShortcutError::NoMatches));

    assert_eq!(result, SearchView::CreateNew(CreateNewTemplate { keyword: input }));
}

#[test]
fn return_error_html_when_error_returned() {
    let input = "google".to_owned();
    let result = search_view(&input, Err(ShortcutError::FailedToSearch));

    assert_eq!(result, SearchView::Error(error_view(ShortcutError::FailedToSearch)));
}

#[test]
fn empty_search_shows_nothing() {
    let result = search_view("", Err(ShortcutError::EmptyShortcut));

    assert_eq!(result, SearchView::Empty(EmptyTemplate {}));
}

#[test]
fn error_messages() {
    assert_eq!(ShortcutError::NotFound.message(), "shortcut not found.");
    assert_eq!(ShortcutError::FailedToGet.message(), "Failed to get shortcut.");
    assert_eq!(ShortcutError::FailedToCreate.message(), "Failed to create shortcut. Please try again.");
    assert_eq!(ShortcutError::UniqueConstraintError.message(), "Keyword is not unique.");
    assert_eq!(ShortcutError::FailedToUpdate.message(), "Failed to update shortcut. Please try again.");
    assert_eq!(
        ShortcutError::NoMatches.message(),
        "Failed to find match for keyword, would you like to create one?."
    );
    assert_eq!(ShortcutError::FailedToSearch.message(), "Failed to search shortcut.");
    assert_eq!(ShortcutError::FailedToDelete.message(), "Failed to delete shortcut.");
    assert_eq!(ShortcutError::EmptyShortcut.message(), "Keyword must not be empty.");
    assert_eq!(
        ShortcutError::FailedToCreateOrUpdate.message(),
        "Failed to create or update shortcut. Please try again."
    );
}
