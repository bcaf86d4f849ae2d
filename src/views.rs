use crate::error::{error_text, ShortcutError};
use crate::repository::ShortcutRepositoryTrait;
use crate::service::{
    create_result, delete_result, get_result, search_result, update_result, ShortcutService,
};
use crate::shortcut::{PostRequest, Shortcut};
use vstd::prelude::*;
use vstd::string::StringExecFns;

verus! {

/// An alert that reports an error.
#[derive(Clone, Debug, PartialEq)]
pub struct ErrorAlert {
    pub error: String,
    pub successful: bool,
}

/// An alert that informs without reporting success or failure.
#[derive(Clone, Debug, PartialEq)]
pub struct InfoAlert {
    pub message: String,
    pub successful: bool,
}

/// An alert that reports success.
#[derive(Clone, Debug, PartialEq)]
pub struct SuccessAlert {
    pub message: String,
    pub successful: bool,
}

/// The ranked results of a search.
#[derive(Clone, Debug, PartialEq)]
pub struct SearchResultsTemplate {
    pub shortcuts: Vec<Shortcut>,
    pub query: String,
}

/// The offer to point an existing shortcut at a new URL.
#[derive(Clone, Debug, PartialEq)]
pub struct CheckUpdateTemplate {
    pub shortcut: Shortcut,
    pub new_url: String,
    pub successful: bool,
}

/// The offer to create a shortcut for a keyword that matched nothing.
#[derive(Clone, Debug, PartialEq)]
pub struct CreateNewTemplate {
    pub keyword: String,
}

/// Nothing to show.
#[derive(Clone, Debug, PartialEq)]
pub struct EmptyTemplate {}

/// A dialog that reports success.
#[derive(Clone, Debug, PartialEq)]
pub struct SuccessDialog {
    pub title: String,
    pub message: String,
    pub keyword: String,
    pub action: String,
    pub status: String,
}

/// A dialog that reports an error.
#[derive(Clone, Debug, PartialEq)]
pub struct ErrorDialog {
    pub title: String,
    pub message: String,
    pub keyword: String,
    pub action: String,
    pub status: String,
}

/// A dialog that informs.
#[derive(Clone, Debug, PartialEq)]
pub struct InfoDialog {
    pub title: String,
    pub message: String,
    pub keyword: String,
    pub action: String,
    pub status: String,
}

/// The page for creating shortcuts.
#[derive(Clone, Debug, PartialEq)]
pub struct CreatePageTemplate {}

/// The page for searching shortcuts.
#[derive(Clone, Debug, PartialEq)]
pub struct SearchPageTemplate {}

/// What a search shows.
#[derive(Clone, Debug, PartialEq)]
pub enum SearchView {
    Results(SearchResultsTemplate),
    CreateNew(CreateNewTemplate),
    Empty(EmptyTemplate),
    Error(ErrorAlert),
}

/// What a create shows.
#[derive(Clone, Debug, PartialEq)]
pub enum CreateView {
    Success(SuccessAlert),
    Info(InfoAlert),
    CheckUpdate(CheckUpdateTemplate),
    Error(ErrorAlert),
}

/// What an update or a delete shows.
#[derive(Clone, Debug, PartialEq)]
pub enum ChangeView {
    Success(SuccessAlert),
    Info(InfoAlert),
    Error(ErrorAlert),
}

/// What a search for `query` with this result shows.
pub open spec fn search_view_of(query: Seq<char>, result: Result<Vec<Shortcut>, ShortcutError>, r: SearchView) -> bool {
    match result {
        Ok(v) => r is Results && r->Results_0.shortcuts == v && r->Results_0.query@ == query,
        Err(ShortcutError::NoMatches) => r is CreateNew && r->CreateNew_0.keyword@ == query,
        Err(ShortcutError::EmptyShortcut) => r is Empty,
        Err(e) => r is Error && r->Error_0.error@ == error_text(e) && !r->Error_0.successful,
    }
}

/// What a create to `new_url` with this result, and this lookup after a
/// uniqueness violation, shows.
pub open spec fn create_view_of(
    new_url: Seq<char>,
    created: Result<bool, ShortcutError>,
    existing: Option<Result<Shortcut, ShortcutError>>,
    r: CreateView,
) -> bool {
    match created {
        Ok(_) => r is Success && r->Success_0.message@ == "Successfully created shortcut!"@
            && r->Success_0.successful,
        Err(ShortcutError::UniqueConstraintError) => match existing {
            Some(Ok(s)) => if s.url@ == new_url {
                r is Info && r->Info_0.message@ == "Shortcut already added."@ && r->Info_0.successful
            } else {
                r is CheckUpdate && r->CheckUpdate_0.shortcut == s && r->CheckUpdate_0.new_url@
                    == new_url && !r->CheckUpdate_0.successful
            },
            Some(Err(e)) => r is Error && r->Error_0.error@ == error_text(e) && !r->Error_0.successful,
            None => r is Error && r->Error_0.error@ == error_text(ShortcutError::UniqueConstraintError)
                && !r->Error_0.successful,
        },
        Err(e) => r is Error && r->Error_0.error@ == error_text(e) && !r->Error_0.successful,
    }
}

/// What an update with this result shows.
pub open spec fn update_view_of(result: Result<bool, ShortcutError>, r: ChangeView) -> bool {
    match result {
        Ok(true) => r is Success && r->Success_0.message@ == "Successfully updated shortcut!"@
            && r->Success_0.successful,
        Ok(false) => r is Info && r->Info_0.message@ == "No shortcut to update."@ && !r->Info_0.successful,
        Err(e) => r is Error && r->Error_0.error@ == error_text(e) && !r->Error_0.successful,
    }
}

/// What a delete with this result shows.
pub open spec fn delete_view_of(result: Result<bool, ShortcutError>, r: ChangeView) -> bool {
    match result {
        Ok(true) => r is Success && r->Success_0.message@ == "Successfully deleted shortcut!"@
            && r->Success_0.successful,
        Ok(false) => r is Info && r->Info_0.message@ == "No shortcut to delete."@ && !r->Info_0.successful,
        Err(e) => r is Error && r->Error_0.error@ == error_text(e) && !r->Error_0.successful,
    }
}

/// Where a lookup of `keyword` with this result sends the user.
pub open spec fn redirect_of(keyword: Seq<char>, found: Result<Shortcut, ShortcutError>, fallback: Seq<char>, r: Seq<char>) -> bool {
    match found {
        Ok(s) => r == s.url@,
        Err(ShortcutError::NotFound) => r == "/search?keyword="@ + keyword,
        Err(_) => r == fallback,
    }
}

/// The alert for an error.
pub fn error_alert(e: ShortcutError) -> (r: ErrorAlert)
    ensures
        r.error@ == error_text(e),
        !r.successful,
{
    ErrorAlert { error: e.message(), successful: false }
}

/// What a search for `query` shows: the ranked results, an offer to create the
/// keyword when nothing matched, nothing for an empty query, or the error.
pub fn search_view(query: &str, result: Result<Vec<Shortcut>, ShortcutError>) -> (r: SearchView)
    ensures
        search_view_of(query@, result, r),
{
    match result {
        Ok(shortcuts) => SearchView::Results(SearchResultsTemplate { shortcuts, query: query.to_owned() }),
        Err(ShortcutError::NoMatches) => SearchView::CreateNew(CreateNewTemplate { keyword: query.to_owned() }),
        Err(ShortcutError::EmptyShortcut) => SearchView::Empty(EmptyTemplate {}),
        Err(e) => SearchView::Error(error_alert(e)),
    }
}

/// What a create shows, from its result and, after a uniqueness violation,
/// the lookup of the shortcut already stored under the keyword: success; a
/// note when that shortcut already has the requested URL; an offer to point
/// it at the requested URL when it has another; or the error.
pub fn create_view(
    new_url: &str,
    created: Result<bool, ShortcutError>,
    existing: Option<Result<Shortcut, ShortcutError>>,
) -> (r: CreateView)
    ensures
        create_view_of(new_url@, created, existing, r),
{
    match created {
        Ok(_) => CreateView::Success(
            SuccessAlert { message: "Successfully created shortcut!".to_owned(), successful: true },
        ),
        Err(ShortcutError::UniqueConstraintError) => match existing {
            Some(Ok(shortcut)) => {
                let same = shortcut.url == new_url.to_owned();
                if same {
                    CreateView::Info(InfoAlert { message: "Shortcut already added.".to_owned(), successful: true })
                } else {
                    CreateView::CheckUpdate(
                        CheckUpdateTemplate { shortcut, new_url: new_url.to_owned(), successful: false },
                    )
                }
            },
            Some(Err(e)) => CreateView::Error(error_alert(e)),
            None => CreateView::Error(error_alert(ShortcutError::UniqueConstraintError)),
        },
        Err(e) => CreateView::Error(error_alert(e)),
    }
}

/// What an update shows: success, a note when no shortcut had the keyword,
/// or the error.
pub fn update_view(result: Result<bool, ShortcutError>) -> (r: ChangeView)
    ensures
        update_view_of(result, r),
{
    match result {
        Ok(true) => ChangeView::Success(
            SuccessAlert { message: "Successfully updated shortcut!".to_owned(), successful: true },
        ),
        Ok(false) => ChangeView::Info(InfoAlert { message: "No shortcut to update.".to_owned(), successful: false }),
        Err(e) => ChangeView::Error(error_alert(e)),
    }
}

/// What a delete shows: success, a note when no shortcut had the keyword,
/// or the error.
pub fn delete_view(result: Result<bool, ShortcutError>) -> (r: ChangeView)
    ensures
        delete_view_of(result, r),
{
    match result {
        Ok(true) => ChangeView::Success(
            SuccessAlert { message: "Successfully deleted shortcut!".to_owned(), successful: true },
        ),
        Ok(false) => ChangeView::Info(InfoAlert { message: "No shortcut to delete.".to_owned(), successful: false }),
        Err(e) => ChangeView::Error(error_alert(e)),
    }
}

/// Where a lookup of `keyword` sends the user: the shortcut's URL; the search
/// page for the keyword when no shortcut has it; `fallback` when the lookup
/// failed otherwise.
pub fn redirect_location(keyword: &str, found: Result<Shortcut, ShortcutError>, fallback: &str) -> (r: String)
    ensures
        redirect_of(keyword@, found, fallback@, r@),
{
    match found {
        Ok(shortcut) => shortcut.url,
        Err(ShortcutError::NotFound) => {
            let mut location = "/search?keyword=".to_owned();
            location.append(keyword);
            location
        },
        Err(_) => fallback.to_owned(),
    }
}

impl<R: ShortcutRepositoryTrait> ShortcutService<R> {
    /// Searches for `query` and picks what to show: the ranked results, an
    /// offer to create the keyword, nothing for an empty query, or the error.
    pub fn show_search(&self, query: &str) -> (r: SearchView)
        ensures
            exists|result: Result<Vec<Shortcut>, ShortcutError>|
                search_result(self.rows(), query@, result) && #[trigger] search_view_of(query@, result, r),
            query@.len() == 0 ==> r is Empty,
    {
        let result = self.find_similar(query);
        let ghost found = result;
        let r = search_view(query, result);
        assert(search_result(self.rows(), query@, found) && search_view_of(query@, found, r));
        r
    }

    /// Creates the requested shortcut and picks what to show; when the keyword
    /// is taken, looks up the stored shortcut so the choice can be offered.
    pub fn show_create(&mut self, request: &PostRequest) -> (r: CreateView)
        ensures
            exists|created: Result<bool, ShortcutError>, existing: Option<Result<Shortcut, ShortcutError>>|
                {
                    &&& create_result(old(self).rows(), final(self).rows(), request.keyword@, request.url@, created)
                    &&& created == Err::<bool, ShortcutError>(ShortcutError::UniqueConstraintError) ==> existing is Some
                        && get_result(final(self).rows(), request.keyword@, existing->Some_0)
                    &&& created != Err::<bool, ShortcutError>(ShortcutError::UniqueConstraintError) ==> existing is None
                    &&& #[trigger] create_view_of(request.url@, created, existing, r)
                },
    {
        let created = self.create(request);
        let existing = match created {
            Err(ShortcutError::UniqueConstraintError) => Some(self.get(request.keyword.as_str())),
            _ => None,
        };
        let ghost looked_up = existing;
        let r = create_view(request.url.as_str(), created, existing);
        assert(create_view_of(request.url@, created, looked_up, r));
        r
    }

    /// Updates the requested shortcut and picks what to show.
    pub fn show_update(&mut self, request: &PostRequest) -> (r: ChangeView)
        ensures
            exists|result: Result<bool, ShortcutError>|
                update_result(old(self).rows(), final(self).rows(), request.keyword@, request.url@, result)
                    && #[trigger] update_view_of(result, r),
    {
        let result = self.update(request);
        let r = update_view(result);
        assert(update_view_of(result, r));
        r
    }

    /// Deletes the shortcut under `keyword` and picks what to show.
    pub fn show_delete(&mut self, keyword: &str) -> (r: ChangeView)
        ensures
            exists|result: Result<bool, ShortcutError>|
                delete_result(old(self).rows(), final(self).rows(), keyword@, result) && #[trigger] delete_view_of(
                    result,
                    r,
                ),
    {
        let result = self.delete(keyword);
        let r = delete_view(result);
        assert(delete_view_of(result, r));
        r
    }

    /// Looks up `keyword` and gives where to send the user: the shortcut's URL,
    /// the search page for the keyword, or `fallback` when the lookup failed.
    pub fn redirect(&self, keyword: &str, fallback: &str) -> (r: String)
        ensures
            exists|found: Result<Shortcut, ShortcutError>|
                get_result(self.rows(), keyword@, found) && #[trigger] redirect_of(keyword@, found, fallback@, r@),
    {
        let found = self.get(keyword);
        let ghost got = found;
        let r = redirect_location(keyword, found, fallback);
        assert(redirect_of(keyword@, got, fallback@, r@));
        r
    }
}

} // verus!
