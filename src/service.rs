use crate::error::ShortcutError;
use crate::matching::{rank, ranked_result, scores_for};
use crate::repository::{
    fresh_id, has_keyword, removed_rows, row_for, updated_rows, ShortcutRepositoryTrait, StorageError,
};
use crate::shortcut::{PostRequest, Shortcut};
use crate::text::{normalize_keyword, normalized};
use vstd::prelude::*;

verus! {

/// Which way an upsert went.
#[derive(Debug, Clone, Copy, PartialEq, Eq, Structural)]
pub enum Upsert {
    Created,
    Updated,
}

impl Upsert {
    /// The tag a caller reports: `"created"` or `"updated"`.
    pub fn as_str(&self) -> (r: &'static str)
        ensures
            r@ == (match *self {
                Upsert::Created => "created"@,
                Upsert::Updated => "updated"@,
            }),
    {
        match self {
            Upsert::Created => "created",
            Upsert::Updated => "updated",
        }
    }
}

/// `new` is `old` with a fresh row for keyword `key` and URL `url` at the end,
/// under an id that storage assigned and no other row has.
pub open spec fn added_row(old: Seq<Shortcut>, new: Seq<Shortcut>, key: Seq<char>, url: Seq<char>) -> bool {
    &&& new.len() == old.len() + 1
    &&& new.drop_last() == old
    &&& fresh_id(old, new)
    &&& new.last().keyword@ == key
    &&& new.last().url@ == url
    &&& new.last().created is Some
    &&& new.last().created == new.last().updated
}

/// `new` is `old` with the row of keyword `key` pointed at `url` and its update
/// time refreshed to a current reading of the clock (or to its creation time,
/// if that is later); its id, keyword and creation time stay.
pub open spec fn changed_rows(old: Seq<Shortcut>, new: Seq<Shortcut>, key: Seq<char>, url: Seq<char>) -> bool {
    exists|stamp: i64| stamp >= 0 && #[trigger] updated_rows(old, new, key, url, stamp)
}

/// What `get(keyword)` may return on a store holding `rows`.
pub open spec fn get_result(rows: Seq<Shortcut>, keyword: Seq<char>, r: Result<Shortcut, ShortcutError>) -> bool {
    let key = normalized(keyword);
    if key.len() == 0 {
        r == Err::<Shortcut, ShortcutError>(ShortcutError::EmptyShortcut)
    } else {
        match r {
            Ok(s) => row_for(rows, key, s),
            Err(e) => (e == ShortcutError::NotFound && !has_keyword(rows, key)) || e
                == ShortcutError::FailedToGet,
        }
    }
}

/// What `find_similar(query)` may return on a store holding `rows`.
pub open spec fn search_result(rows: Seq<Shortcut>, query: Seq<char>, r: Result<Vec<Shortcut>, ShortcutError>) -> bool {
    let key = normalized(query);
    if key.len() == 0 {
        r == Err::<Vec<Shortcut>, ShortcutError>(ShortcutError::EmptyShortcut)
    } else {
        r == Err::<Vec<Shortcut>, ShortcutError>(ShortcutError::FailedToSearch) || ranked_result(
            scores_for(key, rows),
            rows,
            r,
        )
    }
}

/// What `create(keyword, url)` may return, taking the store from `old` to `new`.
pub open spec fn create_result(
    old: Seq<Shortcut>,
    new: Seq<Shortcut>,
    keyword: Seq<char>,
    url: Seq<char>,
    r: Result<bool, ShortcutError>,
) -> bool {
    let key = normalized(keyword);
    if key.len() == 0 {
        r == Err::<bool, ShortcutError>(ShortcutError::EmptyShortcut) && new == old
    } else {
        match r {
            Ok(b) => b && !has_keyword(old, key) && added_row(old, new, key, url),
            Err(ShortcutError::UniqueConstraintError) => has_keyword(old, key) && new == old,
            Err(ShortcutError::FailedToCreate) => new == old,
            Err(_) => false,
        }
    }
}

/// What `create_or_update(keyword, url)` may return, taking the store from
/// `old` to `new`.
pub open spec fn upsert_result(
    old: Seq<Shortcut>,
    new: Seq<Shortcut>,
    keyword: Seq<char>,
    url: Seq<char>,
    r: Result<Upsert, ShortcutError>,
) -> bool {
    let key = normalized(keyword);
    if key.len() == 0 {
        r == Err::<Upsert, ShortcutError>(ShortcutError::EmptyShortcut) && new == old
    } else {
        match r {
            Ok(Upsert::Created) => !has_keyword(old, key) && added_row(old, new, key, url),
            Ok(Upsert::Updated) => has_keyword(old, key) && changed_rows(old, new, key, url),
            Err(ShortcutError::FailedToCreate) => new == old,
            Err(ShortcutError::FailedToCreateOrUpdate) => has_keyword(old, key) && new == old,
            Err(_) => false,
        }
    }
}

/// What `update(keyword, url)` may return, taking the store from `old` to `new`.
pub open spec fn update_result(
    old: Seq<Shortcut>,
    new: Seq<Shortcut>,
    keyword: Seq<char>,
    url: Seq<char>,
    r: Result<bool, ShortcutError>,
) -> bool {
    let key = normalized(keyword);
    if key.len() == 0 {
        r == Err::<bool, ShortcutError>(ShortcutError::EmptyShortcut) && new == old
    } else {
        match r {
            Ok(true) => has_keyword(old, key) && changed_rows(old, new, key, url),
            Ok(false) => !has_keyword(old, key) && new == old,
            Err(ShortcutError::FailedToUpdate) => new == old,
            Err(_) => false,
        }
    }
}

/// What `delete(keyword)` may return, taking the store from `old` to `new`.
pub open spec fn delete_result(old: Seq<Shortcut>, new: Seq<Shortcut>, keyword: Seq<char>, r: Result<bool, ShortcutError>) -> bool {
    let key = normalized(keyword);
    if key.len() == 0 {
        r == Err::<bool, ShortcutError>(ShortcutError::EmptyShortcut) && new == old
    } else {
        match r {
            Ok(true) => removed_rows(old, new, key),
            Ok(false) => !has_keyword(old, key) && new == old,
            Err(ShortcutError::FailedToDelete) => new == old,
            Err(_) => false,
        }
    }
}

/// The rules of shortcuts over a persistence port: keywords are normalized
/// once here, empty keywords never reach storage, and storage failures come
/// back as the `FailedTo*` kind of the operation.
pub struct ShortcutService<R: ShortcutRepositoryTrait> {
    repository: R,
}

impl<R: ShortcutRepositoryTrait> ShortcutService<R> {
    /// The rows of the underlying store.
    pub closed spec fn rows(&self) -> Seq<Shortcut> {
        self.repository.rows()
    }

    /// A service over `repository`.
    pub fn new(repository: R) -> (r: Self)
        ensures
            r.rows() == repository.rows(),
    {
        ShortcutService { repository }
    }

    /// The stored shortcuts whose keywords resemble `keyword`, most similar
    /// first, equal scores in storage order.
    pub fn find_similar(&self, keyword: &str) -> (r: Result<Vec<Shortcut>, ShortcutError>)
        ensures
            search_result(self.rows(), keyword@, r),
            keyword@.len() == 0 ==> r == Err::<Vec<Shortcut>, ShortcutError>(ShortcutError::EmptyShortcut),
    {
        let key = normalize_keyword(keyword);
        if key.as_str().is_empty() {
            return Err(ShortcutError::EmptyShortcut);
        }
        match self.repository.fetch_all() {
            Ok(all) => rank(key.as_str(), &all),
            Err(_) => Err(ShortcutError::FailedToSearch),
        }
    }

    /// The shortcut stored under `keyword`, in any letter case.
    pub fn get(&self, keyword: &str) -> (r: Result<Shortcut, ShortcutError>)
        ensures
            get_result(self.rows(), keyword@, r),
            keyword@.len() == 0 ==> r == Err::<Shortcut, ShortcutError>(ShortcutError::EmptyShortcut),
    {
        let key = normalize_keyword(keyword);
        if key.as_str().is_empty() {
            return Err(ShortcutError::EmptyShortcut);
        }
        match self.repository.get(key.as_str()) {
            Ok(s) => Ok(s),
            Err(StorageError::RowNotFound) => Err(ShortcutError::NotFound),
            Err(_) => Err(ShortcutError::FailedToGet),
        }
    }

    /// Stores a new shortcut; never overwrites one with the same keyword.
    pub fn create(&mut self, request: &PostRequest) -> (r: Result<bool, ShortcutError>)
        ensures
            create_result(old(self).rows(), final(self).rows(), request.keyword@, request.url@, r),
            request.keyword@.len() == 0 ==> r == Err::<bool, ShortcutError>(ShortcutError::EmptyShortcut),
    {
        let shortcut = Shortcut::from_request(request);
        if shortcut.keyword.as_str().is_empty() {
            return Err(ShortcutError::EmptyShortcut);
        }
        match self.repository.create(&shortcut) {
            Ok(()) => Ok(true),
            Err(StorageError::UniqueViolation) => Err(ShortcutError::UniqueConstraintError),
            Err(_) => Err(ShortcutError::FailedToCreate),
        }
    }

    /// Stores a new shortcut, or, when only the keyword's uniqueness stops
    /// that, points the existing one at the new URL.
    pub fn create_or_update(&mut self, request: &PostRequest) -> (r: Result<Upsert, ShortcutError>)
        ensures
            upsert_result(old(self).rows(), final(self).rows(), request.keyword@, request.url@, r),
            request.keyword@.len() == 0 ==> r == Err::<Upsert, ShortcutError>(ShortcutError::EmptyShortcut),
    {
        let shortcut = Shortcut::from_request(request);
        if shortcut.keyword.as_str().is_empty() {
            return Err(ShortcutError::EmptyShortcut);
        }
        match self.repository.create(&shortcut) {
            Ok(()) => Ok(Upsert::Created),
            Err(StorageError::UniqueViolation) => {
                match self.repository.update(&shortcut) {
                    Ok(true) => Ok(Upsert::Updated),
                    _ => Err(ShortcutError::FailedToCreateOrUpdate),
                }
            },
            Err(_) => Err(ShortcutError::FailedToCreate),
        }
    }

    /// Points the shortcut stored under the request's keyword at its URL;
    /// `false` when no shortcut has that keyword.
    pub fn update(&mut self, request: &PostRequest) -> (r: Result<bool, ShortcutError>)
        ensures
            update_result(old(self).rows(), final(self).rows(), request.keyword@, request.url@, r),
            request.keyword@.len() == 0 ==> r == Err::<bool, ShortcutError>(ShortcutError::EmptyShortcut),
    {
        let shortcut = Shortcut::from_request(request);
        if shortcut.keyword.as_str().is_empty() {
            return Err(ShortcutError::EmptyShortcut);
        }
        match self.repository.update(&shortcut) {
            Ok(b) => Ok(b),
            Err(_) => Err(ShortcutError::FailedToUpdate),
        }
    }

    /// Removes the shortcut stored under `keyword`; `false` when there is none.
    pub fn delete(&mut self, keyword: &str) -> (r: Result<bool, ShortcutError>)
        ensures
            delete_result(old(self).rows(), final(self).rows(), keyword@, r),
            keyword@.len() == 0 ==> r == Err::<bool, ShortcutError>(ShortcutError::EmptyShortcut),
    {
        let key = normalize_keyword(keyword);
        if key.as_str().is_empty() {
            return Err(ShortcutError::EmptyShortcut);
        }
        match self.repository.delete(key.as_str()) {
            Ok(b) => Ok(b),
            Err(_) => Err(ShortcutError::FailedToDelete),
        }
    }
}

} // verus!
