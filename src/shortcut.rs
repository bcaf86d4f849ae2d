use crate::clock::get_timestamp;
use crate::text::{normalize_keyword, normalized};
use vstd::prelude::*;

verus! {

/// A keyword and the URL it resolves to.
///
/// `id` is assigned by storage and absent before the row is stored;
/// `created` is stamped once at construction and `updated` on every change;
/// `keyword` is stored in canonical (trimmed, lower-case) form.
#[derive(Clone, Debug, PartialEq)]
pub struct Shortcut {
    pub id: Option<i64>,
    pub created: Option<i64>,
    pub updated: Option<i64>,
    pub keyword: String,
    pub url: String,
}

/// A request that names a keyword only (search, lookup, delete).
#[derive(Clone, Debug)]
pub struct SearchRequest {
    pub keyword: String,
}

/// A request that names a keyword and a URL (create, upsert, update).
#[derive(Clone, Debug)]
pub struct PostRequest {
    pub keyword: String,
    pub url: String,
}

/// A freshly constructed, not yet stored row: no id, and one timestamp for
/// both `created` and `updated`.
pub open spec fn is_fresh(s: Shortcut) -> bool {
    &&& s.id is None
    &&& s.created is Some
    &&& s.created == s.updated
    &&& s.created->0 >= 0
}

impl Shortcut {
    /// A new, not yet stored shortcut with the keyword and URL as given.
    pub fn new(keyword: String, url: String) -> (r: Shortcut)
        ensures
            is_fresh(r),
            r.keyword == keyword,
            r.url == url,
    {
        let timestamp = get_timestamp();
        Shortcut { id: None, created: Some(timestamp), updated: Some(timestamp), keyword, url }
    }

    /// A new, not yet stored shortcut from a request, with the keyword in
    /// canonical form.
    pub fn from_request(request: &PostRequest) -> (r: Shortcut)
        ensures
            is_fresh(r),
            r.keyword@ == normalized(request.keyword@),
            request.keyword@.len() == 0 ==> r.keyword@.len() == 0,
            r.url@ == request.url@,
    {
        let timestamp = get_timestamp();
        Shortcut {
            id: None,
            created: Some(timestamp),
            updated: Some(timestamp),
            keyword: normalize_keyword(request.keyword.as_str()),
            url: request.url.clone(),
        }
    }

    /// A copy of this shortcut, field for field.
    pub fn duplicate(&self) -> (r: Shortcut)
        ensures
            r == *self,
    {
        Shortcut {
            id: self.id,
            created: self.created,
            updated: self.updated,
            keyword: self.keyword.clone(),
            url: self.url.clone(),
        }
    }
}

} // verus!
