use crate::error::ShortcutError;
use crate::repository::{has_keyword, row_for, rows_wf};
use crate::service::{
    create_result, delete_result, get_result, update_result, upsert_result, Upsert,
};
use crate::shortcut::Shortcut;
use crate::text::normalized;
use vstd::prelude::*;

verus! {

/// In `rows` followed by one row of keyword `key`, where `rows` held no such
/// keyword, that last row is the only one with keyword `key`.
proof fn lemma_only_last_has_key(old: Seq<Shortcut>, new: Seq<Shortcut>, key: Seq<char>, s: Shortcut)
    requires
        new.len() == old.len() + 1,
        new.drop_last() == old,
        !has_keyword(old, key),
        row_for(new, key, s),
    ensures
        s == new.last(),
{
    let i = choose|i: int| 0 <= i < new.len() && #[trigger] new[i] == s && s.keyword@ == key;
    if i < old.len() {
        assert(old[i] == new[i]);
    }
}

/// A shortcut just created can be looked up by its keyword: the lookup finds
/// it (unless storage fails), with the URL it was given and its keyword in
/// canonical form.
pub proof fn lemma_create_then_get(
    before: Seq<Shortcut>,
    after: Seq<Shortcut>,
    keyword: Seq<char>,
    url: Seq<char>,
    found: Result<Shortcut, ShortcutError>,
)
    requires
        create_result(before, after, keyword, url, Ok(true)),
        get_result(after, keyword, found),
    ensures
        found is Ok || found == Err::<Shortcut, ShortcutError>(ShortcutError::FailedToGet),
        found is Ok ==> found->Ok_0.url@ == url && found->Ok_0.keyword@ == normalized(keyword),
{
    let key = normalized(keyword);
    assert(after[after.len() - 1] == after.last());
    assert(has_keyword(after, key));
    if found is Ok {
        lemma_only_last_has_key(before, after, key, found->Ok_0);
    }
}

/// Keywords are looked up in canonical form: after creating under `keyword`,
/// a lookup under any `other` with the same canonical form (another letter
/// case, say) finds the very row created, unless storage fails.
pub proof fn lemma_create_then_get_other_case(
    before: Seq<Shortcut>,
    after: Seq<Shortcut>,
    keyword: Seq<char>,
    other: Seq<char>,
    url: Seq<char>,
    found: Result<Shortcut, ShortcutError>,
)
    requires
        normalized(keyword) == normalized(other),
        create_result(before, after, keyword, url, Ok(true)),
        get_result(after, other, found),
    ensures
        found is Ok || found == Err::<Shortcut, ShortcutError>(ShortcutError::FailedToGet),
        found is Ok ==> found->Ok_0 == after.last(),
{
    let key = normalized(keyword);
    assert(after[after.len() - 1] == after.last());
    assert(has_keyword(after, key));
    if found is Ok {
        lemma_only_last_has_key(before, after, key, found->Ok_0);
    }
}

/// A second create under a keyword already created fails, as a uniqueness
/// violation unless storage fails, and leaves the store as it was: the
/// keyword still resolves to the first URL.
pub proof fn lemma_create_twice(
    start: Seq<Shortcut>,
    first: Seq<Shortcut>,
    second: Seq<Shortcut>,
    keyword: Seq<char>,
    url1: Seq<char>,
    url2: Seq<char>,
    r: Result<bool, ShortcutError>,
)
    requires
        create_result(start, first, keyword, url1, Ok(true)),
        create_result(first, second, keyword, url2, r),
    ensures
        r == Err::<bool, ShortcutError>(ShortcutError::UniqueConstraintError) || r == Err::<
            bool,
            ShortcutError,
        >(ShortcutError::FailedToCreate),
        second == first,
        forall|s: Shortcut| #[trigger] row_for(second, normalized(keyword), s) ==> s.url@ == url1,
{
    let key = normalized(keyword);
    assert(first[first.len() - 1] == first.last());
    assert(has_keyword(first, key));
    assert forall|s: Shortcut| #[trigger] row_for(second, key, s) implies s.url@ == url1 by {
        lemma_only_last_has_key(start, first, key, s);
    }
}

/// An upsert under a keyword already created updates rather than creates,
/// and afterwards the keyword resolves to the new URL.
pub proof fn lemma_upsert_after_create(
    start: Seq<Shortcut>,
    first: Seq<Shortcut>,
    second: Seq<Shortcut>,
    keyword: Seq<char>,
    url1: Seq<char>,
    url2: Seq<char>,
    r: Result<Upsert, ShortcutError>,
    found: Result<Shortcut, ShortcutError>,
)
    requires
        create_result(start, first, keyword, url1, Ok(true)),
        upsert_result(first, second, keyword, url2, r),
        get_result(second, keyword, found),
    ensures
        r != Ok::<Upsert, ShortcutError>(Upsert::Created),
        r is Ok ==> r == Ok::<Upsert, ShortcutError>(Upsert::Updated),
        r is Ok ==> (found is Ok || found == Err::<Shortcut, ShortcutError>(ShortcutError::FailedToGet)),
        r is Ok && found is Ok ==> found->Ok_0.url@ == url2,
{
    let key = normalized(keyword);
    let last = first.len() - 1;
    assert(first[last] == first.last());
    assert(has_keyword(first, key));
    if r is Ok {
        assert(second[last].keyword == first[last].keyword);
        assert(has_keyword(second, key));
        if found is Ok {
            let s = found->Ok_0;
            let i = choose|i: int| 0 <= i < second.len() && #[trigger] second[i] == s && s.keyword@ == key;
            if i < last {
                assert(first[i] == start[i]);
                if first[i].keyword@ == key {
                    assert(has_keyword(start, key));
                }
            }
        }
    }
}

/// Updating a keyword that no shortcut has is no error: it reports `false`
/// (unless storage fails) and changes nothing.
pub proof fn lemma_update_absent(
    before: Seq<Shortcut>,
    after: Seq<Shortcut>,
    keyword: Seq<char>,
    url: Seq<char>,
    r: Result<bool, ShortcutError>,
)
    requires
        normalized(keyword).len() > 0,
        !has_keyword(before, normalized(keyword)),
        update_result(before, after, keyword, url, r),
    ensures
        r == Ok::<bool, ShortcutError>(false) || r == Err::<bool, ShortcutError>(ShortcutError::FailedToUpdate),
        after == before,
{
}

/// Deleting a keyword that no shortcut has is no error: it reports `false`
/// (unless storage fails) and changes nothing.
pub proof fn lemma_delete_absent(
    before: Seq<Shortcut>,
    after: Seq<Shortcut>,
    keyword: Seq<char>,
    r: Result<bool, ShortcutError>,
)
    requires
        normalized(keyword).len() > 0,
        !has_keyword(before, normalized(keyword)),
        delete_result(before, after, keyword, r),
    ensures
        r == Ok::<bool, ShortcutError>(false) || r == Err::<bool, ShortcutError>(ShortcutError::FailedToDelete),
        after == before,
{
    let key = normalized(keyword);
    if r == Ok::<bool, ShortcutError>(true) {
        let i = choose|i: int| 0 <= i < before.len() && (#[trigger] before[i]).keyword@ == key && after == before.remove(i);
        assert(has_keyword(before, key));
    }
}

/// Deleting a keyword that a shortcut has reports `true` (unless storage
/// fails), and a lookup afterwards finds nothing.
pub proof fn lemma_delete_then_get(
    before: Seq<Shortcut>,
    after: Seq<Shortcut>,
    keyword: Seq<char>,
    r: Result<bool, ShortcutError>,
    found: Result<Shortcut, ShortcutError>,
)
    requires
        rows_wf(before),
        has_keyword(before, normalized(keyword)),
        delete_result(before, after, keyword, r),
        get_result(after, keyword, found),
    ensures
        r == Ok::<bool, ShortcutError>(true) || r == Err::<bool, ShortcutError>(ShortcutError::FailedToDelete),
        r == Ok::<bool, ShortcutError>(true) ==> found == Err::<Shortcut, ShortcutError>(ShortcutError::NotFound)
            || found == Err::<Shortcut, ShortcutError>(ShortcutError::FailedToGet),
{
    let key = normalized(keyword);
    let w = choose|i: int| 0 <= i < before.len() && (#[trigger] before[i]).keyword@ == key;
    assert(key.len() > 0);
    if r == Ok::<bool, ShortcutError>(true) {
        let i = choose|i: int| 0 <= i < before.len() && (#[trigger] before[i]).keyword@ == key && after == before.remove(i);
        assert forall|j: int| 0 <= j < after.len() implies (#[trigger] after[j]).keyword@ != key by {
            if j < i {
                assert(after[j] == before[j]);
            } else {
                assert(after[j] == before[j + 1]);
            }
        }
        if found is Ok {
            let s = found->Ok_0;
            let j = choose|j: int| 0 <= j < after.len() && #[trigger] after[j] == s && s.keyword@ == key;
        }
    }
}

/// Looking up the same keyword twice on an unchanged store gives the same
/// result, unless storage fails.
pub proof fn lemma_get_deterministic(
    rows: Seq<Shortcut>,
    keyword: Seq<char>,
    r1: Result<Shortcut, ShortcutError>,
    r2: Result<Shortcut, ShortcutError>,
)
    requires
        rows_wf(rows),
        get_result(rows, keyword, r1),
        get_result(rows, keyword, r2),
        r1 != Err::<Shortcut, ShortcutError>(ShortcutError::FailedToGet),
        r2 != Err::<Shortcut, ShortcutError>(ShortcutError::FailedToGet),
    ensures
        r1 == r2,
{
    let key = normalized(keyword);
    if r1 is Ok && r2 is Ok {
        let s1 = r1->Ok_0;
        let s2 = r2->Ok_0;
        let i = choose|i: int| 0 <= i < rows.len() && #[trigger] rows[i] == s1 && s1.keyword@ == key;
        let j = choose|j: int| 0 <= j < rows.len() && #[trigger] rows[j] == s2 && s2.keyword@ == key;
    } else if r1 is Ok {
        let s1 = r1->Ok_0;
        let i = choose|i: int| 0 <= i < rows.len() && #[trigger] rows[i] == s1 && s1.keyword@ == key;
    } else if r2 is Ok {
        let s2 = r2->Ok_0;
        let j = choose|j: int| 0 <= j < rows.len() && #[trigger] rows[j] == s2 && s2.keyword@ == key;
    }
}

} // verus!
