use crate::shortcut::Shortcut;
use vstd::prelude::*;

verus! {

/// How a storage operation failed.
#[derive(Debug, Clone, Copy, PartialEq, Eq, Structural)]
pub enum StorageError {
    /// No row has the keyword asked for.
    RowNotFound,
    /// A row with the keyword already exists.
    UniqueViolation,
    /// The operation could not be carried out.
    Fault,
}

/// Some row has keyword `k`.
pub open spec fn has_keyword(rows: Seq<Shortcut>, k: Seq<char>) -> bool {
    exists|i: int| 0 <= i < rows.len() && (#[trigger] rows[i]).keyword@ == k
}

/// A stored row: a non-empty keyword, both timestamps present, and never
/// updated before created.
pub open spec fn row_wf(s: Shortcut) -> bool {
    &&& s.keyword@.len() > 0
    &&& s.created is Some
    &&& s.updated is Some
    &&& s.created->0 <= s.updated->0
}

/// The rows of a store: each well formed, and no keyword on two rows.
pub open spec fn rows_wf(rows: Seq<Shortcut>) -> bool {
    &&& forall|i: int| 0 <= i < rows.len() ==> row_wf(#[trigger] rows[i])
    &&& forall|i: int, j: int|
        0 <= i < rows.len() && 0 <= j < rows.len() && i != j ==> (#[trigger] rows[i]).keyword@ != (#[trigger] rows[j]).keyword@
}

/// `s` is the row of `rows` with keyword `k`.
pub open spec fn row_for(rows: Seq<Shortcut>, k: Seq<char>, s: Shortcut) -> bool {
    exists|i: int| 0 <= i < rows.len() && #[trigger] rows[i] == s && s.keyword@ == k
}

/// `stored` holds what `given` asked to store; its id is the store's choice
/// (see `appended`).
pub open spec fn same_entry(stored: Shortcut, given: Shortcut) -> bool {
    &&& stored.created == given.created
    &&& stored.updated == given.updated
    &&& stored.keyword == given.keyword
    &&& stored.url == given.url
}

/// `new.last()` carries an id that no row of `old` has.
pub open spec fn fresh_id(old: Seq<Shortcut>, new: Seq<Shortcut>) -> bool {
    &&& new.last().id is Some
    &&& forall|i: int| 0 <= i < old.len() ==> (#[trigger] old[i]).id != new.last().id
}

/// `new` is `old` with one row for `given` added at the end, under an id
/// that storage assigned and no other row has.
pub open spec fn appended(old: Seq<Shortcut>, new: Seq<Shortcut>, given: Shortcut) -> bool {
    &&& new.len() == old.len() + 1
    &&& new.drop_last() == old
    &&& same_entry(new.last(), given)
    &&& fresh_id(old, new)
}

/// The later of two timestamps.
pub open spec fn later(a: i64, b: i64) -> i64 {
    if a >= b { a } else { b }
}

/// `new` is `old` with its URL set to `url` and its update time to `stamp`
/// (or to its creation time, if that is later); nothing else changes.
pub open spec fn url_changed(old: Shortcut, new: Shortcut, url: Seq<char>, stamp: i64) -> bool {
    &&& new.id == old.id
    &&& new.created == old.created
    &&& new.keyword == old.keyword
    &&& new.url@ == url
    &&& new.updated == Some(later(stamp, old.created->0))
}

/// `new` is `old` with the row of keyword `k` given URL `url` at time `stamp`.
pub open spec fn updated_rows(old: Seq<Shortcut>, new: Seq<Shortcut>, k: Seq<char>, url: Seq<char>, stamp: i64) -> bool {
    &&& new.len() == old.len()
    &&& forall|i: int|
        0 <= i < old.len() ==> if (#[trigger] old[i]).keyword@ == k {
            url_changed(old[i], new[i], url, stamp)
        } else {
            new[i] == old[i]
        }
}

/// `new` is `old` without the row of keyword `k`.
pub open spec fn removed_rows(old: Seq<Shortcut>, new: Seq<Shortcut>, k: Seq<char>) -> bool {
    exists|i: int| 0 <= i < old.len() && (#[trigger] old[i]).keyword@ == k && new == old.remove(i)
}

/// The type of a store's rows, as `ShortcutRepositoryTrait::rows` gives them.
pub type Rows = Seq<Shortcut>;

/// Durable storage of shortcuts, keyed by keyword.
///
/// Its state is the sequence of its rows in storage order. Each operation is
/// atomic: it either takes effect as described or fails with `Fault` and
/// changes nothing.
pub trait ShortcutRepositoryTrait {
    /// The rows held, in storage order.
    spec fn rows(&self) -> Seq<Shortcut>;

    /// Every row, in storage order.
    fn fetch_all(&self) -> (r: Result<Vec<Shortcut>, StorageError>)
        ensures
            rows_wf(self.rows()),
            match r {
                Ok(v) => v@ == self.rows(),
                Err(e) => e == StorageError::Fault,
            },
    ;

    /// The row whose keyword is exactly `keyword`.
    fn get(&self, keyword: &str) -> (r: Result<Shortcut, StorageError>)
        ensures
            rows_wf(self.rows()),
            match r {
                Ok(s) => row_for(self.rows(), keyword@, s),
                Err(StorageError::RowNotFound) => !has_keyword(self.rows(), keyword@),
                Err(StorageError::UniqueViolation) => false,
                Err(StorageError::Fault) => true,
            },
    ;

    /// Stores `shortcut` as a new row at the end, unless its keyword is taken.
    fn create(&mut self, shortcut: &Shortcut) -> (r: Result<(), StorageError>)
        requires
            row_wf(*shortcut),
        ensures
            rows_wf(old(self).rows()),
            rows_wf(final(self).rows()),
            match r {
                Ok(()) => !has_keyword(old(self).rows(), shortcut.keyword@) && appended(
                    old(self).rows(),
                    final(self).rows(),
                    *shortcut,
                ),
                Err(StorageError::UniqueViolation) => has_keyword(old(self).rows(), shortcut.keyword@)
                    && final(self).rows() == old(self).rows(),
                Err(StorageError::RowNotFound) => false,
                Err(StorageError::Fault) => final(self).rows() == old(self).rows(),
            },
    ;

    /// Sets the URL and update time of the row with `shortcut`'s keyword;
    /// `false` when there is no such row.
    fn update(&mut self, shortcut: &Shortcut) -> (r: Result<bool, StorageError>)
        requires
            shortcut.updated is Some,
        ensures
            rows_wf(old(self).rows()),
            rows_wf(final(self).rows()),
            match r {
                Ok(true) => has_keyword(old(self).rows(), shortcut.keyword@) && updated_rows(
                    old(self).rows(),
                    final(self).rows(),
                    shortcut.keyword@,
                    shortcut.url@,
                    shortcut.updated->0,
                ),
                Ok(false) => !has_keyword(old(self).rows(), shortcut.keyword@) && final(self).rows()
                    == old(self).rows(),
                Err(e) => e == StorageError::Fault && final(self).rows() == old(self).rows(),
            },
    ;

    /// Removes the row with this keyword; `false` when there is no such row.
    fn delete(&mut self, keyword: &str) -> (r: Result<bool, StorageError>)
        ensures
            rows_wf(old(self).rows()),
            rows_wf(final(self).rows()),
            match r {
                Ok(true) => removed_rows(old(self).rows(), final(self).rows(), keyword@),
                Ok(false) => !has_keyword(old(self).rows(), keyword@) && final(self).rows() == old(
                    self,
                ).rows(),
                Err(e) => e == StorageError::Fault && final(self).rows() == old(self).rows(),
            },
    ;
}

/// What a count of changed rows means for an update or a delete by keyword:
/// one row is `true`, none is `false`, and more is a fault, since keywords
/// are unique.
pub fn rows_changed(count: u64) -> (r: Result<bool, StorageError>)
    ensures
        count == 1 ==> r == Ok::<bool, StorageError>(true),
        count == 0 ==> r == Ok::<bool, StorageError>(false),
        count > 1 ==> r == Err::<bool, StorageError>(StorageError::Fault),
{
    if count == 1 {
        Ok(true)
    } else if count == 0 {
        Ok(false)
    } else {
        Err(StorageError::Fault)
    }
}

/// A store held in memory, for tests and for running without a database.
pub struct InMemoryRepository {
    rows: Vec<Shortcut>,
    next_id: i64,
}

impl InMemoryRepository {
    #[verifier::type_invariant]
    spec fn inv(&self) -> bool {
        &&& rows_wf(self.rows@)
        &&& self.next_id >= 1
        &&& forall|i: int|
            0 <= i < self.rows@.len() ==> (#[trigger] self.rows@[i]).id is Some && self.rows@[i].id->0
                < self.next_id
    }

    /// The id the next stored row gets; ids are handed out in increasing
    /// order from `1`.
    pub closed spec fn next_id(&self) -> i64 {
        self.next_id
    }

    /// An empty store.
    pub fn new() -> (r: InMemoryRepository)
        ensures
            r.rows() == Seq::<Shortcut>::empty(),
            r.next_id() == 1,
    {
        InMemoryRepository { rows: Vec::new(), next_id: 1 }
    }

    /// The index of the row with keyword `key`, if any.
    fn position(&self, key: &String) -> (r: Option<usize>)
        ensures
            match r {
                Some(i) => i < self.rows@.len() && self.rows@[i as int].keyword@ == key@,
                None => !has_keyword(self.rows@, key@),
            },
    {
        let mut i: usize = 0;
        while i < self.rows.len()
            invariant
                i <= self.rows@.len(),
                forall|j: int| 0 <= j < i ==> (#[trigger] self.rows@[j]).keyword@ != key@,
            decreases self.rows.len() - i,
        {
            if self.rows[i].keyword == *key {
                return Some(i);
            }
            i = i + 1;
        }
        None
    }
}

impl ShortcutRepositoryTrait for InMemoryRepository {
    closed spec fn rows(&self) -> Seq<Shortcut> {
        self.rows@
    }

    fn fetch_all(&self) -> (r: Result<Vec<Shortcut>, StorageError>)
        ensures
            r is Ok,
    {
        proof {
            use_type_invariant(self);
        }
        let mut all: Vec<Shortcut> = Vec::new();
        let mut i: usize = 0;
        while i < self.rows.len()
            invariant
                i <= self.rows@.len(),
                all@ == self.rows@.take(i as int),
            decreases self.rows.len() - i,
        {
            all.push(self.rows[i].duplicate());
            proof {
                assert(self.rows@.take(i + 1) == self.rows@.take(i as int).push(self.rows@[i as int]));
            }
            i = i + 1;
        }
        proof {
            assert(self.rows@.take(self.rows@.len() as int) == self.rows@);
        }
        Ok(all)
    }

    fn get(&self, keyword: &str) -> (r: Result<Shortcut, StorageError>)
        ensures
            r is Ok || r == Err::<Shortcut, StorageError>(StorageError::RowNotFound),
    {
        proof {
            use_type_invariant(self);
        }
        let key = keyword.to_owned();
        match self.position(&key) {
            Some(i) => Ok(self.rows[i].duplicate()),
            None => Err(StorageError::RowNotFound),
        }
    }

    fn create(&mut self, shortcut: &Shortcut) -> (r: Result<(), StorageError>)
        ensures
            has_keyword(old(self).rows(), shortcut.keyword@) ==> r == Err::<(), StorageError>(
                StorageError::UniqueViolation,
            ),
            !has_keyword(old(self).rows(), shortcut.keyword@) && old(self).next_id() < i64::MAX ==> r is Ok,
            r is Ok ==> final(self).rows().last().id == Some(old(self).next_id()) && final(self).next_id()
                == old(self).next_id() + 1,
            r is Err ==> final(self).next_id() == old(self).next_id(),
    {
        proof {
            use_type_invariant(&*self);
        }
        if self.position(&shortcut.keyword).is_some() {
            return Err(StorageError::UniqueViolation);
        }
        if self.next_id == i64::MAX {
            return Err(StorageError::Fault);
        }
        let mut row = shortcut.duplicate();
        row.id = Some(self.next_id);
        let ghost old_rows = self.rows@;
        let mut rows: Vec<Shortcut> = Vec::new();
        std::mem::swap(&mut rows, &mut self.rows);
        rows.push(row);
        proof {
            assert(rows@.drop_last() == old_rows);
            assert forall|i: int, j: int|
                0 <= i < rows@.len() && 0 <= j < rows@.len() && i != j implies (#[trigger] rows@[i]).keyword@
                != (#[trigger] rows@[j]).keyword@ by {
                if i < old_rows.len() && j < old_rows.len() {
                    assert(old_rows[i] == rows@[i]);
                    assert(old_rows[j] == rows@[j]);
                } else if i < old_rows.len() {
                    assert(old_rows[i] == rows@[i]);
                } else {
                    assert(old_rows[j] == rows@[j]);
                }
            }
            assert forall|i: int| 0 <= i < rows@.len() implies (#[trigger] rows@[i]).id is Some && rows@[i].id->0
                < self.next_id + 1 by {
                if i < old_rows.len() {
                    assert(old_rows[i] == rows@[i]);
                }
            }
        }
        let next_id = self.next_id + 1;
        *self = InMemoryRepository { rows, next_id };
        Ok(())
    }

    fn update(&mut self, shortcut: &Shortcut) -> (r: Result<bool, StorageError>)
        ensures
            r is Ok,
            final(self).next_id() == old(self).next_id(),
    {
        proof {
            use_type_invariant(&*self);
        }
        match self.position(&shortcut.keyword) {
            None => Ok(false),
            Some(i) => {
                let ghost old_rows = self.rows@;
                let current = &self.rows[i];
                let created = match current.created {
                    Some(c) => c,
                    None => 0,
                };
                let stamp = match shortcut.updated {
                    Some(t) => t,
                    None => 0,
                };
                let updated = if stamp >= created { stamp } else { created };
                let row = Shortcut {
                    id: current.id,
                    created: current.created,
                    updated: Some(updated),
                    keyword: current.keyword.clone(),
                    url: shortcut.url.clone(),
                };
                let mut rows: Vec<Shortcut> = Vec::new();
        std::mem::swap(&mut rows, &mut self.rows);
                rows.set(i, row);
                proof {
                    assert forall|j: int| 0 <= j < old_rows.len() && j != i as int implies rows@[j] == old_rows[j] by {}
                    assert forall|a: int, b: int|
                        0 <= a < rows@.len() && 0 <= b < rows@.len() && a != b implies (#[trigger] rows@[a]).keyword@
                        != (#[trigger] rows@[b]).keyword@ by {
                        assert(rows@[a].keyword@ == old_rows[a].keyword@);
                        assert(rows@[b].keyword@ == old_rows[b].keyword@);
                    }
                    assert forall|j: int| 0 <= j < old_rows.len() implies if (#[trigger] old_rows[j]).keyword@
                        == shortcut.keyword@ {
                        url_changed(old_rows[j], rows@[j], shortcut.url@, shortcut.updated->0)
                    } else {
                        rows@[j] == old_rows[j]
                    } by {
                        if j != i as int && old_rows[j].keyword@ == shortcut.keyword@ {
                            assert(old_rows[i as int].keyword@ == old_rows[j].keyword@);
                        }
                    }
                }
                self.rows = rows;
                Ok(true)
            },
        }
    }

    fn delete(&mut self, keyword: &str) -> (r: Result<bool, StorageError>)
        ensures
            r is Ok,
            final(self).next_id() == old(self).next_id(),
    {
        proof {
            use_type_invariant(&*self);
        }
        let key = keyword.to_owned();
        match self.position(&key) {
            None => Ok(false),
            Some(i) => {
                let ghost old_rows = self.rows@;
                let mut rows: Vec<Shortcut> = Vec::new();
        std::mem::swap(&mut rows, &mut self.rows);
                rows.remove(i);
                proof {
                    assert(rows@ == old_rows.remove(i as int));
                    assert forall|a: int, b: int|
                        0 <= a < rows@.len() && 0 <= b < rows@.len() && a != b implies (#[trigger] rows@[a]).keyword@
                        != (#[trigger] rows@[b]).keyword@ by {
                        let oa = if a < i { a } else { a + 1 };
                        let ob = if b < i { b } else { b + 1 };
                        assert(rows@[a] == old_rows[oa]);
                        assert(rows@[b] == old_rows[ob]);
                    }
                    assert forall|a: int| 0 <= a < rows@.len() implies row_wf(#[trigger] rows@[a]) && rows@[a].id is Some
                        && rows@[a].id->0 < self.next_id by {
                        let oa = if a < i { a } else { a + 1 };
                        assert(rows@[a] == old_rows[oa]);
                    }
                }
                self.rows = rows;
                Ok(true)
            },
        }
    }
}

} // verus!
