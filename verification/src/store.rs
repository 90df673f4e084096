//! An in-memory document store with the contract the service relies
//! on: one collection of file records, keys unique, identifiers unique,
//! insert-or-replace keyed on the external file key.
//!
//! This store is the verified reference implementation of the storage
//! contract; a deployment backs the same contract with an external
//! database and keeps the uniqueness constraints as indexes.

use vstd::prelude::*;
use vstd::pervasive::unreached;
use vstd::pervasive::VecAdditionalExecFns;
use crate::model::{FigmaFile, FileView};
use crate::errors::FigmaServiceError;
use crate::text::str_eq;

verus! {

/// The views of the stored rows, in insertion order.
pub open spec fn rows_view(files: Seq<FigmaFile>) -> Seq<FileView> {
    Seq::new(files.len(), |i: int| files[i]@)
}

/// First row whose key is `key`, if any. With unique keys, "first" is
/// "the" match.
pub open spec fn spec_find(rows: Seq<FileView>, key: Seq<char>) -> Option<FileView>
    decreases rows.len(),
{
    if rows.len() == 0 {
        None
    } else if rows[0].file_key == key {
        Some(rows[0])
    } else {
        spec_find(rows.drop_first(), key)
    }
}

/// First row carrying the identifier `id`, if any.
pub open spec fn spec_find_id(rows: Seq<FileView>, id: Seq<char>) -> Option<FileView>
    decreases rows.len(),
{
    if rows.len() == 0 {
        None
    } else if rows[0].file_id == Some(id) {
        Some(rows[0])
    } else {
        spec_find_id(rows.drop_first(), id)
    }
}

/// What an upsert stores: the incoming record, carrying the assigned
/// identifier, and keeping the previous row's creation time whenever
/// that is consistent with the record staying well formed.
pub open spec fn stored_record(file: FileView, prev: Option<FileView>, id: Seq<char>) -> FileView {
    FileView {
        file_id: Some(id),
        created_at: match prev {
            Some(p) => if p.created_at <= file.updated_at {
                p.created_at
            } else {
                file.created_at
            },
            None => file.created_at,
        },
        ..file
    }
}

/// A key-unique collection of cached file records.
pub struct FileStore {
    files: Vec<FigmaFile>,
}

impl View for FileStore {
    type V = Seq<FileView>;

    closed spec fn view(&self) -> Seq<FileView> {
        rows_view(self.files@)
    }
}

/// If no row matches a key, no index holds it, and conversely.
pub proof fn lemma_spec_find_none(rows: Seq<FileView>, key: Seq<char>)
    ensures
        spec_find(rows, key) is None <==> forall|i: int|
            0 <= i < rows.len() ==> rows[i].file_key != key,
    decreases rows.len(),
{
    if rows.len() > 0 {
        lemma_spec_find_none(rows.drop_first(), key);
        assert(forall|i: int| 1 <= i < rows.len() ==> rows[i] == rows.drop_first()[i - 1]);
    }
}

/// If no row carries an identifier, no index holds it, and conversely.
pub proof fn lemma_spec_find_id_none(rows: Seq<FileView>, id: Seq<char>)
    ensures
        spec_find_id(rows, id) is None <==> forall|i: int|
            0 <= i < rows.len() ==> rows[i].file_id != Some(id),
    decreases rows.len(),
{
    if rows.len() > 0 {
        lemma_spec_find_id_none(rows.drop_first(), id);
        assert(forall|i: int| 1 <= i < rows.len() ==> rows[i] == rows.drop_first()[i - 1]);
    }
}

/// Appending a row with a fresh key: the new key finds the new row,
/// every other key finds what it found before.
pub proof fn lemma_spec_find_push(rows: Seq<FileView>, row: FileView)
    ensures
        spec_find(rows.push(row), row.file_key) == if spec_find(rows, row.file_key) is Some {
            spec_find(rows, row.file_key)
        } else {
            Some(row)
        },
        forall|k: Seq<char>| k != row.file_key ==> spec_find(rows.push(row), k) == spec_find(
            rows,
            k,
        ),
    decreases rows.len(),
{
    if rows.len() == 0 {
        assert(rows.push(row).drop_first() =~= Seq::<FileView>::empty());
        assert forall|k: Seq<char>| k != row.file_key implies spec_find(rows.push(row), k)
            == spec_find(rows, k) by {
            assert(rows.push(row).len() == 1);
            assert(rows.push(row)[0] == row);
            assert(spec_find(rows.push(row), k) == spec_find(rows.push(row).drop_first(), k));
            assert(rows.push(row).drop_first().len() == 0);
            assert(spec_find(rows.push(row).drop_first(), k) is None);
            assert(spec_find(rows, k) is None);
        }
    } else {
        assert(rows.push(row).drop_first() =~= rows.drop_first().push(row));
        lemma_spec_find_push(rows.drop_first(), row);
        assert(rows.push(row)[0] == rows[0]);
        assert forall|k: Seq<char>| k != row.file_key implies spec_find(rows.push(row), k)
            == spec_find(rows, k) by {
            if rows[0].file_key != k {
                assert(spec_find(rows.push(row).drop_first(), k) == spec_find(
                    rows.drop_first(),
                    k,
                ));
            }
        }
    }
}

/// Replacing every row that carries the key: the key then finds the
/// new row (when it found one before), every other key finds what it
/// found before.
pub proof fn lemma_spec_find_update(
    rows: Seq<FileView>,
    updated: Seq<FileView>,
    key: Seq<char>,
    row: FileView,
)
    requires
        updated.len() == rows.len(),
        row.file_key == key,
        forall|i: int| 0 <= i < rows.len() ==> updated[i] == (if rows[i].file_key == key {
            row
        } else {
            rows[i]
        }),
    ensures
        spec_find(rows, key) is Some ==> spec_find(updated, key) == Some(row),
        spec_find(rows, key) is None ==> spec_find(updated, key) is None,
        forall|k: Seq<char>| k != key ==> spec_find(updated, k) == spec_find(rows, k),
    decreases rows.len(),
{
    if rows.len() > 0 {
        assert(updated[0] == (if rows[0].file_key == key {
            row
        } else {
            rows[0]
        }));
        assert(forall|i: int| 0 <= i < rows.drop_first().len() ==> rows.drop_first()[i] == rows[i
            + 1]);
        assert(forall|i: int| 0 <= i < updated.drop_first().len() ==> updated.drop_first()[i]
            == updated[i + 1]);
        lemma_spec_find_update(rows.drop_first(), updated.drop_first(), key, row);
        assert forall|k: Seq<char>| k != key implies spec_find(updated, k) == spec_find(
            rows,
            k,
        ) by {
            if updated[0].file_key != k && rows[0].file_key != k {
                assert(spec_find(updated.drop_first(), k) == spec_find(rows.drop_first(), k));
            }
        }
    }
}

impl FileStore {
    /// The store's invariant: unique keys, unique identifiers, every
    /// row persisted (it carries an identifier) and well formed.
    pub open spec fn wf(&self) -> bool {
        &&& forall|i: int, j: int|
            0 <= i < j < self@.len() ==> self@[i].file_key != self@[j].file_key
        &&& forall|i: int| 0 <= i < self@.len() ==> self@[i].file_id is Some
        &&& forall|i: int, j: int|
            0 <= i < j < self@.len() ==> self@[i].file_id != self@[j].file_id
        &&& forall|i: int| 0 <= i < self@.len() ==> self@[i].wf()
    }

    /// An empty store.
    pub fn new() -> (r: FileStore)
        ensures
            r.wf(),
            r@.len() == 0,
    {
        FileStore { files: Vec::new() }
    }

    /// How many records are stored.
    pub fn len(&self) -> (r: usize)
        ensures
            r == self@.len(),
    {
        self.files.len()
    }

    /// Index of the row keyed `key`, related to [`spec_find`].
    fn find_index(&self, key: &str) -> (r: Option<usize>)
        ensures
            match r {
                Some(i) => i < self@.len() && self@[i as int].file_key == key@ && spec_find(
                    self@,
                    key@,
                ) == Some(self@[i as int]),
                None => spec_find(self@, key@) is None,
            },
    {
        let ghost rows = self@;
        proof {
            assert(rows.skip(0) =~= rows);
        }
        let mut i: usize = 0;
        while i < self.files.len()
            invariant
                i <= self.files.len(),
                rows == self@,
                rows.len() == self.files@.len(),
                spec_find(rows, key@) == spec_find(rows.skip(i as int), key@),
            decreases self.files.len() - i,
        {
            proof {
                assert(rows.skip(i as int)[0] == rows[i as int]);
            }
            if str_eq(self.files[i].file_key.as_str(), key) {
                return Some(i);
            }
            proof {
                assert(rows.skip(i as int).drop_first() =~= rows.skip(i as int + 1));
            }
            i = i + 1;
        }
        proof {
            assert(rows.skip(self.files@.len() as int).len() == 0);
        }
        None
    }

    /// Whether some row already carries the identifier `id`.
    fn id_taken(&self, id: &str) -> (r: bool)
        ensures
            r == (spec_find_id(self@, id@) is Some),
    {
        let ghost rows = self@;
        proof {
            assert(rows.skip(0) =~= rows);
        }
        let mut i: usize = 0;
        while i < self.files.len()
            invariant
                i <= self.files.len(),
                rows == self@,
                rows.len() == self.files@.len(),
                spec_find_id(rows, id@) == spec_find_id(rows.skip(i as int), id@),
            decreases self.files.len() - i,
        {
            proof {
                assert(rows.skip(i as int)[0] == rows[i as int]);
            }
            let hit = match &self.files[i].file_id {
                Some(row_id) => str_eq(row_id.as_str(), id),
                None => false,
            };
            if hit {
                return true;
            }
            proof {
                assert(rows.skip(i as int).drop_first() =~= rows.skip(i as int + 1));
            }
            i = i + 1;
        }
        proof {
            assert(rows.skip(self.files@.len() as int).len() == 0);
        }
        false
    }

    /// Look a record up by its external key.
    pub fn find_by_key(&self, key: &str) -> (r: Option<FigmaFile>)
        ensures
            match r {
                Some(f) => spec_find(self@, key@) == Some(f@),
                None => spec_find(self@, key@) is None,
            },
    {
        match self.find_index(key) {
            Some(i) => Some(self.files[i].clone()),
            None => None,
        }
    }

    /// Look a record up by its system-assigned identifier.
    pub fn find_by_id(&self, id: &str) -> (r: Option<FigmaFile>)
        ensures
            match r {
                Some(f) => spec_find_id(self@, id@) == Some(f@),
                None => spec_find_id(self@, id@) is None,
            },
    {
        let ghost rows = self@;
        proof {
            assert(rows.skip(0) =~= rows);
        }
        let mut i: usize = 0;
        while i < self.files.len()
            invariant
                i <= self.files.len(),
                rows == self@,
                rows.len() == self.files@.len(),
                spec_find_id(rows, id@) == spec_find_id(rows.skip(i as int), id@),
            decreases self.files.len() - i,
        {
            proof {
                assert(rows.skip(i as int)[0] == rows[i as int]);
            }
            let hit = match &self.files[i].file_id {
                Some(row_id) => str_eq(row_id.as_str(), id),
                None => false,
            };
            if hit {
                return Some(self.files[i].clone());
            }
            proof {
                assert(rows.skip(i as int).drop_first() =~= rows.skip(i as int + 1));
            }
            i = i + 1;
        }
        proof {
            assert(rows.skip(self.files@.len() as int).len() == 0);
        }
        None
    }

    /// Insert or replace, keyed on the external key.
    ///
    /// A row that already carries the key is replaced in place,
    /// keeping its identifier and (when consistent) its creation time.
    /// Otherwise the record is appended under its own identifier, or a
    /// freshly derived one when it has none; a derived identifier that
    /// collides with a stored one is a constraint violation and is
    /// reported as a storage error, with the store unchanged.
    pub fn upsert(&mut self, file: FigmaFile) -> (r: Result<String, FigmaServiceError>)
        requires
            old(self).wf(),
            file@.wf(),
        ensures
            final(self).wf(),
            match r {
                Ok(id) => {
                    let prev = spec_find(old(self)@, file@.file_key);
                    let stored = stored_record(file@, prev, id@);
                    &&& spec_find(final(self)@, file@.file_key) == Some(stored)
                    &&& forall|k: Seq<char>|
                        k != file@.file_key ==> spec_find(final(self)@, k) == spec_find(
                            old(self)@,
                            k,
                        )
                    &&& match prev {
                        Some(p) => final(self)@.len() == old(self)@.len() && Some(id@)
                            == p.file_id,
                        None => final(self)@.len() == old(self)@.len() + 1 && match file@.file_id {
                            Some(own) => id@ == own,
                            None => id@.len() == 20 && id@.take(4) == "fig_"@,
                        },
                    }
                },
                Err(e) => {
                    &&& e is DbError
                    &&& final(self)@ == old(self)@
                    &&& spec_find(old(self)@, file@.file_key) is None
                },
            },
            spec_find(old(self)@, file@.file_key) is Some ==> r is Ok,
    {
        let ghost old_rows = self@;
        match self.find_index(file.file_key.as_str()) {
            Some(i) => {
                let kept_id: String = match &self.files[i].file_id {
                    Some(id) => id.clone(),
                    None => unreached(),
                };
                let kept_created: i64 = if self.files[i].created_at <= file.updated_at {
                    self.files[i].created_at
                } else {
                    file.created_at
                };
                let row = FigmaFile {
                    file_id: Some(kept_id.clone()),
                    file_key: file.file_key,
                    name: file.name,
                    last_modified: file.last_modified,
                    thumbnail_url: file.thumbnail_url,
                    version: file.version,
                    created_at: kept_created,
                    updated_at: file.updated_at,
                    data: file.data,
                    raw_data: file.raw_data,
                };
                let ghost stored = row@;
                self.files.set(i, row);
                proof {
                    assert(forall|j: int| 0 <= j < old_rows.len() ==> self@[j] == (
                    if old_rows[j].file_key == stored.file_key {
                        stored
                    } else {
                        old_rows[j]
                    }));
                    lemma_spec_find_update(old_rows, self@, stored.file_key, stored);
                }
                Ok(kept_id)
            },
            None => {
                proof {
                    lemma_spec_find_none(old_rows, file@.file_key);
                }
                let id: String = match &file.file_id {
                    Some(own) => own.clone(),
                    None => file.generate_file_id(),
                };
                if self.id_taken(id.as_str()) {
                    return Err(
                        FigmaServiceError::DbError("unique index violation on file_id".to_owned()),
                    );
                }
                proof {
                    lemma_spec_find_id_none(old_rows, id@);
                }
                let row = FigmaFile {
                    file_id: Some(id.clone()),
                    file_key: file.file_key,
                    name: file.name,
                    last_modified: file.last_modified,
                    thumbnail_url: file.thumbnail_url,
                    version: file.version,
                    created_at: file.created_at,
                    updated_at: file.updated_at,
                    data: file.data,
                    raw_data: file.raw_data,
                };
                let ghost stored = row@;
                self.files.push(row);
                proof {
                    assert(self@ =~= old_rows.push(stored));
                    lemma_spec_find_push(old_rows, stored);
                }
                Ok(id)
            },
        }
    }

    /// The stored records in insertion order: all of them, or the first
    /// `limit` when a positive limit is supplied (a negative limit
    /// counts by its magnitude, as the backing database does).
    pub fn list(&self, limit: Option<i64>) -> (r: Vec<FigmaFile>)
        ensures
            rows_view(r@) == self@.take(spec_list_len(self@.len() as int, limit) as int),
    {
        let n: usize = self.files.len();
        let count: usize = match limit {
            None => n,
            Some(l) => {
                if l == 0 {
                    n
                } else {
                    let mag: u64 = if l > 0 {
                        l as u64
                    } else if l == i64::MIN {
                        9223372036854775808u64
                    } else {
                        (-l) as u64
                    };
                    if mag < (n as u64) {
                        mag as usize
                    } else {
                        n
                    }
                }
            },
        };
        let mut out: Vec<FigmaFile> = Vec::new();
        let mut i: usize = 0;
        while i < count
            invariant
                i <= count,
                count <= self.files@.len(),
                out@.len() == i as nat,
                forall|j: int| 0 <= j < i ==> out@[j]@ == self@[j],
            decreases count - i,
        {
            out.push(self.files[i].clone());
            i = i + 1;
        }
        proof {
            assert(rows_view(out@) =~= self@.take(count as int));
            assert(count as int == spec_list_len(self@.len() as int, limit));
        }
        out
    }
}

/// How many records a listing returns for a given limit.
pub open spec fn spec_list_len(n: int, limit: Option<i64>) -> int {
    match limit {
        None => n,
        Some(l) => if l == 0 {
            n
        } else if l > 0 {
            if l < n {
                l as int
            } else {
                n
            }
        } else {
            if -(l as int) < n {
                -(l as int)
            } else {
                n
            }
        },
    }
}

} // verus!
