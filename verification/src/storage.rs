//! Keeping documents under identifiers of the caller's choice.

use vstd::prelude::*;
use crate::schema::resume::ResumeData;
use crate::text::{owned, push_str, same_text, string_of, texts};

verus! {

/// Why the store did not do what was asked.
#[derive(Debug, Clone)]
pub enum StorageError {
    /// Nothing is held under the identifier.
    NotFound(String),
    /// Something is held under the identifier already.
    AlreadyExists(String),
    /// The store itself failed.
    Internal(String),
}

impl StorageError {
    /// The diagnostic that the error carries.
    pub open spec fn detail(self) -> Seq<char> {
        match self {
            StorageError::NotFound(s) => s@,
            StorageError::AlreadyExists(s) => s@,
            StorageError::Internal(s) => s@,
        }
    }

    /// The words that introduce the diagnostic of each kind.
    pub open spec fn heading(self) -> Seq<char> {
        match self {
            StorageError::NotFound(_) => "Not found: "@,
            StorageError::AlreadyExists(_) => "Already exists: "@,
            StorageError::Internal(_) => "Storage error: "@,
        }
    }

    /// The error as one line of text.
    pub fn to_string(&self) -> (r: String)
        ensures
            r@ == self.heading() + self.detail(),
    {
        let mut out: Vec<char> = Vec::new();
        match self {
            StorageError::NotFound(s) => {
                push_str(&mut out, "Not found: ");
                push_str(&mut out, s.as_str());
            },
            StorageError::AlreadyExists(s) => {
                push_str(&mut out, "Already exists: ");
                push_str(&mut out, s.as_str());
            },
            StorageError::Internal(s) => {
                push_str(&mut out, "Storage error: ");
                push_str(&mut out, s.as_str());
            },
        }
        assert(out@ =~= self.heading() + self.detail());
        string_of(&out)
    }
}

/// Where documents are kept.
#[derive(Debug, Clone, Copy, PartialEq, Eq, Structural)]
pub enum StorageBackendType {
    /// In memory, for tests.
    Memory,
    /// In the browser's database.
    IndexedDb,
    /// In a database file.
    Sqlite,
}

/// How a store is set up.
#[derive(Debug, Clone)]
pub struct StorageConfig {
    pub backend: StorageBackendType,
    /// The name or the path of the database.
    pub name: String,
    pub encrypted: bool,
}

/// A document under its identifier.
#[derive(Debug, Clone)]
pub struct Stored {
    pub id: String,
    pub data: ResumeData,
}

/// A store in memory. No identifier is held twice.
#[derive(Debug, Clone)]
pub struct MemoryStorage {
    pub entries: Vec<Stored>,
}

impl MemoryStorage {
    /// No identifier is held twice.
    pub open spec fn wf(self) -> bool {
        forall|i: int, j: int|
            0 <= i < j < self.entries@.len() ==> self.entries@[i].id@ != self.entries@[j].id@
    }

    /// Whether a document is held under the identifier.
    pub open spec fn has(self, id: Seq<char>) -> bool {
        exists|i: int| 0 <= i < self.entries@.len() && #[trigger] self.entries@[i].id@ == id
    }

    /// Whether `data` is the document held under the identifier.
    pub open spec fn holds(self, id: Seq<char>, data: ResumeData) -> bool {
        exists|i: int|
            0 <= i < self.entries@.len() && #[trigger] self.entries@[i].id@ == id
                && self.entries@[i].data == data
    }

    /// The identifiers that are held, in the order in which they were
    /// first saved.
    pub open spec fn ids(self) -> Seq<Seq<char>> {
        Seq::new(self.entries@.len(), |i: int| self.entries@[i].id@)
    }

    /// A store that holds nothing.
    pub fn new() -> (r: MemoryStorage)
        ensures
            r.wf(),
            r.entries@.len() == 0,
    {
        MemoryStorage { entries: Vec::new() }
    }

    fn position(&self, id: &str) -> (r: Option<usize>)
        ensures
            match r {
                Some(i) => i < self.entries@.len() && self.entries@[i as int].id@ == id@,
                None => !self.has(id@),
            },
    {
        let mut i: usize = 0;
        while i < self.entries.len()
            invariant
                i <= self.entries@.len(),
                forall|k: int| 0 <= k < i ==> (#[trigger] self.entries@[k]).id@ != id@,
            decreases self.entries@.len() - i,
        {
            if same_text(self.entries[i].id.as_str(), id) {
                return Some(i);
            }
            i += 1;
        }
        None
    }

    /// The identifiers that are held.
    pub fn list(&self) -> (r: Result<Vec<String>, StorageError>)
        ensures
            r matches Ok(ids) && texts(ids@) == self.ids(),
    {
        let mut ids: Vec<String> = Vec::new();
        let mut i: usize = 0;
        while i < self.entries.len()
            invariant
                i <= self.entries@.len(),
                ids@.len() == i,
                forall|k: int| 0 <= k < i ==> ids@[k]@ == self.entries@[k].id@,
            decreases self.entries@.len() - i,
        {
            ids.push(self.entries[i].id.clone());
            i += 1;
        }
        assert(texts(ids@) =~= self.ids());
        Ok(ids)
    }

    /// The document held under the identifier.
    pub fn get(&self, id: &str) -> (r: Result<&ResumeData, StorageError>)
        ensures
            r is Ok <==> self.has(id@),
            r matches Ok(data) ==> self.holds(id@, *data),
            r matches Err(e) ==> e is NotFound && e.detail() == id@,
    {
        match self.position(id) {
            Some(i) => Ok(&self.entries[i].data),
            None => Err(StorageError::NotFound(owned(id))),
        }
    }

    /// Holds the document under the identifier, in the place of the one
    /// that was held under it, if one was. What is held under other
    /// identifiers stays.
    pub fn save(&mut self, id: &str, data: ResumeData) -> (r: Result<(), StorageError>)
        requires
            old(self).wf(),
        ensures
            r is Ok,
            final(self).wf(),
            final(self).holds(id@, data),
            old(self).has(id@) ==> final(self).entries@.len() == old(self).entries@.len(),
            !old(self).has(id@) ==> final(self).entries@.len() == old(self).entries@.len() + 1,
            forall|i: int|
                0 <= i < old(self).entries@.len() && (#[trigger] old(self).entries@[i]).id@
                    != id@ ==> final(self).entries@[i] == old(self).entries@[i],
    {
        match self.position(id) {
            Some(i) => {
                self.entries.set(i, Stored { id: owned(id), data });
                assert(self.entries@[i as int].id@ == id@ && self.entries@[i as int].data == data);
            },
            None => {
                self.entries.push(Stored { id: owned(id), data });
                let ghost n = old(self).entries@.len() as int;
                assert(self.entries@[n].id@ == id@ && self.entries@[n].data == data);
            },
        }
        Ok(())
    }

    /// Lets go of the document held under the identifier. Fails where none
    /// is held.
    pub fn delete(&mut self, id: &str) -> (r: Result<(), StorageError>)
        requires
            old(self).wf(),
        ensures
            r is Ok <==> old(self).has(id@),
            r matches Err(e) ==> e is NotFound && e.detail() == id@ && *final(self) == *old(self),
            final(self).wf(),
            !final(self).has(id@),
            forall|other: Seq<char>|
                other != id@ ==> final(self).has(other) == old(self).has(other),
    {
        match self.position(id) {
            Some(i) => {
                let ghost before = self.entries@;
                let _ = self.entries.remove(i);
                proof {
                    let after = self.entries@;
                    assert forall|k: int| 0 <= k < after.len() implies (#[trigger] after[k]).id@
                        != id@ by {
                        if k < i {
                            assert(after[k] == before[k]);
                        } else {
                            assert(after[k] == before[k + 1]);
                        }
                    }
                    assert forall|other: Seq<char>| other != id@ implies self.has(other)
                        == old(self).has(other) by {
                        if old(self).has(other) {
                            let k = choose|k: int|
                                0 <= k < before.len() && #[trigger] before[k].id@ == other;
                            if k < i {
                                assert(after[k].id@ == other);
                            } else {
                                assert(after[k - 1] == before[k]);
                                assert(after[k - 1].id@ == other);
                            }
                        }
                        if self.has(other) {
                            let k = choose|k: int|
                                0 <= k < after.len() && #[trigger] after[k].id@ == other;
                            if k < i {
                                assert(before[k].id@ == other);
                            } else {
                                assert(before[k + 1].id@ == other);
                            }
                        }
                    }
                    assert forall|a: int, b: int| 0 <= a < b < after.len() implies after[a].id@
                        != after[b].id@ by {
                        let x = if a < i {
                            a
                        } else {
                            a + 1
                        };
                        let y = if b < i {
                            b
                        } else {
                            b + 1
                        };
                        assert(after[a] == before[x] && after[b] == before[y]);
                    }
                }
                Ok(())
            },
            None => Err(StorageError::NotFound(owned(id))),
        }
    }

    /// Whether a document is held under the identifier.
    pub fn contains(&self, id: &str) -> (r: Result<bool, StorageError>)
        ensures
            r matches Ok(b) && b == self.has(id@),
    {
        Ok(self.position(id).is_some())
    }
}

impl Default for MemoryStorage {
    fn default() -> (r: MemoryStorage)
        ensures
            r.wf(),
            r.entries@.len() == 0,
    {
        MemoryStorage::new()
    }
}

} // verus!
