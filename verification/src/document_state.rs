//! The process-wide registry of open document buffers, keyed by the
//! document's identifier. Keys are unique and carry no ordering; open,
//! change and close events mutate it under the host's exclusive-access
//! guard, completion queries only read it.

use vstd::prelude::*;

use crate::buffer::Buffer;

verus! {

/// One open document: its identifier and its buffer.
pub struct DocumentEntry {
    pub id: String,
    pub buffer: Buffer,
}

/// The registry of open documents.
pub struct DocumentState {
    pub documents: Vec<DocumentEntry>,
}

/// The first index at or after `j` whose entry carries `id`.
pub open spec fn find_from(docs: Seq<DocumentEntry>, id: Seq<char>, j: int) -> Option<int>
    decreases docs.len() - j,
{
    if j < 0 || j >= docs.len() {
        None
    } else if docs[j].id@ == id {
        Some(j)
    } else {
        find_from(docs, id, j + 1)
    }
}

/// The index of the entry carrying `id`, if one is open.
pub open spec fn find_idx(docs: Seq<DocumentEntry>, id: Seq<char>) -> Option<int> {
    find_from(docs, id, 0)
}

pub proof fn lemma_find_from_some(docs: Seq<DocumentEntry>, id: Seq<char>, j: int, i: int)
    requires
        find_from(docs, id, j) == Some(i),
    ensures
        j <= i < docs.len(),
        docs[i].id@ == id,
    decreases docs.len() - j,
{
    if j < 0 || j >= docs.len() {
    } else if docs[j].id@ == id {
    } else {
        lemma_find_from_some(docs, id, j + 1, i);
    }
}

pub proof fn lemma_find_from_none(docs: Seq<DocumentEntry>, id: Seq<char>, j: int)
    requires
        0 <= j,
        find_from(docs, id, j) is None,
    ensures
        forall|k: int| j <= k < docs.len() ==> (#[trigger] docs[k].id)@ != id,
    decreases docs.len() - j,
{
    if j < 0 || j >= docs.len() {
    } else if docs[j].id@ == id {
    } else {
        lemma_find_from_none(docs, id, j + 1);
        assert forall|k: int| j <= k < docs.len() implies (#[trigger] docs[k].id)@ != id by {
            if k > j {
                assert(docs[k].id@ != id);
            }
        }
    }
}

impl DocumentState {
    /// The store's invariant: identifiers unique, every buffer well-formed.
    pub open spec fn wf(&self) -> bool {
        &&& forall|i: int, j: int|
            0 <= i < j < self.documents@.len() ==> (#[trigger] self.documents@[i].id)@ != (
            #[trigger] self.documents@[j].id)@
        &&& forall|i: int|
            0 <= i < self.documents@.len() ==> (#[trigger] self.documents@[i].buffer).wf()
    }

    /// An empty registry.
    pub fn new() -> (s: DocumentState)
        ensures
            s.documents@.len() == 0,
            s.wf(),
    {
        DocumentState { documents: Vec::new() }
    }

    /// Find the position of a document's entry.
    fn position_of(&self, url: &String) -> (r: Option<usize>)
        ensures
            match r {
                Some(i) => Some(i as int) == find_idx(self.documents@, url@) && i
                    < self.documents@.len(),
                None => find_idx(self.documents@, url@) is None,
            },
    {
        let n = self.documents.len();
        let mut j: usize = 0;
        while j < n
            invariant
                n == self.documents@.len(),
                j <= n,
                find_from(self.documents@, url@, 0) == find_from(self.documents@, url@, j as int),
            decreases n - j,
        {
            if self.documents[j].id == *url {
                return Some(j);
            }
            assert(find_from(self.documents@, url@, j as int) == find_from(
                self.documents@,
                url@,
                j + 1,
            ));
            j = j + 1;
        }
        None
    }

    /// The buffer of the document at `url`, if it is open.
    pub fn get_state(&self, url: &String) -> (r: Option<&Buffer>)
        ensures
            match r {
                Some(b) => find_idx(self.documents@, url@) matches Some(i) && *b
                    == self.documents@[i].buffer,
                None => find_idx(self.documents@, url@) is None,
            },
    {
        match self.position_of(url) {
            Some(i) => Some(&self.documents[i].buffer),
            None => None,
        }
    }

    /// Open (or re-open) a document: its buffer replaces any existing entry
    /// under the same identifier, otherwise a new entry is added.
    pub fn insert_state(&mut self, url: String, buffer: Buffer)
        requires
            old(self).wf(),
            buffer.wf(),
        ensures
            final(self).wf(),
            match find_idx(old(self).documents@, url@) {
                Some(i) => {
                    &&& final(self).documents@.len() == old(self).documents@.len()
                    &&& final(self).documents@[i].id == url
                    &&& final(self).documents@[i].buffer == buffer
                    &&& forall|j: int|
                        0 <= j < old(self).documents@.len() && j != i ==> final(self).documents@[j] == old(self).documents@[j]
                },
                None => {
                    &&& final(self).documents@.len() == old(self).documents@.len() + 1
                    &&& final(self).documents@.last().id == url
                    &&& final(self).documents@.last().buffer == buffer
                    &&& forall|j: int|
                        0 <= j < old(self).documents@.len() ==> final(self).documents@[j] == old(self).documents@[j]
                },
            },
    {
        let entry = DocumentEntry { id: url, buffer };
        match self.position_of(&entry.id) {
            Some(i) => {
                proof {
                    lemma_find_from_some(self.documents@, entry.id@, 0, i as int);
                }
                self.documents.remove(i);
                self.documents.insert(i, entry);
            },
            None => {
                proof {
                    lemma_find_from_none(self.documents@, entry.id@, 0);
                }
                self.documents.push(entry);
            },
        }
    }

    /// Apply a document-changed event: reparse the new text and swap the
    /// entry's text and tree together; a failed parse rejects the edit and
    /// keeps the previous state. A change for a document that is not open
    /// changes nothing.
    pub fn update_state(&mut self, url: &String, new_src: String)
        requires
            old(self).wf(),
        ensures
            final(self).wf(),
            match find_idx(old(self).documents@, url@) {
                None => final(self).documents == old(self).documents,
                Some(i) => {
                    &&& final(self).documents@.len() == old(self).documents@.len()
                    &&& final(self).documents@[i].id == old(self).documents@[i].id
                    &&& final(self).documents@[i].buffer.wf()
                    &&& final(self).documents@[i].buffer.language == old(self).documents@[i].buffer.language
                    &&& (final(self).documents@[i].buffer.text@ == new_src@ || (final(self).documents@[i].buffer.text == old(self).documents@[i].buffer.text && final(self).documents@[i].buffer.tree == old(self).documents@[i].buffer.tree))
                    &&& forall|j: int|
                        0 <= j < old(self).documents@.len() && j != i ==> final(self).documents@[j] == old(self).documents@[j]
                },
            },
    {
        match self.position_of(url) {
            Some(i) => {
                proof {
                    lemma_find_from_some(self.documents@, url@, 0, i as int);
                }
                let mut entry = self.documents.remove(i);
                let _ok = entry.buffer.apply_edit(new_src);
                self.documents.insert(i, entry);
                proof {
                    assert(self.documents@ =~= old(self).documents@.update(
                        i as int,
                        self.documents@[i as int],
                    ));
                }
            },
            None => {},
        }
    }

    /// Close a document: its entry leaves the registry and its buffer comes
    /// back, if one was open.
    pub fn remove_state(&mut self, url: &String) -> (r: Option<Buffer>)
        requires
            old(self).wf(),
        ensures
            final(self).wf(),
            match find_idx(old(self).documents@, url@) {
                None => final(self).documents == old(self).documents && r is None,
                Some(i) => {
                    &&& final(self).documents@ == old(self).documents@.remove(i)
                    &&& r matches Some(b) && b == old(self).documents@[i].buffer
                },
            },
    {
        match self.position_of(url) {
            Some(i) => {
                proof {
                    lemma_find_from_some(self.documents@, url@, 0, i as int);
                }
                let entry = self.documents.remove(i);
                Some(entry.buffer)
            },
            None => None,
        }
    }
}

} // verus!
