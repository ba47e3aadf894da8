//! A verified in-memory storage backend.
//!
//! It implements the connection capability honestly: writes are committed
//! through the same revision compare-and-swap the contracts of
//! [`crate::connection::Connection`] describe, so it serves both as the
//! reference implementation of that capability and as a backend for
//! exercising the rest of the core.  The unique-name view is fed through
//! [`MemoryConnection::set_name`], standing in for the externally defined
//! map phase that maintains that view in a full storage engine.

use vstd::prelude::*;
use crate::bytes::copy_bytes;
use crate::connection::{committed_revision, ordered_by, Connection, Range, Sort};
use crate::document::{Document, DocumentId, DocumentModel, Header, HeaderModel};
use crate::error::Error;
use crate::revision::{Revision, RevisionModel};

verus! {

/// The first document, if any, in `docs` whose id is `id`.
pub open spec fn find_doc(docs: Seq<DocumentModel>, id: DocumentId) -> Option<DocumentModel>
    decreases docs.len(),
{
    if docs.len() == 0 {
        None
    } else if docs[0].id == id {
        Some(docs[0])
    } else {
        find_doc(docs.drop_first(), id)
    }
}

/// The id under the first entry for `name` in the unique-name index, if any.
pub open spec fn find_name(names: Seq<(Seq<char>, DocumentId)>, name: Seq<char>) -> Option<
    DocumentId,
>
    decreases names.len(),
{
    if names.len() == 0 {
        None
    } else if names[0].0 == name {
        Some(names[0].1)
    } else {
        find_name(names.drop_first(), name)
    }
}

proof fn lemma_find_doc_at(docs: Seq<DocumentModel>, id: DocumentId, i: int)
    requires
        0 <= i < docs.len(),
        docs[i].id == id,
        forall|j: int| 0 <= j < i ==> docs[j].id != id,
    ensures
        find_doc(docs, id) == Some(docs[i]),
    decreases i,
{
    if i > 0 {
        lemma_find_doc_at(docs.drop_first(), id, i - 1);
    }
}

proof fn lemma_find_doc_none(docs: Seq<DocumentModel>, id: DocumentId)
    requires
        forall|j: int| 0 <= j < docs.len() ==> docs[j].id != id,
    ensures
        find_doc(docs, id) is None,
    decreases docs.len(),
{
    if docs.len() > 0 {
        lemma_find_doc_none(docs.drop_first(), id);
    }
}

proof fn lemma_find_doc_push_other(docs: Seq<DocumentModel>, d: DocumentModel, id: DocumentId)
    requires
        id != d.id,
    ensures
        find_doc(docs.push(d), id) == find_doc(docs, id),
    decreases docs.len(),
{
    if docs.len() == 0 {
        assert(docs.push(d)[0] == d);
        assert(docs.push(d).drop_first() =~= docs);
    } else {
        assert(docs.push(d)[0] == docs[0]);
        assert(docs.push(d).drop_first() =~= docs.drop_first().push(d));
        lemma_find_doc_push_other(docs.drop_first(), d, id);
    }
}

proof fn lemma_find_doc_update_other(
    docs: Seq<DocumentModel>,
    i: int,
    d: DocumentModel,
    id: DocumentId,
)
    requires
        0 <= i < docs.len(),
        id != d.id,
        id != docs[i].id,
    ensures
        find_doc(docs.update(i, d), id) == find_doc(docs, id),
    decreases i,
{
    if i == 0 {
        assert(docs.update(i, d).drop_first() =~= docs.drop_first());
    } else {
        assert(docs.update(i, d).drop_first() =~= docs.drop_first().update(i - 1, d));
        lemma_find_doc_update_other(docs.drop_first(), i - 1, d, id);
    }
}

proof fn lemma_find_doc_mem(docs: Seq<DocumentModel>, id: DocumentId)
    ensures
        find_doc(docs, id) matches Some(d) ==> exists|j: int|
            0 <= j < docs.len() && docs[j] == d,
    decreases docs.len(),
{
    if docs.len() > 0 {
        if docs[0].id == id {
            assert(docs[0] == find_doc(docs, id)->Some_0);
        } else {
            lemma_find_doc_mem(docs.drop_first(), id);
            if find_doc(docs, id) is Some {
                let d = find_doc(docs, id)->Some_0;
                let j = choose|j: int| 0 <= j < docs.drop_first().len() && docs.drop_first()[j]
                    == d;
                assert(docs[j + 1] == d);
            }
        }
    }
}

proof fn lemma_find_doc_id(docs: Seq<DocumentModel>, id: DocumentId)
    ensures
        find_doc(docs, id) matches Some(d) ==> d.id == id,
    decreases docs.len(),
{
    if docs.len() > 0 && docs[0].id != id {
        lemma_find_doc_id(docs.drop_first(), id);
    }
}

proof fn lemma_find_doc_insert_other(
    docs: Seq<DocumentModel>,
    p: int,
    d: DocumentModel,
    id: DocumentId,
)
    requires
        0 <= p <= docs.len(),
        id != d.id,
    ensures
        find_doc(docs.insert(p, d), id) == find_doc(docs, id),
    decreases p,
{
    if p == 0 {
        assert(docs.insert(0, d)[0] == d);
        assert(docs.insert(0, d).drop_first() =~= docs);
    } else {
        assert(docs.insert(p, d)[0] == docs[0]);
        assert(docs.insert(p, d).drop_first() =~= docs.drop_first().insert(p - 1, d));
        lemma_find_doc_insert_other(docs.drop_first(), p - 1, d, id);
    }
}

proof fn lemma_find_doc_remove_other(docs: Seq<DocumentModel>, p: int, id: DocumentId)
    requires
        0 <= p < docs.len(),
        id != docs[p].id,
    ensures
        find_doc(docs.remove(p), id) == find_doc(docs, id),
    decreases p,
{
    if p == 0 {
        assert(docs.remove(0) =~= docs.drop_first());
    } else {
        assert(docs.remove(p)[0] == docs[0]);
        assert(docs.remove(p).drop_first() =~= docs.drop_first().remove(p - 1));
        lemma_find_doc_remove_other(docs.drop_first(), p - 1, id);
    }
}

proof fn lemma_find_name_push_other(
    names: Seq<(Seq<char>, DocumentId)>,
    e: (Seq<char>, DocumentId),
    name: Seq<char>,
)
    requires
        name != e.0,
    ensures
        find_name(names.push(e), name) == find_name(names, name),
    decreases names.len(),
{
    if names.len() == 0 {
        assert(names.push(e)[0] == e);
        assert(names.push(e).drop_first() =~= names);
    } else {
        assert(names.push(e)[0] == names[0]);
        assert(names.push(e).drop_first() =~= names.drop_first().push(e));
        lemma_find_name_push_other(names.drop_first(), e, name);
    }
}

proof fn lemma_find_name_at(names: Seq<(Seq<char>, DocumentId)>, name: Seq<char>, i: int)
    requires
        0 <= i < names.len(),
        names[i].0 == name,
        forall|j: int| 0 <= j < i ==> names[j].0 != name,
    ensures
        find_name(names, name) == Some(names[i].1),
    decreases i,
{
    if i > 0 {
        lemma_find_name_at(names.drop_first(), name, i - 1);
    }
}

proof fn lemma_find_name_none(names: Seq<(Seq<char>, DocumentId)>, name: Seq<char>)
    requires
        forall|j: int| 0 <= j < names.len() ==> names[j].0 != name,
    ensures
        find_name(names, name) is None,
    decreases names.len(),
{
    if names.len() > 0 {
        lemma_find_name_none(names.drop_first(), name);
    }
}

proof fn lemma_ordered_by_from_docs(s: Seq<Document>, order: Sort)
    requires
        forall|a: int, b: int|
            #![trigger s[a]@.id, s[b]@.id]
            0 <= a < b < s.len() ==> match order {
                Sort::Ascending => s[a]@.id.0 < s[b]@.id.0,
                Sort::Descending => s[a]@.id.0 > s[b]@.id.0,
            },
    ensures
        ordered_by(s.map_values(|d: Document| d@), order),
{
    let m = s.map_values(|d: Document| d@);
    assert forall|i: int, j: int|
        #![trigger m[i].id, m[j].id]
        0 <= i < j < m.len() implies match order {
        Sort::Ascending => m[i].id.0 < m[j].id.0,
        Sort::Descending => m[i].id.0 > m[j].id.0,
    } by {
        assert(m[i] == s[i]@);
        assert(m[j] == s[j]@);
    };
}

/// One entry of the unique-name index.
struct NameIndexEntry {
    name: String,
    id: DocumentId,
}

/// An in-memory store of one collection's documents, with its unique-name
/// index.  Ids are assigned sequentially on push; documents are held in
/// ascending id order.
pub struct MemoryConnection {
    collection: String,
    docs: Vec<Document>,
    names: Vec<NameIndexEntry>,
    next_id: u64,
}

#[verifier::type_invariant]
spec fn store_inv(s: &MemoryConnection) -> bool {
    &&& forall|i: int, j: int|
        0 <= i < j < s.docs@.len() ==> s.docs@[i].id.0 < s.docs@[j].id.0
    &&& forall|i: int| 0 <= i < s.docs@.len() ==> (#[trigger] s.docs@[i].id.0) < s.next_id
    &&& forall|i: int|
        0 <= i < s.docs@.len() ==> (#[trigger] s.docs@[i]@.revision.fingerprint)
            == s.docs@[i]@.contents
    &&& forall|i: int|
        0 <= i < s.docs@.len() ==> (#[trigger] s.docs@[i]@.revision.sequence) <= u64::MAX
}

impl MemoryConnection {
    /// The name of the collection this store holds.
    pub closed spec fn collection_name(&self) -> Seq<char> {
        self.collection@
    }

    /// The stored documents, in ascending id order.
    pub closed spec fn docs_model(&self) -> Seq<DocumentModel> {
        self.docs@.map_values(|d: Document| d@)
    }

    /// The unique-name index: name/id pairs in insertion order.
    pub closed spec fn names_model(&self) -> Seq<(Seq<char>, DocumentId)> {
        self.names@.map_values(|e: NameIndexEntry| (e.name@, e.id))
    }

    /// The id the next pushed document receives.
    pub closed spec fn next_id_model(&self) -> u64 {
        self.next_id
    }

    /// Creates an empty store for the collection named `collection`.
    pub fn new(collection: String) -> (r: MemoryConnection)
        ensures
            r.collection_name() == collection@,
            r.docs_model() == Seq::<DocumentModel>::empty(),
            r.names_model() == Seq::<(Seq<char>, DocumentId)>::empty(),
            r.next_id_model() == 1u64,
    {
        let r = MemoryConnection { collection, docs: Vec::new(), names: Vec::new(), next_id: 1 };
        proof {
            assert(r.docs_model() =~= Seq::<DocumentModel>::empty());
            assert(r.names_model() =~= Seq::<(Seq<char>, DocumentId)>::empty());
        }
        r
    }

    /// Fetches the document with `id`: exactly the stored document when one
    /// is stored, the explicit empty result otherwise.  Never an error.
    pub fn fetch(&self, id: DocumentId) -> (r: Option<Document>)
        ensures
            match find_doc(self.docs_model(), id) {
                Some(d) => r matches Some(rd) && rd@ == d,
                None => r is None,
            },
    {
        let mut i: usize = 0;
        while i < self.docs.len()
            invariant
                i <= self.docs@.len(),
                forall|j: int| 0 <= j < i ==> self.docs@[j]@.id != id,
            decreases self.docs@.len() - i,
        {
            if self.docs[i].id == id {
                proof {
                    lemma_find_doc_at(self.docs_model(), id, i as int);
                }
                return Some(self.docs[i].duplicate());
            }
            i = i + 1;
        }
        proof {
            lemma_find_doc_none(self.docs_model(), id);
        }
        None
    }

    /// The position of the document with `id`, if one is stored.
    fn find_index(&self, id: DocumentId) -> (r: Option<usize>)
        ensures
            match r {
                Some(i) => {
                    &&& i < self.docs@.len()
                    &&& self.docs@[i as int]@.id == id
                    &&& forall|j: int| 0 <= j < i ==> self.docs@[j]@.id != id
                    &&& find_doc(self.docs_model(), id) == Some(self.docs@[i as int]@)
                },
                None => find_doc(self.docs_model(), id) is None,
            },
    {
        let mut i: usize = 0;
        while i < self.docs.len()
            invariant
                i <= self.docs@.len(),
                forall|j: int| 0 <= j < i ==> self.docs@[j]@.id != id,
            decreases self.docs@.len() - i,
        {
            if self.docs[i].id == id {
                proof {
                    lemma_find_doc_at(self.docs_model(), id, i as int);
                }
                return Some(i);
            }
            i = i + 1;
        }
        proof {
            lemma_find_doc_none(self.docs_model(), id);
        }
        None
    }

    /// Submits a conditioned write of `doc`, which carries the revision its
    /// caller believes is current alongside the new contents, and performs
    /// the compare-and-swap atomically.
    ///
    /// If the stored revision still matches, the write commits: the stored
    /// document takes the new contents under the successor revision (or is
    /// left as it is when the contents are byte-identical, the elided no-op
    /// write), and the committed header is returned.  A write presenting a
    /// revision that no longer matches never changes stored state and
    /// always yields `Conflict` carrying the header the store actually
    /// holds.  A write targeting an absent document never changes stored
    /// state and yields `DocumentNotFound`.
    pub fn conditioned_update(&mut self, doc: &Document) -> (r: Result<Header, Error>)
        ensures
            final(self).names_model() == old(self).names_model(),
            final(self).collection_name() == old(self).collection_name(),
            final(self).next_id_model() == old(self).next_id_model(),
            match find_doc(old(self).docs_model(), doc@.id) {
                Some(stored) => {
                    &&& (stored.revision == doc@.revision && (doc@.contents
                        == doc@.revision.fingerprint || doc@.revision.sequence < u64::MAX)
                        ==> {
                        &&& r matches Ok(h) && h@ == (HeaderModel {
                            id: doc@.id,
                            revision: committed_revision(doc@),
                        })
                        &&& find_doc(final(self).docs_model(), doc@.id) == Some(
                            DocumentModel {
                                id: doc@.id,
                                revision: committed_revision(doc@),
                                contents: doc@.contents,
                            },
                        )
                        &&& forall|id2: DocumentId|
                            id2 != doc@.id ==> find_doc(final(self).docs_model(), id2)
                                == find_doc(old(self).docs_model(), id2)
                    })
                    &&& (stored.revision != doc@.revision ==> {
                        &&& r matches Err(e)
                        &&& e matches Error::Conflict { collection, header }
                        &&& collection@ == old(self).collection_name()
                        &&& header@ == (HeaderModel { id: stored.id, revision: stored.revision })
                        &&& final(self).docs_model() == old(self).docs_model()
                    })
                    &&& (stored.revision == doc@.revision && doc@.contents
                        != doc@.revision.fingerprint && doc@.revision.sequence == u64::MAX ==> (
                    r matches Err(e) && e is Transport) && final(self).docs_model() == old(
                        self,
                    ).docs_model())
                },
                None => {
                    &&& r matches Err(e)
                    &&& e matches Error::DocumentNotFound { collection, id }
                    &&& collection@ == old(self).collection_name()
                    &&& id == doc@.id
                    &&& final(self).docs_model() == old(self).docs_model()
                },
            },
    {
        proof {
            use_type_invariant(&*self);
        }
        match self.find_index(doc.id) {
            None => Err(Error::DocumentNotFound { collection: self.collection.clone(), id: doc.id }),
            Some(i) => {
                if !self.docs[i].revision.matches(&doc.revision) {
                    let header = self.docs[i].header();
                    return Err(Error::Conflict { collection: self.collection.clone(), header });
                }
                // The compare-and-swap passed: the presented revision is
                // the stored one.
                if doc.revision.represents(&doc.contents) {
                    // A no-op write of byte-identical contents is elided.
                    return Ok(doc.header());
                }
                if doc.revision.sequence() == u64::MAX {
                    return Err(Error::Transport { message: "revision chain exhausted".to_owned() });
                }
                let new_doc = match doc.update_with(&doc.contents) {
                    Some(d) => d,
                    None => unreached(),
                };
                let ghost dm = new_doc@;
                let header = new_doc.header();
                let mut docs: Vec<Document> = Vec::new();
                core::mem::swap(&mut docs, &mut self.docs);
                let _replaced = docs.remove(i);
                docs.insert(i, new_doc);
                self.docs = docs;
                proof {
                    assert(self.docs@ =~= old(self).docs@.update(i as int, self.docs@[i as int]));
                    assert(self.docs_model() =~= old(self).docs_model().update(i as int, dm));
                    lemma_find_doc_at(self.docs_model(), doc@.id, i as int);
                    assert forall|id2: DocumentId|
                        id2 != doc@.id implies find_doc(self.docs_model(), id2) == find_doc(
                        old(self).docs_model(),
                        id2,
                    ) by {
                        lemma_find_doc_update_other(old(self).docs_model(), i as int, dm, id2);
                    };
                }
                Ok(header)
            },
        }
    }

    /// Stores `contents` as a new document under the next fresh id.
    ///
    /// On success — owed whenever the id space is not exhausted — the new
    /// document is stored with the first revision of its chain, is found
    /// under its id, was absent before, and no other document changes; this
    /// is the write half of the round trip: reading the document back
    /// yields `contents` unchanged.
    pub fn store_new(&mut self, contents: &Vec<u8>) -> (r: Result<Header, Error>)
        ensures
            old(self).next_id_model() < u64::MAX ==> match r {
                Ok(h) => {
                    &&& h@ == (HeaderModel {
                        id: DocumentId(old(self).next_id_model()),
                        revision: RevisionModel { sequence: 0, fingerprint: contents@ },
                    })
                    &&& find_doc(old(self).docs_model(), h@.id) is None
                    &&& final(self).docs_model() == old(self).docs_model().push(
                        DocumentModel {
                            id: h@.id,
                            revision: h@.revision,
                            contents: contents@,
                        },
                    )
                    &&& find_doc(final(self).docs_model(), h@.id) == Some(
                        DocumentModel { id: h@.id, revision: h@.revision, contents: contents@ },
                    )
                    &&& forall|id2: DocumentId|
                        id2 != h@.id ==> find_doc(final(self).docs_model(), id2) == find_doc(
                            old(self).docs_model(),
                            id2,
                        )
                    &&& final(self).next_id_model() == old(self).next_id_model() + 1
                },
                Err(_) => false,
            },
            old(self).next_id_model() == u64::MAX ==> r is Err && final(self).docs_model() == old(
                self,
            ).docs_model(),
            final(self).names_model() == old(self).names_model(),
            final(self).collection_name() == old(self).collection_name(),
    {
        proof {
            use_type_invariant(&*self);
        }
        if self.next_id == u64::MAX {
            return Err(Error::Transport { message: "id space exhausted".to_owned() });
        }
        let id = DocumentId(self.next_id);
        let doc = Document::new(id, copy_bytes(contents));
        let ghost dm = doc@;
        self.next_id = self.next_id + 1;
        // The documents are moved out, changed, and moved back: the type
        // invariant restricts what may be done to a borrowed field.
        let mut docs: Vec<Document> = Vec::new();
        core::mem::swap(&mut docs, &mut self.docs);
        docs.push(doc);
        self.docs = docs;
        let header = Header { id, revision: Revision::initial(contents) };
        proof {
            assert(self.docs_model() =~= old(self).docs_model().push(dm));
            lemma_find_doc_none(old(self).docs_model(), id);
            lemma_find_doc_at(self.docs_model(), id, old(self).docs_model().len() as int);
            assert forall|id2: DocumentId|
                id2 != id implies find_doc(self.docs_model(), id2) == find_doc(
                old(self).docs_model(),
                id2,
            ) by {
                lemma_find_doc_push_other(old(self).docs_model(), dm, id2);
            };
            assert(header@ =~= (HeaderModel {
                id,
                revision: RevisionModel { sequence: 0, fingerprint: contents@ },
            }));
        }
        Ok(header)
    }

    /// Stores `contents` as a fresh document under `id`, which must be
    /// absent, keeping the documents in ascending id order.
    fn place_fresh(&mut self, id: DocumentId, contents: &Vec<u8>) -> (r: Header)
        requires
            find_doc(old(self).docs_model(), id) is None,
            id.0 < u64::MAX,
        ensures
            r@ == (HeaderModel {
                id,
                revision: RevisionModel { sequence: 0, fingerprint: contents@ },
            }),
            find_doc(final(self).docs_model(), id) == Some(
                DocumentModel { id, revision: r@.revision, contents: contents@ },
            ),
            forall|id2: DocumentId|
                id2 != id ==> find_doc(final(self).docs_model(), id2) == find_doc(
                    old(self).docs_model(),
                    id2,
                ),
            final(self).names_model() == old(self).names_model(),
            final(self).collection_name() == old(self).collection_name(),
    {
        proof {
            use_type_invariant(&*self);
            assert forall|j: int| 0 <= j < self.docs@.len() implies self.docs@[j]@.id != id by {
                if self.docs@[j]@.id == id {
                    lemma_find_doc_at(self.docs_model(), id, j);
                }
            };
        }
        let mut p: usize = 0;
        while p < self.docs.len() && self.docs[p].id.0 < id.0
            invariant
                p <= self.docs@.len(),
                forall|j: int| 0 <= j < p ==> (#[trigger] self.docs@[j]@.id.0) < id.0,
            decreases self.docs@.len() - p,
        {
            p = p + 1;
        }
        let doc = Document::new(id, copy_bytes(contents));
        let ghost dm = doc@;
        let header = doc.header();
        if self.next_id <= id.0 {
            self.next_id = id.0 + 1;
        }
        let mut docs: Vec<Document> = Vec::new();
        core::mem::swap(&mut docs, &mut self.docs);
        docs.insert(p, doc);
        self.docs = docs;
        proof {
            assert(self.docs_model() =~= old(self).docs_model().insert(p as int, dm));
            lemma_find_doc_at(self.docs_model(), id, p as int);
            assert forall|id2: DocumentId|
                id2 != id implies find_doc(self.docs_model(), id2) == find_doc(
                old(self).docs_model(),
                id2,
            ) by {
                lemma_find_doc_insert_other(old(self).docs_model(), p as int, dm, id2);
            };
            assert(self.names_model() =~= old(self).names_model());
        }
        header
    }

    /// Stores `contents` as a new document under the caller-chosen `id`.
    ///
    /// Success is owed whenever `id` is absent and representable; a
    /// document already stored under `id` is never touched — the write is
    /// rejected with `Conflict` carrying its current header.
    pub fn place(&mut self, id: DocumentId, contents: &Vec<u8>) -> (r: Result<Header, Error>)
        ensures
            final(self).names_model() == old(self).names_model(),
            final(self).collection_name() == old(self).collection_name(),
            match find_doc(old(self).docs_model(), id) {
                Some(stored) => {
                    &&& r matches Err(e)
                    &&& e matches Error::Conflict { collection, header }
                    &&& collection@ == old(self).collection_name()
                    &&& header@ == (HeaderModel { id: stored.id, revision: stored.revision })
                    &&& final(self).docs_model() == old(self).docs_model()
                },
                None => {
                    &&& (id.0 < u64::MAX ==> {
                        &&& r matches Ok(h) && h@ == (HeaderModel {
                            id,
                            revision: RevisionModel { sequence: 0, fingerprint: contents@ },
                        })
                        &&& find_doc(final(self).docs_model(), id) == Some(
                            DocumentModel {
                                id,
                                revision: RevisionModel { sequence: 0, fingerprint: contents@ },
                                contents: contents@,
                            },
                        )
                        &&& forall|id2: DocumentId|
                            id2 != id ==> find_doc(final(self).docs_model(), id2) == find_doc(
                                old(self).docs_model(),
                                id2,
                            )
                    })
                    &&& (id.0 == u64::MAX ==> r is Err && final(self).docs_model() == old(
                        self,
                    ).docs_model())
                },
            },
    {
        match self.find_index(id) {
            Some(i) => {
                let header = self.docs[i].header();
                Err(Error::Conflict { collection: self.collection.clone(), header })
            },
            None => {
                if id.0 == u64::MAX {
                    return Err(Error::Transport { message: "id not representable".to_owned() });
                }
                Ok(self.place_fresh(id, contents))
            },
        }
    }

    /// Stores `contents` under `id` whether or not a document exists
    /// there, bypassing conflict detection.  An existing document takes
    /// the new contents under its successor revision (unchanged for the
    /// elided no-op write of byte-identical contents); an absent id is
    /// filled as a fresh insert.
    pub fn force_write(&mut self, id: DocumentId, contents: &Vec<u8>) -> (r: Result<Header, Error>)
        ensures
            final(self).names_model() == old(self).names_model(),
            final(self).collection_name() == old(self).collection_name(),
            match find_doc(old(self).docs_model(), id) {
                Some(stored) => {
                    &&& (contents@ == stored.revision.fingerprint ==> {
                        &&& r matches Ok(h) && h@ == (HeaderModel {
                            id,
                            revision: stored.revision,
                        })
                        &&& final(self).docs_model() == old(self).docs_model()
                    })
                    &&& (contents@ != stored.revision.fingerprint
                        && stored.revision.sequence < u64::MAX ==> {
                        &&& r matches Ok(h) && h@ == (HeaderModel {
                            id,
                            revision: RevisionModel {
                                sequence: stored.revision.sequence + 1,
                                fingerprint: contents@,
                            },
                        })
                        &&& find_doc(final(self).docs_model(), id) == Some(
                            DocumentModel {
                                id,
                                revision: RevisionModel {
                                    sequence: stored.revision.sequence + 1,
                                    fingerprint: contents@,
                                },
                                contents: contents@,
                            },
                        )
                        &&& forall|id2: DocumentId|
                            id2 != id ==> find_doc(final(self).docs_model(), id2) == find_doc(
                                old(self).docs_model(),
                                id2,
                            )
                    })
                    &&& (contents@ != stored.revision.fingerprint && stored.revision.sequence
                        == u64::MAX ==> r is Err && final(self).docs_model() == old(
                        self,
                    ).docs_model())
                },
                None => {
                    &&& (id.0 < u64::MAX ==> {
                        &&& r matches Ok(h) && h@ == (HeaderModel {
                            id,
                            revision: RevisionModel { sequence: 0, fingerprint: contents@ },
                        })
                        &&& find_doc(final(self).docs_model(), id) == Some(
                            DocumentModel {
                                id,
                                revision: RevisionModel { sequence: 0, fingerprint: contents@ },
                                contents: contents@,
                            },
                        )
                        &&& forall|id2: DocumentId|
                            id2 != id ==> find_doc(final(self).docs_model(), id2) == find_doc(
                                old(self).docs_model(),
                                id2,
                            )
                    })
                    &&& (id.0 == u64::MAX ==> r is Err && final(self).docs_model() == old(
                        self,
                    ).docs_model())
                },
            },
    {
        proof {
            use_type_invariant(&*self);
        }
        match self.find_index(id) {
            Some(i) => {
                if self.docs[i].revision.represents(contents) {
                    return Ok(self.docs[i].header());
                }
                if self.docs[i].revision.sequence() == u64::MAX {
                    return Err(Error::Transport { message: "revision chain exhausted".to_owned() });
                }
                let new_doc = match self.docs[i].update_with(contents) {
                    Some(d) => d,
                    None => unreached(),
                };
                let ghost dm = new_doc@;
                let header = new_doc.header();
                let mut docs: Vec<Document> = Vec::new();
                core::mem::swap(&mut docs, &mut self.docs);
                let _replaced = docs.remove(i);
                docs.insert(i, new_doc);
                self.docs = docs;
                proof {
                    assert(self.docs_model() =~= old(self).docs_model().update(i as int, dm));
                    lemma_find_doc_at(self.docs_model(), id, i as int);
                    assert forall|id2: DocumentId|
                        id2 != id implies find_doc(self.docs_model(), id2) == find_doc(
                        old(self).docs_model(),
                        id2,
                    ) by {
                        lemma_find_doc_update_other(old(self).docs_model(), i as int, dm, id2);
                    };
                }
                Ok(header)
            },
            None => {
                if id.0 == u64::MAX {
                    return Err(Error::Transport { message: "id not representable".to_owned() });
                }
                Ok(self.place_fresh(id, contents))
            },
        }
    }

    /// Deletes the document with `id`, if one is stored, and returns
    /// whether one was.
    pub fn delete(&mut self, id: DocumentId) -> (r: bool)
        ensures
            r == (find_doc(old(self).docs_model(), id) is Some),
            find_doc(final(self).docs_model(), id) is None,
            forall|id2: DocumentId|
                id2 != id ==> find_doc(final(self).docs_model(), id2) == find_doc(
                    old(self).docs_model(),
                    id2,
                ),
            final(self).names_model() == old(self).names_model(),
            final(self).collection_name() == old(self).collection_name(),
            final(self).next_id_model() == old(self).next_id_model(),
    {
        proof {
            use_type_invariant(&*self);
        }
        match self.find_index(id) {
            None => false,
            Some(i) => {
                let mut docs: Vec<Document> = Vec::new();
                core::mem::swap(&mut docs, &mut self.docs);
                let _removed = docs.remove(i);
                self.docs = docs;
                proof {
                    assert(self.docs_model() =~= old(self).docs_model().remove(i as int));
                    assert forall|j: int|
                        0 <= j < self.docs_model().len() implies self.docs_model()[j].id != id by {
                        if j < i {
                            assert(self.docs_model()[j] == old(self).docs_model()[j]);
                        } else {
                            assert(self.docs_model()[j] == old(self).docs_model()[j + 1]);
                        }
                    };
                    lemma_find_doc_none(self.docs_model(), id);
                    assert forall|id2: DocumentId|
                        id2 != id implies find_doc(self.docs_model(), id2) == find_doc(
                        old(self).docs_model(),
                        id2,
                    ) by {
                        lemma_find_doc_remove_other(old(self).docs_model(), i as int, id2);
                    };
                }
                true
            },
        }
    }

    /// Records `name` as the unique name of the document with `id` in the
    /// name index.  This stands in for the externally defined map phase of
    /// the unique-name view: a full storage engine derives the index from
    /// the documents; here the schema layer feeds it explicitly.
    pub fn set_name(&mut self, name: String, id: DocumentId)
        ensures
            final(self).names_model() == old(self).names_model().push((name@, id)),
            final(self).docs_model() == old(self).docs_model(),
            final(self).collection_name() == old(self).collection_name(),
            final(self).next_id_model() == old(self).next_id_model(),
    {
        proof {
            use_type_invariant(&*self);
        }
        let ghost entry_model = (name@, id);
        let mut names: Vec<NameIndexEntry> = Vec::new();
        core::mem::swap(&mut names, &mut self.names);
        names.push(NameIndexEntry { name, id });
        self.names = names;
        proof {
            assert(self.names_model() =~= old(self).names_model().push(entry_model));
        }
    }

    /// Queries the unique-name index for `name` and returns the first
    /// matching document still stored, if any.  Uniqueness of the name is
    /// an obligation of the schema feeding the index.
    pub fn query_name(&self, name: &String) -> (r: Option<Document>)
        ensures
            match find_name(self.names_model(), name@) {
                None => r is None,
                Some(id) => match find_doc(self.docs_model(), id) {
                    Some(d) => r matches Some(rd) && rd@ == d,
                    None => r is None,
                },
            },
    {
        let mut i: usize = 0;
        while i < self.names.len()
            invariant
                i <= self.names@.len(),
                forall|j: int| 0 <= j < i ==> (#[trigger] self.names@[j].name@) != name@,
            decreases self.names@.len() - i,
        {
            if self.names[i].name == *name {
                proof {
                    lemma_find_name_at(self.names_model(), name@, i as int);
                }
                return self.fetch(self.names[i].id);
            }
            i = i + 1;
        }
        proof {
            lemma_find_name_none(self.names_model(), name@);
        }
        None
    }

    /// Fetches the documents among `ids` that are stored.  Absent
    /// documents are not returned, and produce no error.
    pub fn fetch_multiple(&self, ids: &Vec<DocumentId>) -> (r: Vec<Document>)
        ensures
            forall|k: int|
                0 <= k < r@.len() ==> find_doc(self.docs_model(), (#[trigger] r@[k]@).id) == Some(
                    r@[k]@,
                ) && ids@.contains(r@[k]@.id),
            forall|j: int|
                0 <= j < ids@.len() ==> match find_doc(self.docs_model(), #[trigger] ids@[j]) {
                    Some(d) => exists|k: int| 0 <= k < r@.len() && r@[k]@ == d,
                    None => true,
                },
    {
        let mut out: Vec<Document> = Vec::new();
        let mut i: usize = 0;
        while i < ids.len()
            invariant
                i <= ids@.len(),
                forall|k: int|
                    0 <= k < out@.len() ==> find_doc(self.docs_model(), (#[trigger] out@[k]@).id)
                        == Some(out@[k]@) && ids@.contains(out@[k]@.id),
                forall|j: int|
                    0 <= j < i ==> match find_doc(self.docs_model(), #[trigger] ids@[j]) {
                        Some(d) => exists|k: int| 0 <= k < out@.len() && out@[k]@ == d,
                        None => true,
                    },
            decreases ids@.len() - i,
        {
            let ghost prev = out@;
            match self.fetch(ids[i]) {
                Some(d) => {
                    proof {
                        assert(ids@.contains(ids@[i as int]));
                        lemma_find_doc_id(self.docs_model(), ids@[i as int]);
                        assert(d@.id == ids@[i as int]);
                    }
                    out.push(d);
                    proof {
                        assert forall|j: int|
                            0 <= j < i + 1 implies match find_doc(
                            self.docs_model(),
                            #[trigger] ids@[j],
                        ) {
                            Some(dm) => exists|k: int| 0 <= k < out@.len() && out@[k]@ == dm,
                            None => true,
                        } by {
                            if j < i {
                                match find_doc(self.docs_model(), ids@[j]) {
                                    Some(dm) => {
                                        let k = choose|k: int|
                                            0 <= k < prev.len() && prev[k]@ == dm;
                                        assert(out@[k]@ == dm);
                                    },
                                    None => {},
                                }
                            } else {
                                assert(out@[out@.len() - 1]@ == find_doc(
                                    self.docs_model(),
                                    ids@[i as int],
                                )->Some_0);
                            }
                        };
                    }
                },
                None => {},
            }
            i = i + 1;
        }
        out
    }

    /// Collects the stored documents whose ids lie in `range`, scanning in
    /// ascending id order, stopping at `limit` documents if one is set.
    #[verifier::rlimit(50)]
    fn collect_ascending(&self, range: Range, limit: Option<usize>) -> (r: Vec<Document>)
        ensures
            forall|k: int|
                0 <= k < r@.len() ==> range.includes((#[trigger] r@[k]@).id) && find_doc(
                    self.docs_model(),
                    r@[k]@.id,
                ) == Some(r@[k]@),
            ordered_by(r@.map_values(|d: Document| d@), Sort::Ascending),
            limit matches Some(l) ==> r@.len() <= l,
            limit is None ==> forall|j: int|
                0 <= j < self.docs_model().len() && range.includes(
                    (#[trigger] self.docs_model()[j]).id,
                ) ==> exists|k: int| 0 <= k < r@.len() && r@[k]@ == self.docs_model()[j],
    {
        proof {
            use_type_invariant(&*self);
        }
        let mut out: Vec<Document> = Vec::new();
        let mut i: usize = 0;
        let mut full = match limit {
            Some(l) => out.len() >= l,
            None => false,
        };
        while i < self.docs.len() && !full
            invariant
                i <= self.docs@.len(),
                full == match limit {
                    Some(l) => out@.len() >= l,
                    None => false,
                },
                limit matches Some(l) ==> out@.len() <= l,
                forall|i2: int, j2: int|
                    0 <= i2 < j2 < self.docs@.len() ==> self.docs@[i2].id.0 < self.docs@[j2].id.0,
                forall|k: int|
                    0 <= k < out@.len() ==> range.includes((#[trigger] out@[k]@).id) && find_doc(
                        self.docs_model(),
                        out@[k]@.id,
                    ) == Some(out@[k]@),
                forall|a: int, b: int|
                    #![trigger out@[a]@.id, out@[b]@.id]
                    0 <= a < b < out@.len() ==> out@[a]@.id.0 < out@[b]@.id.0,
                i < self.docs@.len() && out@.len() > 0 ==> out@[out@.len() - 1]@.id.0
                    < self.docs@[i as int].id.0,
                limit is None ==> forall|j: int|
                    0 <= j < i && range.includes((#[trigger] self.docs_model()[j]).id)
                        ==> exists|k: int| 0 <= k < out@.len() && out@[k]@ == self.docs_model()[j],
            decreases self.docs@.len() - i,
        {
            let ghost prev = out@;
            if range.contains(self.docs[i].id) {
                let d = self.docs[i].duplicate();
                proof {
                    lemma_find_doc_at(self.docs_model(), self.docs@[i as int]@.id, i as int);
                    assert forall|j2: int|
                        0 <= j2 < i implies self.docs@[j2]@.id != self.docs@[i as int]@.id by {
                        assert(self.docs@[j2].id.0 < self.docs@[i as int].id.0);
                    };
                }
                out.push(d);
                proof {
                    assert(out@[out@.len() - 1]@ == self.docs_model()[i as int]);
                    assert forall|a: int, b: int|
                        #![trigger out@[a]@.id, out@[b]@.id]
                        0 <= a < b < out@.len() implies out@[a]@.id.0 < out@[b]@.id.0 by {
                        if b < out@.len() - 1 {
                            assert(out@[a] == prev[a] && out@[b] == prev[b]);
                        } else {
                            assert(out@[a] == prev[a]);
                            if a < prev.len() - 1 {
                                assert(prev[a]@.id.0 < prev[prev.len() - 1]@.id.0);
                            }
                            assert(prev[prev.len() - 1]@.id.0 < self.docs@[i as int].id.0
                                || prev.len() - 1 == a);
                        }
                    };
                    if limit is None {
                        assert forall|j: int|
                            0 <= j < i + 1 && range.includes(
                                (#[trigger] self.docs_model()[j]).id,
                            ) implies exists|k: int|
                            0 <= k < out@.len() && out@[k]@ == self.docs_model()[j] by {
                            if j == i {
                                assert(out@[out@.len() - 1]@ == self.docs_model()[j]);
                            } else {
                                let k = choose|k: int|
                                    0 <= k < prev.len() && (#[trigger] prev[k]@)
                                        == self.docs_model()[j];
                                assert(out@[k]@ == self.docs_model()[j]);
                            }
                        };
                    }
                }
            }
            i = i + 1;
            full = match limit {
                Some(l) => out.len() >= l,
                None => false,
            };
        }
        proof {
            lemma_ordered_by_from_docs(out@, Sort::Ascending);
        }
        out
    }

    /// Collects the stored documents whose ids lie in `range`, scanning in
    /// descending id order, stopping at `limit` documents if one is set.
    #[verifier::rlimit(50)]
    fn collect_descending(&self, range: Range, limit: Option<usize>) -> (r: Vec<Document>)
        ensures
            forall|k: int|
                0 <= k < r@.len() ==> range.includes((#[trigger] r@[k]@).id) && find_doc(
                    self.docs_model(),
                    r@[k]@.id,
                ) == Some(r@[k]@),
            ordered_by(r@.map_values(|d: Document| d@), Sort::Descending),
            limit matches Some(l) ==> r@.len() <= l,
            limit is None ==> forall|j: int|
                0 <= j < self.docs_model().len() && range.includes(
                    (#[trigger] self.docs_model()[j]).id,
                ) ==> exists|k: int| 0 <= k < r@.len() && r@[k]@ == self.docs_model()[j],
    {
        proof {
            use_type_invariant(&*self);
        }
        let mut out: Vec<Document> = Vec::new();
        let mut i: usize = self.docs.len();
        let mut full = match limit {
            Some(l) => out.len() >= l,
            None => false,
        };
        while i > 0 && !full
            invariant
                i <= self.docs@.len(),
                full == match limit {
                    Some(l) => out@.len() >= l,
                    None => false,
                },
                limit matches Some(l) ==> out@.len() <= l,
                forall|i2: int, j2: int|
                    0 <= i2 < j2 < self.docs@.len() ==> self.docs@[i2].id.0 < self.docs@[j2].id.0,
                forall|k: int|
                    0 <= k < out@.len() ==> range.includes((#[trigger] out@[k]@).id) && find_doc(
                        self.docs_model(),
                        out@[k]@.id,
                    ) == Some(out@[k]@),
                forall|a: int, b: int|
                    #![trigger out@[a]@.id, out@[b]@.id]
                    0 <= a < b < out@.len() ==> out@[a]@.id.0 > out@[b]@.id.0,
                i > 0 && out@.len() > 0 ==> out@[out@.len() - 1]@.id.0 > self.docs@[i as int
                    - 1].id.0,
                limit is None ==> forall|j: int|
                    i <= j < self.docs@.len() && range.includes(
                        (#[trigger] self.docs_model()[j]).id,
                    ) ==> exists|k: int| 0 <= k < out@.len() && out@[k]@ == self.docs_model()[j],
            decreases i,
        {
            let ghost prev = out@;
            i = i - 1;
            if range.contains(self.docs[i].id) {
                let d = self.docs[i].duplicate();
                proof {
                    lemma_find_doc_at(self.docs_model(), self.docs@[i as int]@.id, i as int);
                    assert forall|j2: int|
                        0 <= j2 < i implies self.docs@[j2]@.id != self.docs@[i as int]@.id by {
                        assert(self.docs@[j2].id.0 < self.docs@[i as int].id.0);
                    };
                }
                out.push(d);
                proof {
                    assert(out@[out@.len() - 1]@ == self.docs_model()[i as int]);
                    assert forall|a: int, b: int|
                        #![trigger out@[a]@.id, out@[b]@.id]
                        0 <= a < b < out@.len() implies out@[a]@.id.0 > out@[b]@.id.0 by {
                        if b < out@.len() - 1 {
                            assert(out@[a] == prev[a] && out@[b] == prev[b]);
                        } else {
                            assert(out@[a] == prev[a]);
                            if a < prev.len() - 1 {
                                assert(prev[a]@.id.0 > prev[prev.len() - 1]@.id.0);
                            }
                            assert(prev[prev.len() - 1]@.id.0 > self.docs@[i as int].id.0
                                || prev.len() - 1 == a);
                        }
                    };
                    if limit is None {
                        assert forall|j: int|
                            i <= j < self.docs@.len() && range.includes(
                                (#[trigger] self.docs_model()[j]).id,
                            ) implies exists|k: int|
                            0 <= k < out@.len() && out@[k]@ == self.docs_model()[j] by {
                            if j == i {
                                assert(out@[out@.len() - 1]@ == self.docs_model()[j]);
                            } else {
                                let k = choose|k: int|
                                    0 <= k < prev.len() && (#[trigger] prev[k]@)
                                        == self.docs_model()[j];
                                assert(out@[k]@ == self.docs_model()[j]);
                            }
                        };
                    }
                }
            }
            full = match limit {
                Some(l) => out.len() >= l,
                None => false,
            };
        }
        proof {
            lemma_ordered_by_from_docs(out@, Sort::Descending);
        }
        out
    }

    /// Lists the stored documents whose ids lie in `range`, in the given
    /// order, returning at most `limit` of them if a limit is set; with no
    /// limit, every stored document in the range is returned.
    pub fn list_range(&self, range: Range, order: Sort, limit: Option<usize>) -> (r: Vec<Document>)
        ensures
            forall|k: int|
                0 <= k < r@.len() ==> range.includes((#[trigger] r@[k]@).id) && find_doc(
                    self.docs_model(),
                    r@[k]@.id,
                ) == Some(r@[k]@),
            ordered_by(r@.map_values(|d: Document| d@), order),
            limit matches Some(l) ==> r@.len() <= l,
            limit is None ==> forall|j: int|
                0 <= j < self.docs_model().len() && range.includes(
                    (#[trigger] self.docs_model()[j]).id,
                ) ==> exists|k: int| 0 <= k < r@.len() && r@[k]@ == self.docs_model()[j],
    {
        match order {
            Sort::Ascending => self.collect_ascending(range, limit),
            Sort::Descending => self.collect_descending(range, limit),
        }
    }
}

/// Round trip: a document freshly stored beside `docs` (its id absent
/// there) is found under its id exactly as stored, so reading it back
/// through [`MemoryConnection::fetch`] yields its contents unchanged.
pub proof fn lemma_store_round_trip(docs: Seq<DocumentModel>, d: DocumentModel)
    requires
        forall|j: int| 0 <= j < docs.len() ==> (#[trigger] docs[j]).id != d.id,
    ensures
        find_doc(docs.push(d), d.id) == Some(d),
{
    assert forall|j: int| 0 <= j < docs.len() implies docs.push(d)[j].id != d.id by {
        assert(docs.push(d)[j] == docs[j]);
    };
    lemma_find_doc_at(docs.push(d), d.id, docs.len() as int);
}

impl Connection for MemoryConnection {
    fn get(&self, id: DocumentId) -> (r: Result<Option<Document>, Error>) {
        proof {
            lemma_find_doc_id(self.docs_model(), id);
        }
        Ok(self.fetch(id))
    }

    fn get_multiple(&self, ids: &Vec<DocumentId>) -> (r: Result<Vec<Document>, Error>) {
        Ok(self.fetch_multiple(ids))
    }

    fn list(&self, range: Range, order: Sort, limit: Option<usize>) -> (r: Result<
        Vec<Document>,
        Error,
    >) {
        Ok(self.list_range(range, order, limit))
    }

    fn push(&mut self, contents: &Vec<u8>) -> (r: Result<Header, Error>) {
        self.store_new(contents)
    }

    fn insert(&mut self, id: DocumentId, contents: &Vec<u8>) -> (r: Result<Header, Error>) {
        self.place(id, contents)
    }

    fn overwrite(&mut self, id: DocumentId, contents: &Vec<u8>) -> (r: Result<Header, Error>) {
        let ghost pre = self.docs_model();
        proof {
            use_type_invariant(&*self);
            lemma_find_doc_mem(pre, id);
        }
        let r = self.force_write(id, contents);
        proof {
            if find_doc(pre, id) is Some {
                let j = choose|j: int| 0 <= j < pre.len() && pre[j] == find_doc(pre, id)->Some_0;
                assert(pre[j].revision.sequence <= u64::MAX);
            }
            match find_doc(pre, id) {
                Some(stored) => {
                    if contents@ == stored.revision.fingerprint {
                        assert(r matches Ok(h) ==> h@.id == id && h@.revision.fingerprint
                            == contents@);
                    } else if stored.revision.sequence == u64::MAX {
                        assert(r is Err);
                    } else {
                        assert(r matches Ok(h) ==> h@.id == id && h@.revision.fingerprint
                            == contents@);
                    }
                },
                None => {},
            }
        }
        r
    }

    fn update(&mut self, doc: &Document) -> (r: Result<Header, Error>) {
        let ghost pre = self.docs_model();
        proof {
            use_type_invariant(&*self);
            lemma_find_doc_mem(pre, doc@.id);
        }
        let r = self.conditioned_update(doc);
        proof {
            lemma_find_doc_id(pre, doc@.id);
            if find_doc(pre, doc@.id) is Some {
                let j = choose|j: int| 0 <= j < pre.len() && pre[j] == find_doc(
                    pre,
                    doc@.id,
                )->Some_0;
                assert(pre[j].revision.sequence <= u64::MAX);
            }
            match find_doc(pre, doc@.id) {
                Some(stored) => {
                    if stored.revision == doc@.revision {
                        if doc@.contents == doc@.revision.fingerprint || doc@.revision.sequence
                            < u64::MAX {
                            assert(r matches Ok(h) && h@ == (HeaderModel {
                                id: doc@.id,
                                revision: committed_revision(doc@),
                            }));
                        } else {
                            assert(doc@.revision.sequence == stored.revision.sequence);
                            assert(r is Err);
                        }
                    } else {
                        assert(r matches Err(e) && e matches Error::Conflict { header, .. }
                            && header@.id == doc@.id && header@.revision != doc@.revision);
                    }
                },
                None => {},
            }
        }
        r
    }

    fn query_unique_name(&self, name: &String) -> (r: Result<Option<Document>, Error>) {
        Ok(self.query_name(name))
    }
}

} // verus!
