//! The connection capability: the narrow interface through which the core
//! reaches the storage side.
//!
//! The store is shared with other writers, possibly in other processes, so
//! these contracts promise only what holds of every reply: ordering is
//! arbitrated solely by the store's revision compare-and-swap, and callers
//! interpret each outcome through verified logic.

use vstd::prelude::*;
use crate::document::{Document, DocumentId};
use crate::document::Header;
use crate::error::{Error, InsertError};
use crate::revision::RevisionModel;

verus! {

/// An inclusive range of document ids.
#[derive(Clone, Copy, PartialEq, Eq, Structural, Debug)]
pub struct Range {
    /// The smallest id included, or no lower bound.
    pub start: Option<DocumentId>,
    /// The largest id included, or no upper bound.
    pub end: Option<DocumentId>,
}

impl Range {
    /// An unbounded range covering every id.
    pub fn all() -> (r: Range)
        ensures
            r.start is None,
            r.end is None,
    {
        Range { start: None, end: None }
    }

    /// Whether `id` lies within this range.
    pub open spec fn includes(self, id: DocumentId) -> bool {
        &&& (self.start matches Some(s) ==> s.0 <= id.0)
        &&& (self.end matches Some(e) ==> id.0 <= e.0)
    }

    /// Whether `id` lies within this range.
    pub fn contains(&self, id: DocumentId) -> (r: bool)
        ensures
            r == self.includes(id),
    {
        let lower_ok = match self.start {
            Some(s) => s.0 <= id.0,
            None => true,
        };
        let upper_ok = match self.end {
            Some(e) => id.0 <= e.0,
            None => true,
        };
        lower_ok && upper_ok
    }
}

/// The order in which listed documents are returned.
#[derive(Clone, Copy, PartialEq, Eq, Structural, Debug)]
pub enum Sort {
    /// Ids in ascending order.
    Ascending,
    /// Ids in descending order.
    Descending,
}

/// Whether `docs` is strictly ordered by id in the given order.
pub open spec fn ordered_by(docs: Seq<crate::document::DocumentModel>, order: Sort) -> bool {
    forall|i: int, j: int|
        0 <= i < j < docs.len() ==> match order {
            Sort::Ascending => docs[i].id.0 < docs[j].id.0,
            Sort::Descending => docs[i].id.0 > docs[j].id.0,
        }
}

/// The candidate successor revision a committed conditioned write of `d`
/// leaves in the store: unchanged for a no-op write of byte-identical
/// contents, the next token of the chain otherwise.
pub open spec fn committed_revision(d: crate::document::DocumentModel) -> RevisionModel {
    if d.contents == d.revision.fingerprint {
        d.revision
    } else {
        RevisionModel { sequence: d.revision.sequence + 1, fingerprint: d.contents }
    }
}

/// The connection capability the core consumes.  The storage engine behind
/// it performs the revision compare-and-swap; the core never performs that
/// comparison itself — it submits the revision the caller believes is
/// current and interprets the result.
pub trait Connection {
    /// Fetches the document with `id`, if one exists.
    fn get(&self, id: DocumentId) -> (r: Result<Option<Document>, Error>)
        ensures
            r matches Ok(Some(d)) ==> d@.id == id,
    ;

    /// Fetches the documents among `ids` that exist.  Absent documents are
    /// not returned, and produce no error.
    fn get_multiple(&self, ids: &Vec<DocumentId>) -> (r: Result<Vec<Document>, Error>)
        ensures
            r matches Ok(docs) ==> forall|i: int|
                0 <= i < docs@.len() ==> ids@.contains(#[trigger] docs@[i]@.id),
    ;

    /// Lists the documents whose ids lie in `range`, in the given order,
    /// returning at most `limit` of them if a limit is set.
    fn list(&self, range: Range, order: Sort, limit: Option<usize>) -> (r: Result<
        Vec<Document>,
        Error,
    >)
        ensures
            r matches Ok(docs) ==> {
                &&& forall|i: int| 0 <= i < docs@.len() ==> range.includes(#[trigger] docs@[i]@.id)
                &&& ordered_by(docs@.map_values(|d: Document| d@), order)
                &&& (limit matches Some(l) ==> docs@.len() <= l)
            },
    ;

    /// Stores `contents` as a new document under a fresh id, returning its
    /// header.  The first revision of the chain fingerprints the contents.
    fn push(&mut self, contents: &Vec<u8>) -> (r: Result<Header, Error>)
        ensures
            r matches Ok(h) ==> h@.revision == (RevisionModel {
                sequence: 0,
                fingerprint: contents@,
            }),
    ;

    /// Stores `contents` as a new document under `id`, returning its
    /// header.
    fn insert(&mut self, id: DocumentId, contents: &Vec<u8>) -> (r: Result<Header, Error>)
        ensures
            r matches Ok(h) ==> h@ == (crate::document::HeaderModel {
                id,
                revision: RevisionModel { sequence: 0, fingerprint: contents@ },
            }),
    ;

    /// Stores `contents` under `id` whether or not a document exists
    /// there, bypassing conflict detection, and returns the new header.
    fn overwrite(&mut self, id: DocumentId, contents: &Vec<u8>) -> (r: Result<Header, Error>)
        ensures
            r matches Ok(h) ==> h@.id == id && h@.revision.fingerprint == contents@,
    ;

    /// Submits a conditioned write: `doc` carries the revision the caller
    /// believes is current alongside its new contents.  The store commits
    /// the write only if the stored revision still matches, and otherwise
    /// rejects it with `Conflict` carrying the header it actually holds —
    /// which then differs in revision from the one presented.
    fn update(&mut self, doc: &Document) -> (r: Result<Header, Error>)
        ensures
            r matches Ok(h) ==> h@ == (crate::document::HeaderModel {
                id: doc@.id,
                revision: committed_revision(doc@),
            }),
            r matches Err(e) ==> (e matches Error::Conflict { header, .. } ==> header@.id
                == doc@.id && header@.revision != doc@.revision),
    ;

    /// Queries the collection's unique-name view for `name` and returns
    /// the first matching document, if any.  Uniqueness of the name is an
    /// obligation of the schema defining that view, not of this query.
    fn query_unique_name(&self, name: &String) -> (r: Result<Option<Document>, Error>)
    ;
}

/// Pushes `contents` into the collection as a new document, handing the
/// contents back alongside the error when the store refuses the write.
pub fn push<C: Connection>(contents: Vec<u8>, connection: &mut C) -> (r: Result<
    Document,
    InsertError<Vec<u8>>,
>)
    ensures
        r matches Ok(d) ==> d@.revision == (RevisionModel {
            sequence: 0,
            fingerprint: contents@,
        }) && d@.contents == contents@,
        r matches Err(ie) ==> ie.contents@ == contents@,
{
    match connection.push(&contents) {
        Ok(header) => {
            let Header { id, revision } = header;
            Ok(Document { id, revision, contents })
        },
        Err(error) => Err(InsertError { contents, error }),
    }
}

/// Inserts `contents` into the collection under the caller-chosen `id`,
/// handing the contents back alongside the error when the store refuses
/// the write.
pub fn insert<C: Connection>(id: DocumentId, contents: Vec<u8>, connection: &mut C) -> (r: Result<
    Document,
    InsertError<Vec<u8>>,
>)
    ensures
        r matches Ok(d) ==> d@ == (crate::document::DocumentModel {
            id,
            revision: RevisionModel { sequence: 0, fingerprint: contents@ },
            contents: contents@,
        }),
        r matches Err(ie) ==> ie.contents@ == contents@,
{
    match connection.insert(id, &contents) {
        Ok(header) => {
            let Header { id: placed, revision } = header;
            Ok(Document { id: placed, revision, contents })
        },
        Err(error) => Err(InsertError { contents, error }),
    }
}

/// Overwrites the document under `id` with `contents`, bypassing conflict
/// detection, handing the contents back alongside the error when the
/// store refuses the write.
pub fn overwrite<C: Connection>(
    id: DocumentId,
    contents: Vec<u8>,
    connection: &mut C,
) -> (r: Result<Document, InsertError<Vec<u8>>>)
    ensures
        r matches Ok(d) ==> d@.id == id && d@.revision.fingerprint == contents@ && d@.contents
            == contents@,
        r matches Err(ie) ==> ie.contents@ == contents@,
{
    match connection.overwrite(id, &contents) {
        Ok(header) => {
            let Header { id: placed, revision } = header;
            Ok(Document { id: placed, revision, contents })
        },
        Err(error) => Err(InsertError { contents, error }),
    }
}

/// Configures a listing of documents by id range and executes it when
/// asked.  Ascending order and no limit are the defaults.
#[must_use]
pub struct List {
    range: Range,
    order: Sort,
    limit: Option<usize>,
}

impl List {
    /// The id range this listing covers.
    pub closed spec fn spec_range(&self) -> Range {
        self.range
    }

    /// The order this listing returns documents in.
    pub closed spec fn spec_order(&self) -> Sort {
        self.order
    }

    /// The maximum number of documents this listing returns, if limited.
    pub closed spec fn spec_limit(&self) -> Option<usize> {
        self.limit
    }

    /// Configures a listing of the documents whose ids lie in `range`.
    pub fn new(range: Range) -> (r: List)
        ensures
            r.spec_range() == range,
            r.spec_order() == Sort::Ascending,
            r.spec_limit() is None,
    {
        List { range, order: Sort::Ascending, limit: None }
    }

    /// Lists documents by id in ascending order.
    pub fn ascending(self) -> (r: Self)
        ensures
            r.spec_range() == self.spec_range(),
            r.spec_order() == Sort::Ascending,
            r.spec_limit() == self.spec_limit(),
    {
        List { order: Sort::Ascending, range: self.range, limit: self.limit }
    }

    /// Lists documents by id in descending order.
    pub fn descending(self) -> (r: Self)
        ensures
            r.spec_range() == self.spec_range(),
            r.spec_order() == Sort::Descending,
            r.spec_limit() == self.spec_limit(),
    {
        List { order: Sort::Descending, range: self.range, limit: self.limit }
    }

    /// Sets the maximum number of results to return.
    pub fn limit(self, maximum_results: usize) -> (r: Self)
        ensures
            r.spec_range() == self.spec_range(),
            r.spec_order() == self.spec_order(),
            r.spec_limit() == Some(maximum_results),
    {
        List { limit: Some(maximum_results), range: self.range, order: self.order }
    }

    /// Executes the listing over `connection`.
    pub fn query<C: Connection>(self, connection: &C) -> (r: Result<Vec<Document>, Error>)
        ensures
            r matches Ok(docs) ==> {
                &&& forall|i: int|
                    0 <= i < docs@.len() ==> self.spec_range().includes(#[trigger] docs@[i]@.id)
                &&& ordered_by(docs@.map_values(|d: Document| d@), self.spec_order())
                &&& (self.spec_limit() matches Some(l) ==> docs@.len() <= l)
            },
    {
        connection.list(self.range, self.order, self.limit)
    }
}

} // verus!
