//! Documents, headers, and the view-map emission helpers.

use vstd::prelude::*;
use crate::bytes::copy_bytes;
use crate::revision::{Revision, RevisionModel};

verus! {

/// The identity of a document: unique within its collection's key space
/// and immutable across updates.
#[derive(Clone, Copy, PartialEq, Eq, Structural, Debug, Hash)]
pub struct DocumentId(pub u64);

/// The versioned identity of a stored document: its id together with the
/// revision the store currently holds for it.
#[derive(Debug)]
pub struct Header {
    /// The id of the document.
    pub id: DocumentId,
    /// The revision of the stored document.
    pub revision: Revision,
}

/// Mathematical model of a [`Header`].
#[verifier::ext_equal]
pub ghost struct HeaderModel {
    pub id: DocumentId,
    pub revision: RevisionModel,
}

impl View for Header {
    type V = HeaderModel;

    open spec fn view(&self) -> HeaderModel {
        HeaderModel { id: self.id, revision: self.revision@ }
    }
}

impl Header {
    /// Returns a copy of this header.
    pub fn duplicate(&self) -> (r: Header)
        ensures
            r@ == self@,
    {
        let r = Header { id: self.id, revision: self.revision.duplicate() };
        proof {
            assert(r@ =~= self@);
        }
        r
    }
}

/// A record stored in the database: identity, version, and opaque byte
/// contents.  The contents are opaque to this core; encoding and decoding
/// them is a capability of the caller.
#[derive(Debug)]
pub struct Document {
    /// The id of the document, unique across its collection.
    pub id: DocumentId,
    /// The revision of the stored document.
    pub revision: Revision,
    /// The serialized bytes of the stored item.
    pub contents: Vec<u8>,
}

/// Mathematical model of a [`Document`].
#[verifier::ext_equal]
pub ghost struct DocumentModel {
    pub id: DocumentId,
    pub revision: RevisionModel,
    pub contents: Seq<u8>,
}

impl View for Document {
    type V = DocumentModel;

    open spec fn view(&self) -> DocumentModel {
        DocumentModel { id: self.id, revision: self.revision@, contents: self.contents@ }
    }
}

impl DocumentModel {
    /// The versioned identity of this document.
    pub open spec fn header(self) -> HeaderModel {
        HeaderModel { id: self.id, revision: self.revision }
    }
}

impl Document {
    /// Creates a new document with the given id and serialized `contents`,
    /// at the first revision of its chain.
    pub fn new(id: DocumentId, contents: Vec<u8>) -> (r: Document)
        ensures
            r@ == (DocumentModel {
                id,
                revision: RevisionModel { sequence: 0, fingerprint: contents@ },
                contents: contents@,
            }),
    {
        let revision = Revision::initial(&contents);
        let r = Document { id, revision, contents };
        proof {
            assert(r@ =~= (DocumentModel {
                id,
                revision: RevisionModel { sequence: 0, fingerprint: r.contents@ },
                contents: r.contents@,
            }));
        }
        r
    }

    /// Returns a copy of the serialized bytes of the stored item.
    pub fn contents(&self) -> (r: Vec<u8>)
        ensures
            r@ == self@.contents,
    {
        copy_bytes(&self.contents)
    }

    /// Returns the versioned identity of this document.
    pub fn header(&self) -> (r: Header)
        ensures
            r@ == self@.header(),
    {
        let r = Header { id: self.id, revision: self.revision.duplicate() };
        proof {
            assert(r@ =~= self@.header());
        }
        r
    }

    /// Returns a copy of this document.
    pub fn duplicate(&self) -> (r: Document)
        ensures
            r@ == self@,
    {
        let r = Document {
            id: self.id,
            revision: self.revision.duplicate(),
            contents: copy_bytes(&self.contents),
        };
        proof {
            assert(r@ =~= self@);
        }
        r
    }

    /// Yields this document with `contents` and the candidate successor
    /// revision, or `None` if `contents` is byte-identical to what the
    /// current revision represents (a no-op write, which is elided).
    pub fn update_with(&self, contents: &Vec<u8>) -> (r: Option<Document>)
        requires
            self@.revision.sequence < u64::MAX,
        ensures
            r is None <==> contents@ == self@.revision.fingerprint,
            r matches Some(d) ==> d@ == (DocumentModel {
                id: self@.id,
                revision: RevisionModel {
                    sequence: self@.revision.sequence + 1,
                    fingerprint: contents@,
                },
                contents: contents@,
            }),
    {
        match self.revision.next(contents) {
            None => None,
            Some(revision) => {
                let d = Document { id: self.id, revision, contents: copy_bytes(contents) };
                proof {
                    assert(d@ =~= (DocumentModel {
                        id: self@.id,
                        revision: RevisionModel {
                            sequence: self@.revision.sequence + 1,
                            fingerprint: contents@,
                        },
                        contents: contents@,
                    }));
                }
                Some(d)
            }
        }
    }

    /// Creates a map record with an empty key and value.
    ///
    /// Equal to `emit_key_and_value((), ())`.
    pub fn emit(&self) -> (r: MapRecord<(), ()>)
        ensures
            r == (MapRecord { source: self.id, key: (), value: () }),
    {
        self.emit_key_and_value((), ())
    }

    /// Creates a map record with `key` and an empty value.
    pub fn emit_key<K>(&self, key: K) -> (r: MapRecord<K, ()>)
        ensures
            r == (MapRecord { source: self.id, key, value: () }),
    {
        self.emit_key_and_value(key, ())
    }

    /// Creates a map record with `value` and an empty key.
    pub fn emit_value<V>(&self, value: V) -> (r: MapRecord<(), V>)
        ensures
            r == (MapRecord { source: self.id, key: (), value }),
    {
        self.emit_key_and_value((), value)
    }

    /// Creates a map record with `key` and `value`, sourced from this
    /// document.
    pub fn emit_key_and_value<K, V>(&self, key: K, value: V) -> (r: MapRecord<K, V>)
        ensures
            r == (MapRecord { source: self.id, key, value }),
    {
        MapRecord { source: self.id, key, value }
    }
}

/// One index entry contributed by a view's map phase for one document.
/// The reduce phase aggregates records sharing a key, and supports
/// re-reduction over already-aggregated partial results.
#[derive(PartialEq, Eq, Debug)]
pub struct MapRecord<K, V> {
    /// The id of the document that produced this record.
    pub source: DocumentId,
    /// The key emitted for this record.
    pub key: K,
    /// The value emitted for this record.
    pub value: V,
}

} // verus!
