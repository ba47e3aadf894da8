//! Revision tokens for optimistic concurrency control.

use vstd::prelude::*;
use crate::bytes::{bytes_equal, copy_bytes};

verus! {

/// Mathematical model of a revision token: its position in the revision
/// chain, and the exact fingerprint of the contents it was minted for.
#[verifier::ext_equal]
pub ghost struct RevisionModel {
    pub sequence: nat,
    pub fingerprint: Seq<u8>,
}

/// An opaque version token derived from the contents of a document:
/// a content fingerprint plus lineage.  The token itself performs no
/// conflict detection; the write path submits the revision the caller
/// believes is current, and the storage side rejects the write if that
/// revision no longer matches the stored one.
///
/// The fingerprint is exact: two revisions carry the same fingerprint
/// if and only if they were minted for the same byte contents, so a
/// token is never reused across two different content bodies.
#[derive(Debug)]
pub struct Revision {
    sequence: u64,
    fingerprint: Vec<u8>,
}

impl View for Revision {
    type V = RevisionModel;

    closed spec fn view(&self) -> RevisionModel {
        RevisionModel { sequence: self.sequence as nat, fingerprint: self.fingerprint@ }
    }
}

impl Revision {
    /// Creates the first token of a revision chain, for a document whose
    /// contents are `contents`.
    pub fn initial(contents: &Vec<u8>) -> (r: Revision)
        ensures
            r@.sequence == 0,
            r@.fingerprint == contents@,
    {
        Revision { sequence: 0, fingerprint: copy_bytes(contents) }
    }

    /// Yields the candidate successor token for `new_contents`, or `None`
    /// if `new_contents` is byte-identical to what this revision already
    /// represents (a no-op write, which callers elide).
    pub fn next(&self, new_contents: &Vec<u8>) -> (r: Option<Revision>)
        requires
            self@.sequence < u64::MAX,
        ensures
            r is None <==> new_contents@ == self@.fingerprint,
            r matches Some(rev) ==> rev@ == (RevisionModel {
                sequence: self@.sequence + 1,
                fingerprint: new_contents@,
            }),
    {
        if bytes_equal(&self.fingerprint, new_contents) {
            None
        } else {
            Some(Revision { sequence: self.sequence + 1, fingerprint: copy_bytes(new_contents) })
        }
    }

    /// The position of this token in its revision chain.
    pub fn sequence(&self) -> (r: u64)
        ensures
            r == self@.sequence,
    {
        self.sequence
    }

    /// Returns whether `contents` is byte-identical to the contents this
    /// token was minted for.
    pub fn represents(&self, contents: &Vec<u8>) -> (r: bool)
        ensures
            r == (contents@ == self@.fingerprint),
    {
        bytes_equal(contents, &self.fingerprint)
    }

    /// Returns a copy of this token representing the same revision.
    pub fn duplicate(&self) -> (r: Revision)
        ensures
            r@ == self@,
    {
        Revision { sequence: self.sequence, fingerprint: copy_bytes(&self.fingerprint) }
    }

    /// Returns whether two tokens denote the same revision: same position
    /// in the chain and same content fingerprint.
    pub fn matches(&self, other: &Revision) -> (r: bool)
        ensures
            r == (self@ == other@),
    {
        if self.sequence == other.sequence && bytes_equal(&self.fingerprint, &other.fingerprint) {
            proof {
                assert(self@ =~= other@);
            }
            true
        } else {
            false
        }
    }
}

} // verus!
