//! The collection capability: the closed interface contract a concrete
//! record type implements to tie itself to a named, typed namespace of
//! documents.  Serialization of the typed contents into the opaque bytes
//! the core stores is a capability of the caller, resolved explicitly at
//! registration rather than inferred.

use vstd::prelude::*;

verus! {

/// Identifies the encryption key a collection is stored under at rest.
#[derive(Clone, PartialEq, Eq, Debug)]
pub enum KeyId {
    /// The master key of the storage.
    Master,
    /// A named key.
    Id(String),
}

/// A namespaced collection of documents, implemented by each concrete
/// record type.
pub trait Collection {
    /// The unique name of this collection.  Each collection must be
    /// uniquely named within the schema it is registered within.
    fn collection_name() -> String;

    /// If a key id is returned, this collection is stored encrypted at
    /// rest using the key specified.
    fn encryption_key() -> (r: Option<KeyId>) {
        None
    }
}

/// A marker for collections whose contents are encoded with the default
/// serialization format named at registration.
pub trait DefaultSerialization: Collection {

}

} // verus!
