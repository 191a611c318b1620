//! What an entity kind supplies to be stored: a collection name, an
//! identity accessor, and its reading from a structural document.
use vstd::prelude::*;
use crate::error::DatabaseError;
use crate::value::{DocModel, Document, ObjectId};

verus! {

/// A shape that can be read from a structural document.
pub trait FromDocument: Sized + View {
    /// The model of the value that `d` reads as, or `None` when it does not
    /// fit the shape.
    spec fn decode(d: DocModel) -> Option<Self::V>;

    /// Reads `d`; fails with `DocumentNotValid` exactly when it does not fit.
    fn from_document(d: &Document) -> (r: Result<Self, DatabaseError>)
        ensures
            match r {
                Ok(v) => Self::decode(d@) == Some(v@),
                Err(e) => Self::decode(d@) is None && e is DocumentNotValid,
            },
    ;
}

/// An entity kind kept in a collection of its own.
pub trait DatabaseDocumentTrait: FromDocument {
    /// Name of the collection that holds this kind.
    spec fn spec_collection_name() -> Seq<char>;

    /// Identity of the entity.
    spec fn spec_id(&self) -> Seq<u8>;

    fn collection_name() -> (r: &'static str)
        ensures
            r@ == Self::spec_collection_name(),
    ;

    fn get_id(&self) -> (r: &ObjectId)
        ensures
            r@ == self.spec_id(),
    ;
}

/// The entity kinds that the store's operations accept.
pub trait DecoratedDatabaseDocumentTrait: DatabaseDocumentTrait {

}

} // verus!
