//! A reference to a document that holds either its identity or the document
//! itself, and loads the document at most once.
use vstd::prelude::*;
use crate::collection::first_match;
use crate::database::{DatabaseServiceTrait, found_first};
use crate::document::DatabaseDocumentTrait;
use crate::error::{DatabaseError, DatabaseResult};
use crate::query::{ConditionModel, Filter, FilterModel, id_key};
use crate::value::{DocModel, ObjectId, ValueModel};

verus! {

/// The filter that selects the document with identity `id`.
pub open spec fn id_filter(id: Seq<u8>) -> FilterModel {
    seq![(id_key(), ConditionModel::Equal(ValueModel::Id(id)))]
}

/// Whether a lookup of `id` among `docs` finds a document that reads as a `T`.
pub open spec fn resolvable<T: DatabaseDocumentTrait>(docs: Seq<DocModel>, id: Seq<u8>) -> bool {
    let i = first_match(docs, id_filter(id));
    i >= 0 && T::decode(docs[i]) is Some
}

/// Either the identity of a document not loaded yet, or the loaded document.
/// Once loaded, the document is kept: later reads do not consult the store,
/// even if it has changed since.
pub enum SmartDocumentReference<T: DatabaseDocumentTrait> {
    Id(ObjectId),
    Document(T),
}

impl<T: DatabaseDocumentTrait> SmartDocumentReference<T> {
    /// The identity of the document, without consulting the store.
    pub fn as_ref_id(&self) -> (r: &ObjectId)
        ensures
            r@ == match self {
                SmartDocumentReference::Id(id) => id@,
                SmartDocumentReference::Document(d) => d.spec_id(),
            },
    {
        match self {
            SmartDocumentReference::Id(id) => id,
            SmartDocumentReference::Document(d) => d.get_id(),
        }
    }

    /// Whether the document has been loaded.
    pub fn is_resolved(&self) -> (r: bool)
        ensures
            r == (self is Document),
    {
        match self {
            SmartDocumentReference::Id(_) => false,
            SmartDocumentReference::Document(_) => true,
        }
    }

    /// Looks up the document with identity `id`; a miss is `DocumentDoesNotExist`.
    fn load<S: DatabaseServiceTrait>(database_service: &S, id: ObjectId) -> (r: DatabaseResult<T>)
        requires
            database_service.wf(),
        ensures
            ({
                let docs = database_service.docs(T::spec_collection_name());
                &&& r is Ok ==> found_first(docs, id_filter(id@), None, Some(r->Ok_0))
                &&& S::in_process() ==> (r is Ok <==> resolvable::<T>(docs, id@))
                &&& S::in_process() && first_match(docs, id_filter(id@)) == -1 ==> r == Err::<
                    T,
                    DatabaseError,
                >(DatabaseError::DocumentDoesNotExist(id))
                &&& S::in_process() && first_match(docs, id_filter(id@)) >= 0 && r is Err
                    ==> r->Err_0 is DocumentNotValid
            }),
    {
        let filter = Filter::by_id(id);
        let found = database_service.find_one::<T>(&filter);
        proof {
            assert(filter@ =~= id_filter(id@));
        }
        Self::found_or_missing(found, id)
    }

    /// The outcome of a lookup of `id`: the document found, a miss as
    /// `DocumentDoesNotExist(id)`, a failed lookup's error unchanged.
    pub fn found_or_missing(found: DatabaseResult<Option<T>>, id: ObjectId) -> (r: DatabaseResult<T>)
        ensures
            match found {
                Ok(Some(t)) => r == Ok::<T, DatabaseError>(t),
                Ok(None) => r == Err::<T, DatabaseError>(DatabaseError::DocumentDoesNotExist(id)),
                Err(e) => r == Err::<T, DatabaseError>(e),
            },
    {
        match found {
            Ok(Some(t)) => Ok(t),
            Ok(None) => Err(DatabaseError::DocumentDoesNotExist(id)),
            Err(e) => Err(e),
        }
    }

    /// The document, loaded from the store on the first call only.
    pub fn as_document_ref<S: DatabaseServiceTrait>(&mut self, database_service: &S) -> (r:
        DatabaseResult<&T>)
        requires
            database_service.wf(),
        ensures
            match *old(self) {
                SmartDocumentReference::Document(d) => r == Ok::<&T, DatabaseError>(&d)
                    && *final(self) == *old(self),
                SmartDocumentReference::Id(id) => {
                    let docs = database_service.docs(T::spec_collection_name());
                    &&& r is Ok ==> *final(self) == SmartDocumentReference::Document(*r->Ok_0)
                        && found_first(docs, id_filter(id@), None, Some(*r->Ok_0))
                    &&& r is Err ==> *final(self) == *old(self)
                    &&& S::in_process() ==> (r is Ok <==> resolvable::<T>(docs, id@))
                    &&& S::in_process() && first_match(docs, id_filter(id@)) == -1 ==> r is Err
                        && r->Err_0 == DatabaseError::DocumentDoesNotExist(id)
                    &&& S::in_process() && first_match(docs, id_filter(id@)) >= 0 && r is Err
                        ==> r->Err_0 is DocumentNotValid
                },
            },
    {
        match self {
            SmartDocumentReference::Document(d) => Ok(d),
            SmartDocumentReference::Id(id) => {
                let t = Self::load(database_service, *id)?;
                *self = SmartDocumentReference::Document(t);
                match self {
                    SmartDocumentReference::Document(d) => Ok(d),
                    SmartDocumentReference::Id(_) => Err(
                        DatabaseError::DatabaseOperationError("reference not resolved".to_owned()),
                    ),
                }
            },
        }
    }

    /// The document, for change in place, loaded from the store on the first
    /// call only. The reference keeps what the caller writes through it.
    pub fn as_document_ref_mut<S: DatabaseServiceTrait>(&mut self, database_service: &S) -> (r:
        DatabaseResult<&mut T>)
        requires
            database_service.wf(),
        ensures
            r is Ok ==> *final(self) == SmartDocumentReference::Document(*final(r->Ok_0)),
            r is Err ==> *final(self) == *old(self),
            match *old(self) {
                SmartDocumentReference::Document(d) => r is Ok && *r->Ok_0 == d,
                SmartDocumentReference::Id(id) => {
                    let docs = database_service.docs(T::spec_collection_name());
                    &&& r is Ok ==> found_first(docs, id_filter(id@), None, Some(*r->Ok_0))
                    &&& S::in_process() ==> (r is Ok <==> resolvable::<T>(docs, id@))
                    &&& S::in_process() && first_match(docs, id_filter(id@)) == -1 ==> r is Err
                        && r->Err_0 == DatabaseError::DocumentDoesNotExist(id)
                    &&& S::in_process() && first_match(docs, id_filter(id@)) >= 0 && r is Err
                        ==> r->Err_0 is DocumentNotValid
                },
            },
    {
        match self {
            SmartDocumentReference::Document(d) => Ok(d),
            SmartDocumentReference::Id(id) => {
                let t = Self::load(database_service, *id)?;
                *self = SmartDocumentReference::Document(t);
                match self {
                    SmartDocumentReference::Document(d) => Ok(d),
                    SmartDocumentReference::Id(_) => Err(
                        DatabaseError::DatabaseOperationError("reference not resolved".to_owned()),
                    ),
                }
            },
        }
    }

    /// Consumes the reference and returns the document, loading it if needed.
    pub fn to_document<S: DatabaseServiceTrait>(self, database_service: &S) -> (r: DatabaseResult<T>)
        requires
            database_service.wf(),
        ensures
            match self {
                SmartDocumentReference::Document(d) => r == Ok::<T, DatabaseError>(d),
                SmartDocumentReference::Id(id) => {
                    let docs = database_service.docs(T::spec_collection_name());
                    &&& r is Ok ==> found_first(docs, id_filter(id@), None, Some(r->Ok_0))
                    &&& S::in_process() ==> (r is Ok <==> resolvable::<T>(docs, id@))
                    &&& S::in_process() && first_match(docs, id_filter(id@)) == -1 ==> r == Err::<
                        T,
                        DatabaseError,
                    >(DatabaseError::DocumentDoesNotExist(id))
                    &&& S::in_process() && first_match(docs, id_filter(id@)) >= 0 && r is Err
                        ==> r->Err_0 is DocumentNotValid
                },
            },
    {
        match self {
            SmartDocumentReference::Document(d) => Ok(d),
            SmartDocumentReference::Id(id) => Self::load(database_service, id),
        }
    }
}

} // verus!
