//! The persistence port: the operations every backend offers, keyed by the
//! collection of an entity kind.
use vstd::prelude::*;
use crate::collection::{
    all_decode, decoded_all, deleted_first, first_match, kept, matching, updated_all,
    updated_first,
};
use crate::document::{DatabaseDocumentTrait, FromDocument};
use crate::error::{DatabaseError, DatabaseResult};
use crate::query::{Filter, Update, id_key, projected};
use crate::transaction::{DatabaseTransactionTrait, TransactionState};
use crate::value::{DocModel, Document, ObjectId, ValueModel, insert_entry, lookup};

verus! {

/// `d` with its identity `id` stored under the identity key.
pub open spec fn with_id(d: DocModel, id: Seq<u8>) -> DocModel {
    insert_entry(d, id_key(), ValueModel::Id(id))
}

/// `d` is `payload` stored under some identity.
pub open spec fn stored_from(d: DocModel, payload: DocModel) -> bool {
    exists|id: Seq<u8>| d == with_id(payload, id)
}

/// No document of `docs` has identity `id`.
pub open spec fn id_unused(docs: Seq<DocModel>, id: Seq<u8>) -> bool {
    forall|i: int|
        0 <= i < docs.len() ==> #[trigger] lookup(docs[i], id_key()) != Some(ValueModel::Id(id))
}

/// The documents of `docs` reduced by `p`.
pub open spec fn projected_all(docs: Seq<DocModel>, p: DocModel) -> Seq<DocModel> {
    docs.map_values(|d: DocModel| projected(d, p))
}

/// Whether `r` is what reading the first match of `f` in `docs`, reduced by
/// `p` when one is given, gives on success.
pub open spec fn found_first<T: FromDocument>(
    docs: Seq<DocModel>,
    f: Seq<(Seq<char>, crate::query::ConditionModel)>,
    p: Option<DocModel>,
    r: Option<T>,
) -> bool {
    let i = first_match(docs, f);
    match r {
        None => i == -1,
        Some(t) => i >= 0 && T::decode(
            match p {
                Some(p) => projected(docs[i], p),
                None => docs[i],
            },
        ) == Some(t@),
    }
}

/// Whether the first match of `f` in `docs`, if any, reads as a `T` once
/// reduced by `p` when one is given.
pub open spec fn first_decodes<T: FromDocument>(
    docs: Seq<DocModel>,
    f: Seq<(Seq<char>, crate::query::ConditionModel)>,
    p: Option<DocModel>,
) -> bool {
    let i = first_match(docs, f);
    i == -1 || T::decode(
        match p {
            Some(p) => projected(docs[i], p),
            None => docs[i],
        },
    ) is Some
}

/// The operations of a document store. Each is keyed by the collection of
/// its entity kind `T`. Mutating operations take an optional transaction
/// that scopes them.
pub trait DatabaseServiceTrait: Sized {
    type Transaction: DatabaseTransactionTrait;

    /// The documents of the named collection, in order.
    spec fn docs(&self, collection: Seq<char>) -> Seq<DocModel>;

    /// The store's internal invariant.
    spec fn wf(&self) -> bool;

    /// Whether the backend lives in process memory, so that no operation fails
    /// but for the reasons its contract names.
    spec fn in_process() -> bool;

    fn connect(&mut self) -> (r: DatabaseResult<()>)
        requires
            old(self).wf(),
        ensures
            final(self).wf(),
            forall|c: Seq<char>| #[trigger] final(self).docs(c) == old(self).docs(c),
            Self::in_process() ==> r is Ok,
    ;

    fn shutdown(&mut self) -> (r: DatabaseResult<()>)
        requires
            old(self).wf(),
        ensures
            final(self).wf(),
            forall|c: Seq<char>| #[trigger] final(self).docs(c) == old(self).docs(c),
            Self::in_process() ==> r is Ok,
    ;

    /// Name of the database the store works on.
    spec fn db_name(&self) -> Seq<char>;

    fn get_db_name(&self) -> (r: String)
        ensures
            r@ == self.db_name(),
    ;

    /// Starts a transaction.
    fn new_transaction(&self) -> (r: DatabaseResult<Self::Transaction>)
        ensures
            r is Ok ==> r->Ok_0.state() == TransactionState::Active,
            Self::in_process() ==> r is Ok,
    ;

    /// Stores `document` with a fresh identity and returns that identity. A
    /// payload that already carries an identity is refused.
    fn insert_one<T: DatabaseDocumentTrait>(
        &mut self,
        document: Document,
        transaction: Option<&Self::Transaction>,
    ) -> (r: DatabaseResult<ObjectId>)
        requires
            old(self).wf(),
            document.wf(),
        ensures
            final(self).wf(),
            lookup(document@, id_key()) is Some ==> r matches Err(
                DatabaseError::DocumentHasAlreadyAnId,
            ),
            r is Ok ==> {
                &&& id_unused(old(self).docs(T::spec_collection_name()), r->Ok_0@)
                &&& final(self).docs(T::spec_collection_name()) == old(self).docs(
                    T::spec_collection_name(),
                ).push(with_id(document@, r->Ok_0@))
            },
            r is Ok ==> forall|c: Seq<char>|
                c != T::spec_collection_name() ==> #[trigger] final(self).docs(c) == old(
                    self,
                ).docs(c),
            r is Err ==> forall|c: Seq<char>| #[trigger] final(self).docs(c) == old(self).docs(c),
            Self::in_process() && lookup(document@, id_key()) is None && r is Err ==> r matches Err(
                DatabaseError::InvalidObjectId,
            ),
    ;

    /// Stores each of `documents` in turn, as `insert_one` does, and returns
    /// their identities. Not atomic: on failure, the documents stored before
    /// the failing one stay, later ones are not stored, and the error is the
    /// failing one's.
    fn insert_many<T: DatabaseDocumentTrait>(
        &mut self,
        documents: Vec<Document>,
        transaction: Option<&Self::Transaction>,
    ) -> (r: DatabaseResult<Vec<ObjectId>>)
        requires
            old(self).wf(),
            forall|i: int| 0 <= i < documents@.len() ==> #[trigger] documents@[i].wf(),
        ensures
            final(self).wf(),
            r is Ok ==> {
                let ids = r->Ok_0@;
                &&& ids.len() == documents@.len()
                &&& final(self).docs(T::spec_collection_name()) == old(self).docs(
                    T::spec_collection_name(),
                ) + Seq::new(
                    ids.len(),
                    |i: int| with_id(documents@[i]@, ids[i]@),
                )
            },
            forall|c: Seq<char>|
                c != T::spec_collection_name() ==> #[trigger] final(self).docs(c) == old(
                    self,
                ).docs(c),
            final(self).docs(T::spec_collection_name()).len() >= old(self).docs(
                T::spec_collection_name(),
            ).len(),
            final(self).docs(T::spec_collection_name()).subrange(
                0,
                old(self).docs(T::spec_collection_name()).len() as int,
            ) == old(self).docs(T::spec_collection_name()),
            r is Err ==> {
                let before = old(self).docs(T::spec_collection_name());
                let after = final(self).docs(T::spec_collection_name());
                let k = after.len() - before.len();
                &&& k < documents@.len()
                &&& forall|j: int|
                    0 <= j < k ==> stored_from(#[trigger] after[before.len() + j], documents@[j]@)
                &&& lookup(documents@[k]@, id_key()) is Some ==> r->Err_0 is DocumentHasAlreadyAnId
                &&& Self::in_process() && lookup(documents@[k]@, id_key()) is None
                    ==> r->Err_0 is InvalidObjectId
            },
    ;

    /// The first document that satisfies `filter`, read as a `T`; `None`
    /// when there is none.
    fn find_one<T: DatabaseDocumentTrait>(&self, filter: &Filter) -> (r: DatabaseResult<Option<T>>)
        requires
            self.wf(),
        ensures
            r is Ok ==> found_first(self.docs(T::spec_collection_name()), filter@, None, r->Ok_0),
            Self::in_process() ==> (r is Ok <==> first_decodes::<T>(
                self.docs(T::spec_collection_name()),
                filter@,
                None,
            )),
            Self::in_process() && r is Err ==> r->Err_0 is DocumentNotValid,
    ;

    /// Every document that satisfies `filter`, read as a `T`, in order.
    fn find_many<T: DatabaseDocumentTrait>(&self, filter: &Filter) -> (r: DatabaseResult<Vec<T>>)
        requires
            self.wf(),
        ensures
            r is Ok ==> decoded_all(matching(self.docs(T::spec_collection_name()), filter@), r->Ok_0@),
            Self::in_process() ==> (r is Ok <==> all_decode::<T>(
                matching(self.docs(T::spec_collection_name()), filter@),
            )),
            Self::in_process() && r is Err ==> r->Err_0 is DocumentNotValid,
    ;

    /// The first document of `T`'s collection that satisfies `filter`,
    /// reduced by `projection` and read as a `P`.
    fn find_one_projection<T: DatabaseDocumentTrait, P: FromDocument>(
        &self,
        filter: &Filter,
        projection: &Document,
    ) -> (r: DatabaseResult<Option<P>>)
        requires
            self.wf(),
        ensures
            r is Ok ==> found_first(
                self.docs(T::spec_collection_name()),
                filter@,
                Some(projection@),
                r->Ok_0,
            ),
            Self::in_process() ==> (r is Ok <==> first_decodes::<P>(
                self.docs(T::spec_collection_name()),
                filter@,
                Some(projection@),
            )),
            Self::in_process() && r is Err ==> r->Err_0 is DocumentNotValid,
    ;

    /// Every document of `T`'s collection that satisfies `filter`, reduced by
    /// `projection` and read as a `P`, in order.
    fn find_many_projection<T: DatabaseDocumentTrait, P: FromDocument>(
        &self,
        filter: &Filter,
        projection: &Document,
    ) -> (r: DatabaseResult<Vec<P>>)
        requires
            self.wf(),
        ensures
            r is Ok ==> decoded_all(
                projected_all(matching(self.docs(T::spec_collection_name()), filter@), projection@),
                r->Ok_0@,
            ),
            Self::in_process() ==> (r is Ok <==> all_decode::<P>(
                projected_all(matching(self.docs(T::spec_collection_name()), filter@), projection@),
            )),
            Self::in_process() && r is Err ==> r->Err_0 is DocumentNotValid,
    ;

    /// Number of documents that satisfy `filter`.
    fn count_documents<T: DatabaseDocumentTrait>(&self, filter: &Filter) -> (r: DatabaseResult<u64>)
        requires
            self.wf(),
        ensures
            r is Ok ==> r->Ok_0 as int == matching(self.docs(T::spec_collection_name()), filter@).len(),
            Self::in_process() ==> r is Ok,
    ;

    /// Merges the update's fields into the first document that satisfies
    /// `filter`; matching nothing changes nothing.
    fn update_one<T: DatabaseDocumentTrait>(
        &mut self,
        filter: &Filter,
        update: &Update,
        transaction: Option<&Self::Transaction>,
    ) -> (r: DatabaseResult<()>)
        requires
            old(self).wf(),
            update.wf(),
        ensures
            final(self).wf(),
            r is Ok ==> final(self).docs(T::spec_collection_name()) == updated_first(
                old(self).docs(T::spec_collection_name()),
                filter@,
                update@,
            ),
            forall|c: Seq<char>|
                c != T::spec_collection_name() ==> #[trigger] final(self).docs(c) == old(
                    self,
                ).docs(c),
            Self::in_process() ==> r is Ok,
    ;

    /// Merges the update's fields into every document that satisfies `filter`.
    fn update_many<T: DatabaseDocumentTrait>(
        &mut self,
        filter: &Filter,
        update: &Update,
        transaction: Option<&Self::Transaction>,
    ) -> (r: DatabaseResult<()>)
        requires
            old(self).wf(),
            update.wf(),
        ensures
            final(self).wf(),
            r is Ok ==> final(self).docs(T::spec_collection_name()) == updated_all(
                old(self).docs(T::spec_collection_name()),
                filter@,
                update@,
            ),
            forall|c: Seq<char>|
                c != T::spec_collection_name() ==> #[trigger] final(self).docs(c) == old(
                    self,
                ).docs(c),
            Self::in_process() ==> r is Ok,
    ;

    /// Removes the first document that satisfies `filter`, if any.
    fn delete_one<T: DatabaseDocumentTrait>(
        &mut self,
        filter: &Filter,
        transaction: Option<&Self::Transaction>,
    ) -> (r: DatabaseResult<()>)
        requires
            old(self).wf(),
        ensures
            final(self).wf(),
            r is Ok ==> final(self).docs(T::spec_collection_name()) == deleted_first(
                old(self).docs(T::spec_collection_name()),
                filter@,
            ),
            forall|c: Seq<char>|
                c != T::spec_collection_name() ==> #[trigger] final(self).docs(c) == old(
                    self,
                ).docs(c),
            Self::in_process() ==> r is Ok,
    ;

    /// Removes every document that satisfies `filter`; the others keep their
    /// order.
    fn delete_many<T: DatabaseDocumentTrait>(
        &mut self,
        filter: &Filter,
        transaction: Option<&Self::Transaction>,
    ) -> (r: DatabaseResult<()>)
        requires
            old(self).wf(),
        ensures
            final(self).wf(),
            r is Ok ==> final(self).docs(T::spec_collection_name()) == kept(
                old(self).docs(T::spec_collection_name()),
                filter@,
            ),
            forall|c: Seq<char>|
                c != T::spec_collection_name() ==> #[trigger] final(self).docs(c) == old(
                    self,
                ).docs(c),
            Self::in_process() ==> r is Ok,
    ;

    /// Runs an aggregation pipeline. The in-memory backend does not support
    /// pipelines and always fails.
    fn aggregate<T: DatabaseDocumentTrait>(&self, pipeline: Vec<Document>) -> (r: DatabaseResult<
        Vec<Document>,
    >)
        ensures
            Self::in_process() ==> r matches Err(DatabaseError::DatabaseOperationError(_)),
    ;
}

} // verus!
