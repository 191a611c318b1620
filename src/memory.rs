//! The in-memory backend: named collections of documents held in process
//! memory, queried and updated by the engine's rules.
use vstd::prelude::*;
use crate::collection::{
    all_wf, collect_in, count_in, delete_all_in, delete_first_in,
    deleted_first, docs_view, first_match, kept, lemma_first_match_from, matching, position_in,
    update_all_in, update_first_in, updated_all, updated_first,
};
use crate::database::{
    DatabaseServiceTrait, id_unused, projected_all, stored_from, with_id,
};
use crate::document::{DatabaseDocumentTrait, FromDocument};
use crate::engine::apply_projection;
use crate::error::{DatabaseError, DatabaseResult};
use crate::query::{Filter, FilterModel, Update, carries_identity, id_key, id_key_string};
use crate::transaction::MemoryDatabaseTransaction;
use crate::value::{
    DocModel, Document, ObjectId, Value, ValueModel, keys_unique, lemma_insert_entry, lookup,
};

verus! {

/// Model of the store: each collection's name and documents.
pub type StoreModel = Seq<(Seq<char>, Seq<DocModel>)>;

/// Position of the first collection named `name` at or after `i`, or -1.
pub open spec fn coll_from(s: StoreModel, name: Seq<char>, i: int) -> int
    decreases s.len() - i,
{
    if i < 0 || i >= s.len() {
        -1
    } else if s[i].0 == name {
        i
    } else {
        coll_from(s, name, i + 1)
    }
}

/// Position of the collection named `name`, or -1.
pub open spec fn coll_pos(s: StoreModel, name: Seq<char>) -> int {
    coll_from(s, name, 0)
}

/// The documents of the collection named `name`; none when it does not exist.
pub open spec fn docs_of(s: StoreModel, name: Seq<char>) -> Seq<DocModel> {
    if coll_pos(s, name) >= 0 {
        s[coll_pos(s, name)].1
    } else {
        Seq::empty()
    }
}

/// No two collections share a name.
pub open spec fn names_unique(s: StoreModel) -> bool {
    forall|i: int, j: int| 0 <= i < j < s.len() ==> s[i].0 != s[j].0
}

proof fn lemma_coll_from(s: StoreModel, name: Seq<char>, i: int)
    requires
        0 <= i <= s.len(),
    ensures
        coll_from(s, name, i) == -1 || (i <= coll_from(s, name, i) < s.len() && s[coll_from(
            s,
            name,
            i,
        )].0 == name),
        forall|j: int|
            i <= j < s.len() && (coll_from(s, name, i) == -1 || j < coll_from(s, name, i))
                ==> s[j].0 != name,
    decreases s.len() - i,
{
    if i < s.len() && s[i].0 != name {
        lemma_coll_from(s, name, i + 1);
    }
}

proof fn lemma_coll_pos(s: StoreModel, name: Seq<char>)
    ensures
        coll_pos(s, name) == -1 || (0 <= coll_pos(s, name) < s.len() && s[coll_pos(s, name)].0
            == name),
        coll_pos(s, name) == -1 ==> forall|j: int| 0 <= j < s.len() ==> s[j].0 != name,
        names_unique(s) ==> forall|j: int|
            0 <= j < s.len() && s[j].0 == name ==> coll_pos(s, name) == j,
{
    lemma_coll_from(s, name, 0);
}

/// Replacing the documents of one collection changes what that collection
/// holds and nothing else.
proof fn lemma_docs_after_set(s: StoreModel, p: int, nd: Seq<DocModel>)
    requires
        0 <= p < s.len(),
        names_unique(s),
    ensures
        names_unique(s.update(p, (s[p].0, nd))),
        forall|c: Seq<char>|
            #![trigger docs_of(s.update(p, (s[p].0, nd)), c)]
            docs_of(s.update(p, (s[p].0, nd)), c) == if c == s[p].0 {
                nd
            } else {
                docs_of(s, c)
            },
{
    let t = s.update(p, (s[p].0, nd));
    assert forall|c: Seq<char>| #[trigger]
        docs_of(t, c) == (if c == s[p].0 {
            nd
        } else {
            docs_of(s, c)
        }) by {
        lemma_coll_pos(s, c);
        lemma_coll_pos(t, c);
        if c == s[p].0 {
            assert(t[p].0 == c);
        } else if coll_pos(s, c) >= 0 {
            assert(t[coll_pos(s, c)].0 == c);
        } else if coll_pos(t, c) >= 0 {
            assert(s[coll_pos(t, c)].0 == c);
        }
    }
}

/// Adding an empty collection under a new name changes no collection's
/// documents.
proof fn lemma_docs_after_push(s: StoreModel, name: Seq<char>)
    requires
        names_unique(s),
        coll_pos(s, name) == -1,
    ensures
        names_unique(s.push((name, Seq::empty()))),
        coll_pos(s.push((name, Seq::empty())), name) == s.len(),
        forall|c: Seq<char>| #[trigger]
            docs_of(s.push((name, Seq::empty())), c) == docs_of(s, c),
{
    let t = s.push((name, Seq::<DocModel>::empty()));
    lemma_coll_pos(s, name);
    assert(names_unique(t));
    lemma_coll_pos(t, name);
    assert(t[s.len() as int].0 == name);
    assert forall|c: Seq<char>| #[trigger] docs_of(t, c) == docs_of(s, c) by {
        lemma_coll_pos(s, c);
        lemma_coll_pos(t, c);
        if coll_pos(s, c) >= 0 {
            assert(t[coll_pos(s, c)].0 == c);
        } else if coll_pos(t, c) >= 0 && coll_pos(t, c) < s.len() {
            assert(s[coll_pos(t, c)].0 == c);
        }
    }
}

/// Relies on bson::oid::ObjectId::new: a new object id made of the clock, a
/// per-process random value and a counter. Nothing is promised of its bytes;
/// the store checks that the id is not in use.
#[verifier::external_body]
fn fresh_object_id() -> (r: ObjectId) {
    ObjectId { bytes: bson::oid::ObjectId::new().bytes() }
}

/// Whether some document of `docs` has identity `id`.
fn id_in_use(docs: &Vec<Document>, id: &ObjectId) -> (r: bool)
    ensures
        r == !id_unused(docs_view(docs@), id@),
{
    let key = id_key_string();
    let probe = Value::Id(ObjectId::from_bytes(id.bytes));
    let ghost v = docs_view(docs@);
    let mut i: usize = 0;
    while i < docs.len()
        invariant
            0 <= i <= docs@.len(),
            v == docs_view(docs@),
            key@ == id_key(),
            probe@ == ValueModel::Id(id@),
            forall|j: int|
                0 <= j < i ==> #[trigger] lookup(v[j], id_key()) != Some(ValueModel::Id(id@)),
        decreases docs@.len() - i,
    {
        assert(v[i as int] == docs@[i as int]@);
        match docs[i].get(&key) {
            Some(found) => {
                if found.equals(&probe) {
                    return true;
                }
            },
            None => {},
        }
        i = i + 1;
    }
    false
}

/// A change applied to the documents of one collection.
#[derive(Clone, Copy, Debug, PartialEq, Eq, Structural)]
pub enum MutationKind {
    UpdateFirst,
    UpdateAll,
    DeleteFirst,
    DeleteAll,
}

/// The documents after the change `kind`, with `s` the fields an update sets.
pub open spec fn mutated(
    docs: Seq<DocModel>,
    f: FilterModel,
    kind: MutationKind,
    s: DocModel,
) -> Seq<DocModel> {
    match kind {
        MutationKind::UpdateFirst => updated_first(docs, f, s),
        MutationKind::UpdateAll => updated_all(docs, f, s),
        MutationKind::DeleteFirst => deleted_first(docs, f),
        MutationKind::DeleteAll => kept(docs, f),
    }
}

/// The in-memory document store. Used as a test double for a real backend:
/// it follows the same query, projection and update rules. Transactions
/// handed to it are accepted and have no effect.
#[derive(Debug)]
pub struct MemoryDatabaseService {
    collections: Vec<(String, Vec<Document>)>,
}

impl View for MemoryDatabaseService {
    type V = StoreModel;

    closed spec fn view(&self) -> StoreModel {
        self.collections@.map_values(|c: (String, Vec<Document>)| (c.0@, docs_view(c.1@)))
    }
}

impl MemoryDatabaseService {
    /// Collection names are unique and every document has unique keys.
    pub open spec fn store_wf(&self) -> bool {
        &&& names_unique(self@)
        &&& forall|i: int| 0 <= i < self@.len() ==> #[trigger] all_wf(self@[i].1)
    }

    /// An empty store.
    pub fn new() -> (r: MemoryDatabaseService)
        ensures
            r.store_wf(),
            forall|c: Seq<char>| #[trigger] docs_of(r@, c) == Seq::<DocModel>::empty(),
    {
        let r = MemoryDatabaseService { collections: Vec::new() };
        assert(r@ =~= Seq::<(Seq<char>, Seq<DocModel>)>::empty());
        r
    }

    /// Position of the collection named `name`.
    fn collection_index(&self, name: &String) -> (r: Option<usize>)
        ensures
            match r {
                Some(p) => coll_pos(self@, name@) == p as int && p < self@.len(),
                None => coll_pos(self@, name@) == -1,
            },
    {
        let mut i: usize = 0;
        while i < self.collections.len()
            invariant
                0 <= i <= self@.len(),
                self@.len() == self.collections@.len(),
                coll_from(self@, name@, i as int) == coll_pos(self@, name@),
            decreases self@.len() - i,
        {
            assert(self@[i as int].0 == self.collections@[i as int].0@);
            if self.collections[i].0 == *name {
                return Some(i);
            }
            i = i + 1;
        }
        None
    }

    /// The documents of the collection named `name`, if it exists.
    fn docs_at(&self, name: &String) -> (r: Option<&Vec<Document>>)
        requires
            self.store_wf(),
        ensures
            match r {
                Some(d) => docs_view(d@) == docs_of(self@, name@),
                None => docs_of(self@, name@) == Seq::<DocModel>::empty(),
            },
            all_wf(docs_of(self@, name@)),
    {
        proof {
            lemma_coll_pos(self@, name@);
        }
        match self.collection_index(name) {
            Some(p) => {
                assert(self@[p as int].1 == docs_view(self.collections@[p as int].1@));
                Some(&self.collections[p].1)
            },
            None => None,
        }
    }

    /// Position of the collection named `name`, creating it empty if needed.
    fn slot(&mut self, name: &String) -> (p: usize)
        requires
            old(self).store_wf(),
        ensures
            final(self).store_wf(),
            p < final(self)@.len(),
            final(self)@[p as int].0 == name@,
            forall|c: Seq<char>| #[trigger] docs_of(final(self)@, c) == docs_of(old(self)@, c),
    {
        proof {
            lemma_coll_pos(self@, name@);
        }
        match self.collection_index(name) {
            Some(p) => p,
            None => {
                let ghost s = self@;
                proof {
                    lemma_docs_after_push(s, name@);
                }
                let empty: Vec<Document> = Vec::new();
                assert(docs_view(empty@) =~= Seq::<DocModel>::empty());
                self.collections.push((name.clone(), empty));
                assert(self@ =~= s.push((name@, Seq::empty())));
                assert(all_wf(Seq::<DocModel>::empty()));
                self.collections.len() - 1
            },
        }
    }

    /// Puts `docs` in place of the documents of the collection at `p` and
    /// returns the documents it held.
    fn replace_docs(&mut self, p: usize, docs: Vec<Document>) -> (r: Vec<Document>)
        requires
            p < old(self)@.len(),
        ensures
            final(self)@ == old(self)@.update(p as int, (old(self)@[p as int].0, docs_view(docs@))),
            docs_view(r@) == old(self)@[p as int].1,
    {
        let ghost s = self@;
        let (name, held) = self.collections.remove(p);
        self.collections.insert(p, (name, docs));
        assert(self@ =~= s.update(p as int, (s[p as int].0, docs_view(docs@))));
        held
    }

    /// Applies the change `kind` to the collection `name`; a collection that
    /// does not exist stays absent.
    fn mutate(&mut self, name: &String, filter: &Filter, kind: MutationKind, fields: &Document)
        requires
            old(self).store_wf(),
        ensures
            final(self).store_wf(),
            docs_of(final(self)@, name@) == mutated(
                docs_of(old(self)@, name@),
                filter@,
                kind,
                fields@,
            ),
            forall|c: Seq<char>|
                c != name@ ==> #[trigger] docs_of(final(self)@, c) == docs_of(old(self)@, c),
    {
        proof {
            lemma_coll_pos(self@, name@);
        }
        match self.collection_index(name) {
            None => {
                proof {
                    let e = Seq::<DocModel>::empty();
                    assert(first_match(e, filter@) == -1);
                    assert(updated_all(e, filter@, fields@) =~= e);
                    assert(kept(e, filter@) =~= e);
                }
            },
            Some(p) => {
                let ghost s = self@;
                assert(all_wf(s[p as int].1));
                let mut docs = self.replace_docs(p, Vec::new());
                match kind {
                    MutationKind::UpdateFirst => update_first_in(&mut docs, filter, fields),
                    MutationKind::UpdateAll => update_all_in(&mut docs, filter, fields),
                    MutationKind::DeleteFirst => delete_first_in(&mut docs, filter),
                    MutationKind::DeleteAll => delete_all_in(&mut docs, filter),
                }
                self.replace_docs(p, docs);
                proof {
                    assert(self@ =~= s.update(p as int, (s[p as int].0, docs_view(docs@))));
                    lemma_docs_after_set(s, p as int, docs_view(docs@));
                    assert forall|i: int| 0 <= i < self@.len() implies #[trigger] all_wf(
                        self@[i].1,
                    ) by {
                        if i != p {
                            assert(self@[i] == s[i]);
                        }
                    }
                }
            },
        }
    }

    /// Stores `document` in the collection `name` under a fresh identity.
    /// Stores `document` in the collection `name` under the identity `id`,
    /// unless a document of that collection already has it: then the store
    /// is left as it was and the result is `InvalidObjectId`.
    pub fn store_with_id(&mut self, name: &String, document: Document, id: ObjectId) -> (r:
        DatabaseResult<ObjectId>)
        requires
            old(self).store_wf(),
            document.wf(),
            lookup(document@, id_key()) is None,
        ensures
            final(self).store_wf(),
            id_unused(docs_of(old(self)@, name@), id@) ==> {
                &&& r == Ok::<ObjectId, DatabaseError>(id)
                &&& docs_of(final(self)@, name@) == docs_of(old(self)@, name@).push(
                    with_id(document@, id@),
                )
                &&& forall|c: Seq<char>|
                    c != name@ ==> #[trigger] docs_of(final(self)@, c) == docs_of(old(self)@, c)
            },
            !id_unused(docs_of(old(self)@, name@), id@) ==> {
                &&& r matches Err(DatabaseError::InvalidObjectId)
                &&& forall|c: Seq<char>| #[trigger]
                    docs_of(final(self)@, c) == docs_of(old(self)@, c)
            },
    {
        let key = id_key_string();
        let p = self.slot(name);
        let ghost s = self@;
        let mut docs = self.replace_docs(p, Vec::new());
        proof {
            lemma_coll_pos(s, name@);
            assert(docs_of(s, name@) == s[p as int].1);
        }
        if id_in_use(&docs, &id) {
            self.replace_docs(p, docs);
            assert(self@ =~= s);
            return Err(DatabaseError::InvalidObjectId);
        }
        proof {
            lemma_insert_entry(document@, id_key(), ValueModel::Id(id@));
            assert(all_wf(s[p as int].1));
        }
        let mut stored = document;
        stored.insert(key, Value::Id(ObjectId::from_bytes(id.bytes)));
        let ghost before = docs@;
        docs.push(stored);
        assert(docs_view(docs@) =~= docs_view(before).push(with_id(document@, id@)));
        self.replace_docs(p, docs);
        proof {
            assert(self@ =~= s.update(p as int, (s[p as int].0, docs_view(docs@))));
            lemma_docs_after_set(s, p as int, docs_view(docs@));
            assert forall|i: int| 0 <= i < docs_view(docs@).len() implies #[trigger] keys_unique(
                docs_view(docs@)[i],
            ) by {
                if i < before.len() {
                    assert(docs_view(docs@)[i] == docs_view(before)[i]);
                }
            }
            assert(all_wf(docs_view(docs@)));
            assert forall|i: int| 0 <= i < self@.len() implies #[trigger] all_wf(self@[i].1) by {
                if i != p {
                    assert(self@[i] == s[i]);
                }
            }
        }
        Ok(id)
    }

    fn insert_into(&mut self, name: &String, document: Document) -> (r: DatabaseResult<ObjectId>)
        requires
            old(self).store_wf(),
            document.wf(),
        ensures
            final(self).store_wf(),
            match r {
                Ok(id) => {
                    &&& lookup(document@, id_key()) is None
                    &&& id_unused(docs_of(old(self)@, name@), id@)
                    &&& docs_of(final(self)@, name@) == docs_of(old(self)@, name@).push(
                        with_id(document@, id@),
                    )
                    &&& forall|c: Seq<char>|
                        c != name@ ==> #[trigger] docs_of(final(self)@, c) == docs_of(
                            old(self)@,
                            c,
                        )
                },
                Err(e) => {
                    &&& forall|c: Seq<char>| #[trigger]
                        docs_of(final(self)@, c) == docs_of(old(self)@, c)
                    &&& if lookup(document@, id_key()) is Some {
                        e is DocumentHasAlreadyAnId
                    } else {
                        e is InvalidObjectId
                    }
                },
            },
    {
        if carries_identity(&document) {
            return Err(DatabaseError::DocumentHasAlreadyAnId);
        }
        let id = fresh_object_id();
        self.store_with_id(name, document, id)
    }
}

impl DatabaseServiceTrait for MemoryDatabaseService {
    type Transaction = MemoryDatabaseTransaction;

    open spec fn docs(&self, collection: Seq<char>) -> Seq<DocModel> {
        docs_of(self@, collection)
    }

    open spec fn wf(&self) -> bool {
        self.store_wf()
    }

    open spec fn in_process() -> bool {
        true
    }

    open spec fn db_name(&self) -> Seq<char> {
        "database"@
    }

    fn connect(&mut self) -> (r: DatabaseResult<()>) {
        Ok(())
    }

    fn shutdown(&mut self) -> (r: DatabaseResult<()>) {
        Ok(())
    }

    fn get_db_name(&self) -> (r: String) {
        "database".to_owned()
    }

    fn new_transaction(&self) -> (r: DatabaseResult<MemoryDatabaseTransaction>) {
        Ok(MemoryDatabaseTransaction::new())
    }

    fn insert_one<T: DatabaseDocumentTrait>(
        &mut self,
        document: Document,
        transaction: Option<&MemoryDatabaseTransaction>,
    ) -> (r: DatabaseResult<ObjectId>) {
        let name = T::collection_name().to_owned();
        self.insert_into(&name, document)
    }

    fn insert_many<T: DatabaseDocumentTrait>(
        &mut self,
        documents: Vec<Document>,
        transaction: Option<&MemoryDatabaseTransaction>,
    ) -> (r: DatabaseResult<Vec<ObjectId>>) {
        let name = T::collection_name().to_owned();
        let ghost start = docs_of(self@, name@);
        let mut ids: Vec<ObjectId> = Vec::new();
        let mut i: usize = 0;
        while i < documents.len()
            invariant
                0 <= i <= documents@.len(),
                ids@.len() == i,
                name@ == T::spec_collection_name(),
                self.store_wf(),
                forall|j: int| 0 <= j < documents@.len() ==> #[trigger] documents@[j].wf(),
                docs_of(self@, name@) == start + Seq::new(
                    i as nat,
                    |j: int| with_id(documents@[j]@, ids@[j]@),
                ),
                start == docs_of(old(self)@, name@),
                forall|c: Seq<char>|
                    c != name@ ==> #[trigger] docs_of(self@, c) == docs_of(old(self)@, c),
            decreases documents@.len() - i,
        {
            let ghost before = docs_of(self@, name@);
            let ghost ids_before = ids@;
            assert(documents@[i as int].wf());
            let id = match self.insert_into(&name, documents[i].duplicate()) {
                Ok(id) => id,
                Err(e) => {
                    proof {
                        let after = docs_of(self@, name@);
                        assert(after.len() - start.len() == i);
                        assert forall|j: int| 0 <= j < i implies stored_from(
                            #[trigger] after[start.len() + j],
                            documents@[j]@,
                        ) by {
                            assert(after[start.len() + j] == with_id(documents@[j]@, ids@[j]@));
                        }
                        assert(after.subrange(0, start.len() as int) =~= start);
                    }
                    return Err(e);
                },
            };
            ids.push(id);
            proof {
                assert(Seq::new(
                    (i + 1) as nat,
                    |j: int| with_id(documents@[j]@, ids@[j]@),
                ) =~= Seq::new(i as nat, |j: int| with_id(documents@[j]@, ids_before[j]@)).push(
                    with_id(documents@[i as int]@, id@),
                ));
                assert(docs_of(self@, name@) =~= start + Seq::new(
                    (i + 1) as nat,
                    |j: int| with_id(documents@[j]@, ids@[j]@),
                ));
            }
            i = i + 1;
        }
        Ok(ids)
    }

    fn find_one<T: DatabaseDocumentTrait>(&self, filter: &Filter) -> (r: DatabaseResult<Option<T>>) {
        let name = T::collection_name().to_owned();
        match self.docs_at(&name) {
            None => {
                assert(first_match(Seq::<DocModel>::empty(), filter@) == -1);
                Ok(None)
            },
            Some(docs) => match position_in(docs, filter) {
                None => Ok(None),
                Some(i) => {
                    proof {
                        lemma_first_match_from(docs_view(docs@), filter@, 0);
                        assert(docs_view(docs@)[i as int] == docs@[i as int]@);
                    }
                    match T::from_document(&docs[i]) {
                        Ok(t) => Ok(Some(t)),
                        Err(e) => Err(e),
                    }
                },
            },
        }
    }

    fn find_many<T: DatabaseDocumentTrait>(&self, filter: &Filter) -> (r: DatabaseResult<Vec<T>>) {
        let name = T::collection_name().to_owned();
        match self.docs_at(&name) {
            None => {
                assert(matching(Seq::<DocModel>::empty(), filter@) =~= Seq::<DocModel>::empty());
                Ok(Vec::new())
            },
            Some(docs) => collect_in(docs, filter, None),
        }
    }

    fn find_one_projection<T: DatabaseDocumentTrait, P: FromDocument>(
        &self,
        filter: &Filter,
        projection: &Document,
    ) -> (r: DatabaseResult<Option<P>>) {
        let name = T::collection_name().to_owned();
        match self.docs_at(&name) {
            None => {
                assert(first_match(Seq::<DocModel>::empty(), filter@) == -1);
                Ok(None)
            },
            Some(docs) => match position_in(docs, filter) {
                None => Ok(None),
                Some(i) => {
                    proof {
                        lemma_first_match_from(docs_view(docs@), filter@, 0);
                        assert(docs_view(docs@)[i as int] == docs@[i as int]@);
                    }
                    let reduced = apply_projection(&docs[i], projection);
                    match P::from_document(&reduced) {
                        Ok(t) => Ok(Some(t)),
                        Err(e) => Err(e),
                    }
                },
            },
        }
    }

    fn find_many_projection<T: DatabaseDocumentTrait, P: FromDocument>(
        &self,
        filter: &Filter,
        projection: &Document,
    ) -> (r: DatabaseResult<Vec<P>>) {
        let name = T::collection_name().to_owned();
        match self.docs_at(&name) {
            None => {
                assert(projected_all(matching(Seq::<DocModel>::empty(), filter@), projection@)
                    =~= Seq::<DocModel>::empty());
                Ok(Vec::new())
            },
            Some(docs) => {
                let r = collect_in(docs, filter, Some(projection));
                proof {
                    assert(projected_all(matching(docs_view(docs@), filter@), projection@)
                        =~= matching(docs_view(docs@), filter@).map_values(
                        |d: DocModel| crate::query::projected(d, projection@),
                    ));
                }
                r
            },
        }
    }

    fn count_documents<T: DatabaseDocumentTrait>(&self, filter: &Filter) -> (r: DatabaseResult<u64>) {
        let name = T::collection_name().to_owned();
        match self.docs_at(&name) {
            None => {
                assert(matching(Seq::<DocModel>::empty(), filter@) =~= Seq::<DocModel>::empty());
                Ok(0)
            },
            Some(docs) => Ok(count_in(docs, filter)),
        }
    }

    fn update_one<T: DatabaseDocumentTrait>(
        &mut self,
        filter: &Filter,
        update: &Update,
        transaction: Option<&MemoryDatabaseTransaction>,
    ) -> (r: DatabaseResult<()>) {
        let name = T::collection_name().to_owned();
        self.mutate(&name, filter, MutationKind::UpdateFirst, update.fields());
        Ok(())
    }

    fn update_many<T: DatabaseDocumentTrait>(
        &mut self,
        filter: &Filter,
        update: &Update,
        transaction: Option<&MemoryDatabaseTransaction>,
    ) -> (r: DatabaseResult<()>) {
        let name = T::collection_name().to_owned();
        self.mutate(&name, filter, MutationKind::UpdateAll, update.fields());
        Ok(())
    }

    fn delete_one<T: DatabaseDocumentTrait>(
        &mut self,
        filter: &Filter,
        transaction: Option<&MemoryDatabaseTransaction>,
    ) -> (r: DatabaseResult<()>) {
        let name = T::collection_name().to_owned();
        let none = Document::new();
        self.mutate(&name, filter, MutationKind::DeleteFirst, &none);
        Ok(())
    }

    fn delete_many<T: DatabaseDocumentTrait>(
        &mut self,
        filter: &Filter,
        transaction: Option<&MemoryDatabaseTransaction>,
    ) -> (r: DatabaseResult<()>) {
        let name = T::collection_name().to_owned();
        let none = Document::new();
        self.mutate(&name, filter, MutationKind::DeleteAll, &none);
        Ok(())
    }

    fn aggregate<T: DatabaseDocumentTrait>(&self, pipeline: Vec<Document>) -> (r: DatabaseResult<
        Vec<Document>,
    >) {
        Err(
            DatabaseError::DatabaseOperationError(
                "aggregation pipelines are not supported by the in-memory store".to_owned(),
            ),
        )
    }
}

} // verus!
