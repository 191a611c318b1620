//! Properties that tie the store's operations together.
use vstd::prelude::*;
use crate::collection::{
    first_match, kept, kept_prefix, lemma_first_match_from, matching,
    matching_prefix, updated_all, updated_first,
};
use crate::database::{id_unused, with_id};
use crate::document::FromDocument;
use crate::query::{
    FilterModel, clause_holds, id_key, is_inclusion, project_prefix, projected, satisfies,
};
use crate::smart_document::id_filter;
use crate::value::{
    DocModel, ValueModel, key_pos, keys_unique, lemma_insert_entry, lemma_key_pos, lookup,
};

verus! {

/// A document stored under an identity that no other document of its
/// collection has is the first, and only, match of a lookup by that
/// identity, and reads back as the entity it was stored from.
pub proof fn lemma_round_trip<T: FromDocument>(
    before: Seq<DocModel>,
    payload: DocModel,
    id: Seq<u8>,
    entity: T::V,
)
    requires
        keys_unique(payload),
        id_unused(before, id),
        T::decode(with_id(payload, id)) == Some(entity),
    ensures
        ({
            let after = before.push(with_id(payload, id));
            &&& first_match(after, id_filter(id)) == before.len()
            &&& T::decode(after[before.len() as int]) == Some(entity)
        }),
{
    let after = before.push(with_id(payload, id));
    let f = id_filter(id);
    lemma_insert_entry(payload, id_key(), ValueModel::Id(id));
    assert(lookup(with_id(payload, id), id_key()) == Some(ValueModel::Id(id)));
    assert(clause_holds(after[before.len() as int], f[0].0, f[0].1));
    assert(satisfies(after[before.len() as int], f));
    lemma_first_match_from(after, f, 0);
    let i = first_match(after, f);
    if 0 <= i < before.len() {
        assert(after[i] == before[i]);
        assert(clause_holds(after[i], f[0].0, f[0].1));
        assert(lookup(before[i], id_key()) != Some(ValueModel::Id(id)));
    }
}

/// Every document a filter selects meets all of its clauses: a document that
/// fails any one clause is not selected, whatever the other clauses say.
pub proof fn lemma_filter_conjunction(docs: Seq<DocModel>, f: FilterModel, i: int)
    requires
        0 <= i < f.len(),
        forall|j: int| 0 <= j < docs.len() ==> !clause_holds(#[trigger] docs[j], f[i].0, f[i].1),
    ensures
        matching(docs, f).len() == 0,
        first_match(docs, f) == -1,
{
    assert forall|j: int| 0 <= j < docs.len() implies !satisfies(#[trigger] docs[j], f) by {
        assert(!clause_holds(docs[j], f[i].0, f[i].1));
    }
    lemma_matching_prefix_empty(docs, f, docs.len() as int);
    lemma_first_match_from(docs, f, 0);
}

proof fn lemma_matching_prefix_empty(docs: Seq<DocModel>, f: FilterModel, n: int)
    requires
        0 <= n <= docs.len(),
        forall|j: int| 0 <= j < docs.len() ==> !satisfies(#[trigger] docs[j], f),
    ensures
        matching_prefix(docs, f, n).len() == 0,
    decreases n,
{
    if n > 0 {
        lemma_matching_prefix_empty(docs, f, n - 1);
    }
}

/// The flag a projection gives to `k`, if it selects it.
pub open spec fn selects(p: DocModel, k: Seq<char>) -> bool {
    lookup(p, k) is Some && is_inclusion(lookup(p, k)->0)
}

proof fn lemma_project_prefix_lookup(d: DocModel, p: DocModel, n: int, k: Seq<char>)
    requires
        keys_unique(p),
        0 <= n <= p.len(),
    ensures
        keys_unique(project_prefix(d, p, n)),
        lookup(project_prefix(d, p, n), k) == if 0 <= key_pos(p, k) < n && is_inclusion(
            p[key_pos(p, k)].1,
        ) {
            lookup(d, k)
        } else {
            None
        },
    decreases n,
{
    lemma_key_pos(p, k);
    if n == 0 {
        assert(lookup(Seq::<(Seq<char>, ValueModel)>::empty(), k) is None);
    } else {
        lemma_project_prefix_lookup(d, p, n - 1, k);
        let prev = project_prefix(d, p, n - 1);
        let kn = p[n - 1].0;
        if is_inclusion(p[n - 1].1) && lookup(d, kn) is Some {
            lemma_insert_entry(prev, kn, lookup(d, kn)->0);
        }
        if kn == k {
            assert(key_pos(p, k) == n - 1);
        }
    }
}

/// A non-empty projection keeps exactly the fields it selects with `1` or
/// `true` that the document has, with their values; every other field,
/// the identity included, is dropped. An empty projection keeps the whole
/// document.
pub proof fn lemma_projection_fields(d: DocModel, p: DocModel, k: Seq<char>)
    requires
        keys_unique(p),
    ensures
        p.len() == 0 ==> projected(d, p) == d,
        p.len() > 0 ==> lookup(projected(d, p), k) == if selects(p, k) {
            lookup(d, k)
        } else {
            None
        },
        p.len() > 0 ==> keys_unique(projected(d, p)),
{
    if p.len() > 0 {
        lemma_key_pos(p, k);
        lemma_project_prefix_lookup(d, p, p.len() as int, k);
    }
}

/// An update whose filter matches no document leaves the collection as it was.
pub proof fn lemma_update_without_match(docs: Seq<DocModel>, f: FilterModel, s: DocModel)
    requires
        forall|j: int| 0 <= j < docs.len() ==> !satisfies(#[trigger] docs[j], f),
    ensures
        updated_first(docs, f, s) == docs,
        updated_all(docs, f, s) == docs,
{
    lemma_first_match_from(docs, f, 0);
    assert(updated_all(docs, f, s) =~= docs);
}

/// Deleting the documents that satisfy a filter keeps the others in their
/// original relative order.
pub proof fn lemma_delete_keeps_order(docs: Seq<DocModel>, f: FilterModel)
    ensures
        kept(docs, f) == docs.filter(|d: DocModel| !satisfies(d, f)),
{
    lemma_kept_prefix_filter(docs, f, docs.len() as int);
    assert(docs.subrange(0, docs.len() as int) =~= docs);
}

proof fn lemma_kept_prefix_filter(docs: Seq<DocModel>, f: FilterModel, n: int)
    requires
        0 <= n <= docs.len(),
    ensures
        kept_prefix(docs, f, n) == docs.subrange(0, n).filter(|d: DocModel| !satisfies(d, f)),
    decreases n,
{
    let pred = |d: DocModel| !satisfies(d, f);
    if n == 0 {
        reveal(Seq::filter);
        assert(docs.subrange(0, 0).filter(pred) =~= Seq::<DocModel>::empty());
    } else {
        lemma_kept_prefix_filter(docs, f, n - 1);
        assert(docs.subrange(0, n) =~= docs.subrange(0, n - 1).push(docs[n - 1]));
        docs.subrange(0, n - 1).lemma_filter_push(docs[n - 1], pred);
    }
}

} // verus!
