//! Operations on the ordered sequence of documents of one collection.
use vstd::prelude::*;
use crate::document::FromDocument;
use crate::engine::{apply_projection, apply_set, match_document};
use crate::error::DatabaseError;
use crate::query::{Filter, FilterModel, merged, projected, satisfies};
use crate::value::{DocModel, Document, keys_unique};

verus! {

/// The models of a sequence of documents.
pub open spec fn docs_view(v: Seq<Document>) -> Seq<DocModel> {
    v.map_values(|d: Document| d@)
}

/// Every document has unique keys.
pub open spec fn all_wf(docs: Seq<DocModel>) -> bool {
    forall|i: int| 0 <= i < docs.len() ==> #[trigger] keys_unique(docs[i])
}

/// Position of the first document at or after `i` that satisfies `f`, or -1.
pub open spec fn first_match_from(docs: Seq<DocModel>, f: FilterModel, i: int) -> int
    decreases docs.len() - i,
{
    if i < 0 || i >= docs.len() {
        -1
    } else if satisfies(docs[i], f) {
        i
    } else {
        first_match_from(docs, f, i + 1)
    }
}

/// Position of the first document that satisfies `f`, or -1.
pub open spec fn first_match(docs: Seq<DocModel>, f: FilterModel) -> int {
    first_match_from(docs, f, 0)
}

/// What the search from `i` finds.
pub proof fn lemma_first_match_from(docs: Seq<DocModel>, f: FilterModel, i: int)
    requires
        0 <= i <= docs.len(),
    ensures
        first_match_from(docs, f, i) == -1 || (i <= first_match_from(docs, f, i) < docs.len()
            && satisfies(docs[first_match_from(docs, f, i)], f)),
        forall|j: int|
            i <= j < docs.len() && (first_match_from(docs, f, i) == -1 || j < first_match_from(
                docs,
                f,
                i,
            )) ==> !satisfies(docs[j], f),
    decreases docs.len() - i,
{
    if i < docs.len() && !satisfies(docs[i], f) {
        lemma_first_match_from(docs, f, i + 1);
    }
}

/// The documents among the first `n` that satisfy `f`, in order.
pub open spec fn matching_prefix(docs: Seq<DocModel>, f: FilterModel, n: int) -> Seq<DocModel>
    decreases n,
{
    if n <= 0 {
        Seq::empty()
    } else if satisfies(docs[n - 1], f) {
        matching_prefix(docs, f, n - 1).push(docs[n - 1])
    } else {
        matching_prefix(docs, f, n - 1)
    }
}

/// The documents that satisfy `f`, in order.
pub open spec fn matching(docs: Seq<DocModel>, f: FilterModel) -> Seq<DocModel> {
    matching_prefix(docs, f, docs.len() as int)
}

/// The documents among the first `n` that do not satisfy `f`, in order.
pub open spec fn kept_prefix(docs: Seq<DocModel>, f: FilterModel, n: int) -> Seq<DocModel>
    decreases n,
{
    if n <= 0 {
        Seq::empty()
    } else if satisfies(docs[n - 1], f) {
        kept_prefix(docs, f, n - 1)
    } else {
        kept_prefix(docs, f, n - 1).push(docs[n - 1])
    }
}

/// The documents that do not satisfy `f`, in their original order.
pub open spec fn kept(docs: Seq<DocModel>, f: FilterModel) -> Seq<DocModel> {
    kept_prefix(docs, f, docs.len() as int)
}

/// The collection after merging `s` into its first match, if any.
pub open spec fn updated_first(docs: Seq<DocModel>, f: FilterModel, s: DocModel) -> Seq<DocModel> {
    if first_match(docs, f) >= 0 {
        docs.update(first_match(docs, f), merged(docs[first_match(docs, f)], s))
    } else {
        docs
    }
}

/// The collection after merging `s` into every match.
pub open spec fn updated_all(docs: Seq<DocModel>, f: FilterModel, s: DocModel) -> Seq<DocModel> {
    Seq::new(
        docs.len(),
        |i: int|
            if satisfies(docs[i], f) {
                merged(docs[i], s)
            } else {
                docs[i]
            },
    )
}

/// The collection after removing its first match, if any.
pub open spec fn deleted_first(docs: Seq<DocModel>, f: FilterModel) -> Seq<DocModel> {
    if first_match(docs, f) >= 0 {
        docs.remove(first_match(docs, f))
    } else {
        docs
    }
}

/// Every one of `docs` reads as a `T`.
pub open spec fn all_decode<T: FromDocument>(docs: Seq<DocModel>) -> bool {
    forall|i: int| 0 <= i < docs.len() ==> (#[trigger] T::decode(docs[i])) is Some
}

/// `out` holds, in order, what each of `docs` reads as.
pub open spec fn decoded_all<T: FromDocument>(docs: Seq<DocModel>, out: Seq<T>) -> bool {
    out.len() == docs.len() && forall|i: int|
        0 <= i < docs.len() ==> #[trigger] T::decode(docs[i]) == Some(out[i]@)
}

/// Every document at or after `i` has unique keys.
proof fn lemma_all_wf_elem(docs: Seq<Document>, i: int)
    requires
        all_wf(docs_view(docs)),
        0 <= i < docs.len(),
    ensures
        docs[i].wf(),
{
    assert(docs_view(docs)[i] == docs[i]@);
}

/// Position of the first document that satisfies `filter`.
pub fn position_in(docs: &Vec<Document>, filter: &Filter) -> (r: Option<usize>)
    ensures
        match r {
            Some(i) => first_match(docs_view(docs@), filter@) == i as int,
            None => first_match(docs_view(docs@), filter@) == -1,
        },
{
    let ghost v = docs_view(docs@);
    let mut i: usize = 0;
    while i < docs.len()
        invariant
            0 <= i <= docs@.len(),
            v == docs_view(docs@),
            first_match_from(v, filter@, i as int) == first_match(v, filter@),
        decreases docs@.len() - i,
    {
        if match_document(&docs[i], filter) {
            assert(v[i as int] == docs@[i as int]@);
            return Some(i);
        }
        assert(v[i as int] == docs@[i as int]@);
        i = i + 1;
    }
    None
}

/// Number of documents that satisfy `filter`.
pub fn count_in(docs: &Vec<Document>, filter: &Filter) -> (r: u64)
    ensures
        r as int == matching(docs_view(docs@), filter@).len(),
{
    let ghost v = docs_view(docs@);
    let mut count: u64 = 0;
    let mut i: usize = 0;
    while i < docs.len()
        invariant
            0 <= i <= docs@.len(),
            v == docs_view(docs@),
            count as int == matching_prefix(v, filter@, i as int).len(),
            count <= i,
        decreases docs@.len() - i,
    {
        assert(v[i as int] == docs@[i as int]@);
        if match_document(&docs[i], filter) {
            count = count + 1;
        }
        i = i + 1;
    }
    assert(matching_prefix(v, filter@, docs@.len() as int) == matching(v, filter@));
    count
}

/// Reads every document that satisfies `filter`, reduced by `projection`
/// when one is given; fails on the first that does not read as a `T`.
pub fn collect_in<T: FromDocument>(
    docs: &Vec<Document>,
    filter: &Filter,
    projection: Option<&Document>,
) -> (r: Result<Vec<T>, DatabaseError>)
    requires
        all_wf(docs_view(docs@)),
    ensures
        ({
            let shown = match projection {
                Some(p) => matching(docs_view(docs@), filter@).map_values(
                    |d: DocModel| projected(d, p@),
                ),
                None => matching(docs_view(docs@), filter@),
            };
            match r {
                Ok(out) => decoded_all(shown, out@),
                Err(e) => !all_decode::<T>(shown) && e is DocumentNotValid,
            }
        }),
{
    let ghost v = docs_view(docs@);
    let ghost shown_of = |d: DocModel|
        match projection {
            Some(p) => projected(d, p@),
            None => d,
        };
    let mut out: Vec<T> = Vec::new();
    let mut i: usize = 0;
    while i < docs.len()
        invariant
            0 <= i <= docs@.len(),
            v == docs_view(docs@),
            all_wf(v),
            decoded_all(matching_prefix(v, filter@, i as int).map_values(shown_of), out@),
            forall|d: DocModel|
                #![trigger shown_of(d)]
                shown_of(d) == match projection {
                    Some(p) => projected(d, p@),
                    None => d,
                },
        decreases docs@.len() - i,
    {
        assert(v[i as int] == docs@[i as int]@);
        proof {
            lemma_all_wf_elem(docs@, i as int);
        }
        let ghost before = matching_prefix(v, filter@, i as int).map_values(shown_of);
        if match_document(&docs[i], filter) {
            let item = match projection {
                Some(p) => {
                    let reduced = apply_projection(&docs[i], p);
                    T::from_document(&reduced)
                },
                None => T::from_document(&docs[i]),
            };
            match item {
                Ok(t) => {
                    out.push(t);
                    assert(matching_prefix(v, filter@, i + 1).map_values(shown_of) =~= before.push(
                        shown_of(v[i as int]),
                    ));
                },
                Err(e) => {
                    proof {
                        let idx = matching_prefix(v, filter@, i as int).len();
                        lemma_matching_prefix_extends(v, filter@, i as int + 1);
                        assert(matching_prefix(v, filter@, i + 1)[idx as int] == v[i as int]);
                        let all = matching(v, filter@).map_values(shown_of);
                        assert(all[idx as int] == shown_of(v[i as int]));
                        assert(T::decode(all[idx as int]) is None);
                        let shown = match projection {
                            Some(p) => matching(v, filter@).map_values(|d: DocModel| projected(d, p@)),
                            None => matching(v, filter@),
                        };
                        assert(shown =~= all);
                    }
                    return Err(e);
                },
            }
        } else {
            assert(matching_prefix(v, filter@, i + 1).map_values(shown_of) =~= before);
        }
        i = i + 1;
    }
    proof {
        let shown = match projection {
            Some(p) => matching(v, filter@).map_values(|d: DocModel| projected(d, p@)),
            None => matching(v, filter@),
        };
        assert(shown =~= matching(v, filter@).map_values(shown_of));
    }
    Ok(out)
}

/// Later prefixes extend earlier ones.
proof fn lemma_matching_prefix_extends(docs: Seq<DocModel>, f: FilterModel, n: int)
    requires
        0 <= n <= docs.len(),
    ensures
        matching_prefix(docs, f, n).len() <= matching(docs, f).len(),
        forall|j: int|
            0 <= j < matching_prefix(docs, f, n).len() ==> matching(docs, f)[j]
                == #[trigger] matching_prefix(docs, f, n)[j],
    decreases docs.len() - n,
{
    if n < docs.len() {
        lemma_matching_prefix_extends(docs, f, n + 1);
        assert forall|j: int| 0 <= j < matching_prefix(docs, f, n).len() implies matching_prefix(
            docs,
            f,
            n + 1,
        )[j] == matching_prefix(docs, f, n)[j] by {}
    }
}

/// Merges `fields` into the first document that satisfies `filter`, if any.
pub fn update_first_in(docs: &mut Vec<Document>, filter: &Filter, fields: &Document)
    requires
        all_wf(docs_view(old(docs)@)),
    ensures
        docs_view(final(docs)@) == updated_first(docs_view(old(docs)@), filter@, fields@),
        all_wf(docs_view(final(docs)@)),
{
    let ghost v = docs_view(docs@);
    match position_in(docs, filter) {
        None => {},
        Some(i) => {
            proof {
                lemma_first_match_from(v, filter@, 0);
                lemma_all_wf_elem(docs@, i as int);
            }
            let mut target = docs.remove(i);
            apply_set(&mut target, fields);
            docs.insert(i, target);
            proof {
                assert(docs_view(docs@) =~= updated_first(v, filter@, fields@));
            }
        },
    }
}

/// Merges `fields` into every document that satisfies `filter`.
pub fn update_all_in(docs: &mut Vec<Document>, filter: &Filter, fields: &Document)
    requires
        all_wf(docs_view(old(docs)@)),
    ensures
        docs_view(final(docs)@) == updated_all(docs_view(old(docs)@), filter@, fields@),
        all_wf(docs_view(final(docs)@)),
{
    let ghost v = docs_view(docs@);
    let ghost goal = updated_all(v, filter@, fields@);
    let mut i: usize = 0;
    while i < docs.len()
        invariant
            0 <= i <= docs@.len(),
            docs@.len() == v.len(),
            goal.len() == v.len(),
            goal == updated_all(v, filter@, fields@),
            all_wf(v),
            forall|j: int| 0 <= j < i ==> #[trigger] docs@[j]@ == goal[j] && keys_unique(goal[j]),
            forall|j: int| i <= j < docs@.len() ==> #[trigger] docs@[j]@ == v[j],
        decreases v.len() - i,
    {
        assert(docs@[i as int]@ == v[i as int]);
        assert(keys_unique(v[i as int]));
        if match_document(&docs[i], filter) {
            let mut target = docs.remove(i);
            apply_set(&mut target, fields);
            docs.insert(i, target);
        }
        assert(docs@[i as int]@ == goal[i as int]);
        assert(keys_unique(goal[i as int]));
        i = i + 1;
    }
    assert(docs_view(docs@) =~= goal);
}

/// Removes the first document that satisfies `filter`, if any.
pub fn delete_first_in(docs: &mut Vec<Document>, filter: &Filter)
    requires
        all_wf(docs_view(old(docs)@)),
    ensures
        docs_view(final(docs)@) == deleted_first(docs_view(old(docs)@), filter@),
        all_wf(docs_view(final(docs)@)),
{
    let ghost v = docs_view(docs@);
    match position_in(docs, filter) {
        None => {},
        Some(i) => {
            proof {
                lemma_first_match_from(v, filter@, 0);
            }
            docs.remove(i);
            assert(docs_view(docs@) =~= deleted_first(v, filter@));
        },
    }
}

/// Keeps only the documents that do not satisfy `filter`, in order.
pub fn delete_all_in(docs: &mut Vec<Document>, filter: &Filter)
    requires
        all_wf(docs_view(old(docs)@)),
    ensures
        docs_view(final(docs)@) == kept(docs_view(old(docs)@), filter@),
        all_wf(docs_view(final(docs)@)),
{
    let ghost v = docs_view(docs@);
    let mut out: Vec<Document> = Vec::new();
    let mut i: usize = 0;
    while i < docs.len()
        invariant
            0 <= i <= docs@.len(),
            v == docs_view(docs@),
            all_wf(v),
            docs_view(out@) == kept_prefix(v, filter@, i as int),
            all_wf(docs_view(out@)),
        decreases docs@.len() - i,
    {
        assert(v[i as int] == docs@[i as int]@);
        if !match_document(&docs[i], filter) {
            let ghost before = out@;
            out.push(docs[i].duplicate());
            assert(docs_view(out@) =~= docs_view(before).push(v[i as int]));
        }
        i = i + 1;
    }
    *docs = out;
}

} // verus!
