//! Evaluation of filters, projections and updates on single documents.
use vstd::prelude::*;
use crate::query::{
    Condition, Filter, clause_holds, is_inclusion, satisfies, merged,
    project_prefix, projected, set_prefix, values_view,
};
use crate::value::{
    DocModel, Document, Value, keys_unique, lemma_insert_entry, lookup,
};

verus! {

/// Whether `v` equals one of `candidates`.
pub fn contains_value(candidates: &Vec<Value>, v: &Value) -> (r: bool)
    ensures
        r == values_view(candidates@).contains(v@),
{
    let mut i: usize = 0;
    while i < candidates.len()
        invariant
            0 <= i <= candidates@.len(),
            forall|j: int| 0 <= j < i ==> candidates@[j]@ != v@,
        decreases candidates@.len() - i,
    {
        if candidates[i].equals(v) {
            assert(values_view(candidates@)[i as int] == v@);
            return true;
        }
        i = i + 1;
    }
    assert(!values_view(candidates@).contains(v@));
    false
}

/// Whether the field `key` of `document` meets `condition`.
pub fn clause_matches(document: &Document, key: &String, condition: &Condition) -> (r: bool)
    ensures
        r == clause_holds(document@, key@, condition@),
{
    match document.get(key) {
        None => false,
        Some(field) => match condition {
            Condition::Equal(expected) => field.equals(expected),
            Condition::In(candidates) => !contains_value(candidates, field),
        },
    }
}

/// Whether `document` meets every clause of `filter`. Stops at the first
/// clause that fails.
pub fn match_document(document: &Document, filter: &Filter) -> (r: bool)
    ensures
        r == satisfies(document@, filter@),
{
    let mut i: usize = 0;
    while i < filter.len()
        invariant
            0 <= i <= filter@.len(),
            forall|j: int| 0 <= j < i ==> #[trigger] clause_holds(document@, filter@[j].0, filter@[j].1),
        decreases filter@.len() - i,
    {
        if !clause_matches(document, filter.key_at(i), filter.condition_at(i)) {
            return false;
        }
        i = i + 1;
    }
    true
}

/// The projection prefix keeps keys unique.
proof fn lemma_project_prefix_wf(d: DocModel, p: DocModel, n: int)
    ensures
        keys_unique(project_prefix(d, p, n)),
    decreases n,
{
    if n > 0 {
        lemma_project_prefix_wf(d, p, n - 1);
        let k = p[n - 1].0;
        if is_inclusion(p[n - 1].1) && lookup(d, k) is Some {
            lemma_insert_entry(project_prefix(d, p, n - 1), k, lookup(d, k)->0);
        }
    }
}

/// The document reduced to the fields that `projection` selects by `1` or
/// `true`, in the projection's order; an empty projection keeps everything.
pub fn apply_projection(document: &Document, projection: &Document) -> (r: Document)
    requires
        document.wf(),
    ensures
        r@ == projected(document@, projection@),
        r.wf(),
{
    if projection.is_empty() {
        return document.duplicate();
    }
    let mut out = Document::new();
    let mut i: usize = 0;
    while i < projection.len()
        invariant
            0 <= i <= projection@.len(),
            out@ == project_prefix(document@, projection@, i as int),
            out.wf(),
        decreases projection@.len() - i,
    {
        let key = projection.key_at(i);
        let flag = projection.value_at(i);
        let selected = match flag {
            Value::Int(n) => *n == 1,
            Value::Bool(b) => *b,
            _ => false,
        };
        proof {
            lemma_project_prefix_wf(document@, projection@, i + 1);
        }
        if selected {
            match document.get(key) {
                Some(v) => {
                    out.insert(key.clone(), v.duplicate());
                },
                None => {},
            }
        }
        i = i + 1;
    }
    out
}

/// Merges every entry of `fields` into `document`, in order.
pub fn apply_set(document: &mut Document, fields: &Document)
    requires
        old(document).wf(),
    ensures
        final(document)@ == merged(old(document)@, fields@),
        final(document).wf(),
{
    let ghost start = document@;
    let mut i: usize = 0;
    while i < fields.len()
        invariant
            0 <= i <= fields@.len(),
            document@ == set_prefix(start, fields@, i as int),
            document.wf(),
        decreases fields@.len() - i,
    {
        document.insert(fields.key_at(i).clone(), fields.value_at(i).duplicate());
        i = i + 1;
    }
}

} // verus!
