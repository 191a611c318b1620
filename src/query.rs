//! Filters, projections and updates over documents, and what they mean.
use vstd::prelude::*;
use crate::value::{
    DocModel, Document, ObjectId, Value, ValueModel, insert_entry, keys_unique,
    lookup,
};

verus! {

/// Model of a filter condition.
pub enum ConditionModel {
    Equal(ValueModel),
    In(Seq<ValueModel>),
}

/// What a filter asks of one field.
#[derive(Debug)]
pub enum Condition {
    /// The field is present and equal to the value.
    Equal(Value),
    /// The membership operator (`$in`). The in-memory backend reads it as
    /// exclusion: the field is present and equal to none of the candidates.
    In(Vec<Value>),
}

/// The models of a list of values.
pub open spec fn values_view(v: Seq<Value>) -> Seq<ValueModel> {
    v.map_values(|x: Value| x@)
}

impl View for Condition {
    type V = ConditionModel;

    open spec fn view(&self) -> ConditionModel {
        match self {
            Condition::Equal(v) => ConditionModel::Equal(v@),
            Condition::In(c) => ConditionModel::In(values_view(c@)),
        }
    }
}

/// Model of a filter: its clauses in order.
pub type FilterModel = Seq<(Seq<char>, ConditionModel)>;

/// Whether the field `k` of `d` meets `c`.
pub open spec fn clause_holds(d: DocModel, k: Seq<char>, c: ConditionModel) -> bool {
    match c {
        ConditionModel::Equal(v) => lookup(d, k) == Some(v),
        ConditionModel::In(cands) => lookup(d, k) is Some && !cands.contains(lookup(d, k)->0),
    }
}

/// Whether `d` meets every clause of `f`; an empty filter matches every
/// document.
pub open spec fn satisfies(d: DocModel, f: FilterModel) -> bool {
    forall|i: int| 0 <= i < f.len() ==> #[trigger] clause_holds(d, f[i].0, f[i].1)
}

/// The key under which a document's identity is stored.
pub open spec fn id_key() -> Seq<char> {
    seq!['_', 'i', 'd']
}

/// The key under which a document's identity is stored.
pub fn id_key_string() -> (r: String)
    ensures
        r@ == id_key(),
{
    let r = "_id".to_owned();
    proof {
        reveal_strlit("_id");
        assert(r@ =~= id_key());
    }
    r
}

/// Whether `document` already carries an identity.
pub fn carries_identity(document: &Document) -> (r: bool)
    ensures
        r == lookup(document@, id_key()) is Some,
{
    document.get(&id_key_string()).is_some()
}

/// A conjunction of clauses, each naming a field and a condition on it.
#[derive(Debug)]
pub struct Filter {
    clauses: Vec<(String, Condition)>,
}

impl View for Filter {
    type V = FilterModel;

    closed spec fn view(&self) -> FilterModel {
        self.clauses@.map_values(|c: (String, Condition)| (c.0@, c.1@))
    }
}

impl Filter {
    /// The empty filter, which matches every document.
    pub fn new() -> (r: Filter)
        ensures
            r@ == Seq::<(Seq<char>, ConditionModel)>::empty(),
    {
        let r = Filter { clauses: Vec::new() };
        assert(r@ =~= Seq::<(Seq<char>, ConditionModel)>::empty());
        r
    }

    /// The filter with one more clause.
    pub fn with(self, key: String, condition: Condition) -> (r: Filter)
        ensures
            r@ == self@.push((key@, condition@)),
    {
        let mut clauses = self.clauses;
        let ghost old_view = self@;
        clauses.push((key, condition));
        let r = Filter { clauses };
        assert(r@ =~= old_view.push((key@, condition@)));
        r
    }

    /// The filter with one more equality clause.
    pub fn equal(self, key: String, value: Value) -> (r: Filter)
        ensures
            r@ == self@.push((key@, ConditionModel::Equal(value@))),
    {
        self.with(key, Condition::Equal(value))
    }

    /// The filter that selects the document with identity `id`.
    pub fn by_id(id: ObjectId) -> (r: Filter)
        ensures
            r@ == seq![(id_key(), ConditionModel::Equal(ValueModel::Id(id@)))],
    {
        let r = Filter::new().equal(id_key_string(), Value::Id(id));
        assert(r@ =~= seq![(id_key(), ConditionModel::Equal(ValueModel::Id(id@)))]);
        r
    }

    /// Number of clauses.
    pub fn len(&self) -> (r: usize)
        ensures
            r == self@.len(),
    {
        self.clauses.len()
    }

    /// Key of the clause at position `i`.
    pub fn key_at(&self, i: usize) -> (r: &String)
        requires
            i < self@.len(),
        ensures
            r@ == self@[i as int].0,
    {
        &self.clauses[i].0
    }

    /// Condition of the clause at position `i`.
    pub fn condition_at(&self, i: usize) -> (r: &Condition)
        requires
            i < self@.len(),
        ensures
            r@ == self@[i as int].1,
    {
        &self.clauses[i].1
    }
}

/// Whether a projection flag selects its field: `1` or `true`.
pub open spec fn is_inclusion(flag: ValueModel) -> bool {
    flag == ValueModel::Int(1) || flag == ValueModel::Bool(true)
}

/// Projection of `d` by the first `n` entries of `p`.
pub open spec fn project_prefix(d: DocModel, p: DocModel, n: int) -> DocModel
    decreases n,
{
    if n <= 0 {
        Seq::empty()
    } else {
        let prev = project_prefix(d, p, n - 1);
        let k = p[n - 1].0;
        if is_inclusion(p[n - 1].1) && lookup(d, k) is Some {
            insert_entry(prev, k, lookup(d, k)->0)
        } else {
            prev
        }
    }
}

/// `d` reduced to the fields that `p` selects; an empty projection keeps the
/// whole document.
pub open spec fn projected(d: DocModel, p: DocModel) -> DocModel {
    if p.len() == 0 {
        d
    } else {
        project_prefix(d, p, p.len() as int)
    }
}

/// `d` with the entries of `s` up to `n` merged into it, in order.
pub open spec fn set_prefix(d: DocModel, s: DocModel, n: int) -> DocModel
    decreases n,
{
    if n <= 0 {
        d
    } else {
        insert_entry(set_prefix(d, s, n - 1), s[n - 1].0, s[n - 1].1)
    }
}

/// `d` with every entry of `s` merged into it: named fields are overwritten
/// or added, the others stay as they were.
pub open spec fn merged(d: DocModel, s: DocModel) -> DocModel {
    set_prefix(d, s, s.len() as int)
}

/// A partial update: the `$set` document, whose entries are merged into each
/// target document.
#[derive(Debug)]
pub struct Update {
    set: Document,
}

impl View for Update {
    type V = DocModel;

    closed spec fn view(&self) -> DocModel {
        self.set@
    }
}

impl Update {
    /// Well-formed: the `$set` document has unique keys.
    pub open spec fn wf(&self) -> bool {
        keys_unique(self@)
    }

    /// The update that sets the fields of `fields`.
    pub fn set(fields: Document) -> (r: Update)
        requires
            fields.wf(),
        ensures
            r@ == fields@,
            r.wf(),
    {
        Update { set: fields }
    }

    /// The fields this update sets.
    pub fn fields(&self) -> (r: &Document)
        ensures
            r@ == self@,
    {
        &self.set
    }
}

} // verus!
