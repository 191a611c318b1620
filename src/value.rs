//! Structural value model: identities, scalar values and ordered documents.
use vstd::prelude::*;

verus! {

/// Store-assigned identity of a document: the twelve bytes of an object id.
#[derive(Clone, Copy, Debug, PartialEq, Eq)]
pub struct ObjectId {
    pub bytes: [u8; 12],
}

impl View for ObjectId {
    type V = Seq<u8>;

    open spec fn view(&self) -> Seq<u8> {
        self.bytes@
    }
}

impl ObjectId {
    /// Builds an identity from its twelve bytes.
    pub fn from_bytes(bytes: [u8; 12]) -> (r: ObjectId)
        ensures
            r@ == bytes@,
    {
        ObjectId { bytes }
    }

    /// Whether two identities hold the same bytes.
    pub fn same_as(&self, other: &ObjectId) -> (r: bool)
        ensures
            r == (self@ == other@),
    {
        let mut i: usize = 0;
        while i < 12
            invariant
                0 <= i <= 12,
                self@.len() == 12,
                other@.len() == 12,
                forall|j: int| 0 <= j < i ==> self@[j] == other@[j],
            decreases 12 - i,
        {
            if self.bytes[i] != other.bytes[i] {
                return false;
            }
            i = i + 1;
        }
        assert(self@ =~= other@);
        true
    }
}

/// Mathematical model of a field value.
pub enum ValueModel {
    Null,
    Bool(bool),
    Int(int),
    DateTime(int),
    Str(Seq<char>),
    Id(Seq<u8>),
}

/// A scalar value held by a document field.
#[derive(Debug)]
pub enum Value {
    Null,
    Bool(bool),
    Int(i64),
    /// Milliseconds since the Unix epoch.
    DateTime(i64),
    Str(String),
    Id(ObjectId),
}

impl View for Value {
    type V = ValueModel;

    open spec fn view(&self) -> ValueModel {
        match self {
            Value::Null => ValueModel::Null,
            Value::Bool(b) => ValueModel::Bool(*b),
            Value::Int(i) => ValueModel::Int(*i as int),
            Value::DateTime(t) => ValueModel::DateTime(*t as int),
            Value::Str(s) => ValueModel::Str(s@),
            Value::Id(o) => ValueModel::Id(o@),
        }
    }
}

impl Value {
    /// A copy of the value.
    pub fn duplicate(&self) -> (r: Value)
        ensures
            r@ == self@,
    {
        match self {
            Value::Null => Value::Null,
            Value::Bool(b) => Value::Bool(*b),
            Value::Int(i) => Value::Int(*i),
            Value::DateTime(t) => Value::DateTime(*t),
            Value::Str(s) => Value::Str(s.clone()),
            Value::Id(o) => Value::Id(ObjectId { bytes: o.bytes }),
        }
    }

    /// Whether two values are equal: same variant and same content.
    pub fn equals(&self, other: &Value) -> (r: bool)
        ensures
            r == (self@ == other@),
    {
        match (self, other) {
            (Value::Null, Value::Null) => true,
            (Value::Bool(a), Value::Bool(b)) => *a == *b,
            (Value::Int(a), Value::Int(b)) => *a == *b,
            (Value::DateTime(a), Value::DateTime(b)) => *a == *b,
            (Value::Str(a), Value::Str(b)) => *a == *b,
            (Value::Id(a), Value::Id(b)) => a.same_as(b),
            _ => false,
        }
    }
}


/// Mathematical model of a document: its entries in order.
pub type DocModel = Seq<(Seq<char>, ValueModel)>;

/// Position of the first entry with key `k` at or after `i`, or -1.
pub open spec fn find_from(d: DocModel, k: Seq<char>, i: int) -> int
    decreases d.len() - i,
{
    if i < 0 || i >= d.len() {
        -1
    } else if d[i].0 == k {
        i
    } else {
        find_from(d, k, i + 1)
    }
}

/// Position of the entry with key `k`, or -1 when there is none.
pub open spec fn key_pos(d: DocModel, k: Seq<char>) -> int {
    find_from(d, k, 0)
}

/// The value stored under `k`, if any.
pub open spec fn lookup(d: DocModel, k: Seq<char>) -> Option<ValueModel> {
    if key_pos(d, k) >= 0 {
        Some(d[key_pos(d, k)].1)
    } else {
        None
    }
}

/// No key occurs twice.
pub open spec fn keys_unique(d: DocModel) -> bool {
    forall|i: int, j: int| 0 <= i < j < d.len() ==> d[i].0 != d[j].0
}

/// `d` with `k` set to `v`: an existing entry is overwritten in place, a new
/// key is appended.
pub open spec fn insert_entry(d: DocModel, k: Seq<char>, v: ValueModel) -> DocModel {
    if key_pos(d, k) >= 0 {
        d.update(key_pos(d, k), (k, v))
    } else {
        d.push((k, v))
    }
}

/// What the search from `i` finds.
pub proof fn lemma_find_from(d: DocModel, k: Seq<char>, i: int)
    requires
        0 <= i <= d.len(),
    ensures
        find_from(d, k, i) == -1 || (i <= find_from(d, k, i) < d.len() && d[find_from(d, k, i)].0
            == k),
        forall|j: int|
            i <= j < d.len() && (find_from(d, k, i) == -1 || j < find_from(d, k, i)) ==> d[j].0
                != k,
    decreases d.len() - i,
{
    if i < d.len() && d[i].0 != k {
        lemma_find_from(d, k, i + 1);
    }
}

/// The key position is exactly the index holding the key, when keys are unique.
pub proof fn lemma_key_pos(d: DocModel, k: Seq<char>)
    ensures
        key_pos(d, k) == -1 || (0 <= key_pos(d, k) < d.len() && d[key_pos(d, k)].0 == k),
        key_pos(d, k) == -1 ==> forall|j: int| 0 <= j < d.len() ==> d[j].0 != k,
        keys_unique(d) ==> forall|j: int| 0 <= j < d.len() && d[j].0 == k ==> key_pos(d, k) == j,
{
    lemma_find_from(d, k, 0);
}

/// Inserting keeps keys unique and sets the value under the key.
pub proof fn lemma_insert_entry(d: DocModel, k: Seq<char>, v: ValueModel)
    requires
        keys_unique(d),
    ensures
        keys_unique(insert_entry(d, k, v)),
        forall|k2: Seq<char>|
            #![trigger lookup(insert_entry(d, k, v), k2)]
            lookup(insert_entry(d, k, v), k2) == if k2 == k {
                Some(v)
            } else {
                lookup(d, k2)
            },
{
    let e = insert_entry(d, k, v);
    lemma_key_pos(d, k);
    assert(keys_unique(e));
    assert forall|k2: Seq<char>| #[trigger]
        lookup(e, k2) == (if k2 == k {
            Some(v)
        } else {
            lookup(d, k2)
        }) by {
        lemma_key_pos(d, k2);
        lemma_key_pos(e, k2);
        let p = key_pos(d, k);
        let q = key_pos(d, k2);
        let r = key_pos(e, k2);
        if k2 == k {
            if p >= 0 {
                assert(e[p].0 == k2);
            } else {
                assert(e[d.len() as int].0 == k2);
            }
        } else {
            if q >= 0 {
                assert(e[q] == d[q]);
                assert(e[q].0 == k2);
                assert(r == q);
            } else if r >= 0 {
                if r < d.len() {
                    assert(e[r] == d[r] || e[r].0 == k);
                    assert(d[r].0 == k2);
                }
                assert(false);
            }
        }
    }
}

/// An ordered map from field names to values, each name at most once.
#[derive(Debug)]
pub struct Document {
    entries: Vec<(String, Value)>,
}

impl View for Document {
    type V = DocModel;

    closed spec fn view(&self) -> DocModel {
        self.entries@.map_values(|e: (String, Value)| (e.0@, e.1@))
    }
}

impl Document {
    /// Well-formed: no key occurs twice.
    pub open spec fn wf(&self) -> bool {
        keys_unique(self@)
    }

    /// An empty document.
    pub fn new() -> (r: Document)
        ensures
            r@ == Seq::<(Seq<char>, ValueModel)>::empty(),
            r.wf(),
    {
        let r = Document { entries: Vec::new() };
        assert(r@ =~= Seq::<(Seq<char>, ValueModel)>::empty());
        r
    }

    /// Number of entries.
    pub fn len(&self) -> (r: usize)
        ensures
            r == self@.len(),
    {
        self.entries.len()
    }

    /// Whether the document has no entries.
    pub fn is_empty(&self) -> (r: bool)
        ensures
            r == (self@.len() == 0),
    {
        self.entries.len() == 0
    }

    /// Key of the entry at position `i`.
    pub fn key_at(&self, i: usize) -> (r: &String)
        requires
            i < self@.len(),
        ensures
            r@ == self@[i as int].0,
    {
        &self.entries[i].0
    }

    /// Value of the entry at position `i`.
    pub fn value_at(&self, i: usize) -> (r: &Value)
        requires
            i < self@.len(),
        ensures
            r@ == self@[i as int].1,
    {
        &self.entries[i].1
    }

    /// Position of `key`, if present.
    pub fn position(&self, key: &String) -> (r: Option<usize>)
        ensures
            match r {
                Some(p) => key_pos(self@, key@) == p as int,
                None => key_pos(self@, key@) == -1,
            },
    {
        let mut i: usize = 0;
        while i < self.entries.len()
            invariant
                0 <= i <= self@.len(),
                self@.len() == self.entries@.len(),
                find_from(self@, key@, i as int) == key_pos(self@, key@),
            decreases self@.len() - i,
        {
            if self.entries[i].0 == *key {
                assert(self@[i as int].0 == key@);
                return Some(i);
            }
            i = i + 1;
        }
        None
    }

    /// The value stored under `key`, if any.
    pub fn get(&self, key: &String) -> (r: Option<&Value>)
        ensures
            match r {
                Some(v) => lookup(self@, key@) == Some(v@),
                None => lookup(self@, key@).is_none(),
            },
    {
        match self.position(key) {
            Some(p) => {
                proof {
                    lemma_key_pos(self@, key@);
                }
                Some(&self.entries[p].1)
            },
            None => None,
        }
    }

    /// Sets `key` to `value`, overwriting an existing entry in place or
    /// appending a new one.
    pub fn insert(&mut self, key: String, value: Value)
        requires
            old(self).wf(),
        ensures
            final(self)@ == insert_entry(old(self)@, key@, value@),
            final(self).wf(),
    {
        proof {
            lemma_insert_entry(self@, key@, value@);
        }
        let ghost k = key@;
        let ghost v = value@;
        match self.position(&key) {
            Some(p) => {
                proof {
                    lemma_key_pos(self@, k);
                    assert(self@.len() == self.entries@.len());
                }
                self.entries.set(p, (key, value));
            },
            None => {
                self.entries.push((key, value));
            },
        }
        assert(self@ =~= insert_entry(old(self)@, k, v));
    }

    /// The document with `key` set to `value`.
    pub fn with(self, key: String, value: Value) -> (r: Document)
        requires
            self.wf(),
        ensures
            r@ == insert_entry(self@, key@, value@),
            r.wf(),
    {
        let mut d = self;
        d.insert(key, value);
        d
    }

    /// A copy of the document.
    pub fn duplicate(&self) -> (r: Document)
        ensures
            r@ == self@,
    {
        let mut entries: Vec<(String, Value)> = Vec::new();
        let mut i: usize = 0;
        while i < self.entries.len()
            invariant
                0 <= i <= self.entries@.len(),
                entries@.len() == i,
                forall|j: int|
                    0 <= j < i ==> (#[trigger] entries@[j]).0@ == self.entries@[j].0@
                        && entries@[j].1@ == self.entries@[j].1@,
            decreases self.entries@.len() - i,
        {
            let k = self.entries[i].0.clone();
            let v = self.entries[i].1.duplicate();
            entries.push((k, v));
            i = i + 1;
        }
        let r = Document { entries };
        assert(r@ =~= self@);
        r
    }
}

} // verus!
