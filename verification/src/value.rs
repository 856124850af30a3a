use vstd::prelude::*;

verus! {

/// A semi-structured document value: the dynamically shaped key/value trees
/// that schemas, queries, pipeline stages and results are made of.  The core
/// passes these trees through to the backend uninterpreted except where it
/// reads a collection name or discriminates the query shape.
#[derive(Debug, PartialEq, Eq)]
pub enum Val {
    Null,
    Bool(bool),
    Int(i64),
    Str(String),
    Arr(Vec<Val>),
    Obj(Vec<(String, Val)>),
}

/// The mathematical shape of a `Val`: strings become character sequences and
/// vectors become sequences, so that two trees that hold the same data are
/// equal as `DeepVal`s.
pub enum DeepVal {
    Null,
    Bool(bool),
    Int(int),
    Str(Seq<char>),
    Arr(Seq<DeepVal>),
    Obj(Seq<(Seq<char>, DeepVal)>),
}

/// The `DeepVal` of a document value.
pub open spec fn dview(v: Val) -> DeepVal
    decreases v,
{
    match v {
        Val::Null => DeepVal::Null,
        Val::Bool(b) => DeepVal::Bool(b),
        Val::Int(i) => DeepVal::Int(i as int),
        Val::Str(s) => DeepVal::Str(s@),
        Val::Arr(a) => DeepVal::Arr(dview_seq(a@)),
        Val::Obj(f) => DeepVal::Obj(dview_fields(f@)),
    }
}

/// The `DeepVal`s of a sequence of document values, in order.
pub open spec fn dview_seq(s: Seq<Val>) -> Seq<DeepVal>
    decreases s,
{
    if s.len() == 0 {
        Seq::empty()
    } else {
        seq![dview(s[0])] + dview_seq(s.subrange(1, s.len() as int))
    }
}

/// The `DeepVal` form of a field list, in order.
pub open spec fn dview_fields(s: Seq<(String, Val)>) -> Seq<(Seq<char>, DeepVal)>
    decreases s,
{
    if s.len() == 0 {
        Seq::empty()
    } else {
        seq![(s[0].0@, dview(s[0].1))] + dview_fields(s.subrange(1, s.len() as int))
    }
}

/// `dview_seq` maps `dview` over the sequence, element by element.
pub proof fn lemma_dview_seq(s: Seq<Val>)
    ensures
        dview_seq(s).len() == s.len(),
        forall|i: int| 0 <= i < s.len() ==> dview_seq(s)[i] == dview(s[i]),
    decreases s.len(),
{
    if s.len() > 0 {
        lemma_dview_seq(s.subrange(1, s.len() as int));
    }
}

/// `dview_fields` maps the field view over the sequence, element by element.
pub proof fn lemma_dview_fields(s: Seq<(String, Val)>)
    ensures
        dview_fields(s).len() == s.len(),
        forall|i: int| 0 <= i < s.len() ==> dview_fields(s)[i] == (s[i].0@, dview(s[i].1)),
    decreases s.len(),
{
    if s.len() > 0 {
        lemma_dview_fields(s.subrange(1, s.len() as int));
    }
}

impl Clone for Val {
    /// A deep copy: the clone holds the same data as the original.
    fn clone(&self) -> (res: Self)
        ensures
            dview(res) == dview(*self),
        decreases *self,
    {
        match self {
            Val::Null => Val::Null,
            Val::Bool(b) => Val::Bool(*b),
            Val::Int(i) => Val::Int(*i),
            Val::Str(s) => Val::Str(s.clone()),
            Val::Arr(a) => {
                let mut out: Vec<Val> = Vec::new();
                let mut i: usize = 0;
                while i < a.len()
                    invariant
                        i <= a.len(),
                        out@.len() == i as int,
                        forall|j: int| 0 <= j < i ==> dview(#[trigger] out@[j]) == dview(a@[j]),
                        *self == Val::Arr(*a),
                    decreases a.len() - i,
                {
                    proof {
                        assert(decreases_to!(*self => (*self)->Arr_0));
                        assert((*self)->Arr_0 == *a);
                    }
                    out.push(a[i].clone());
                    i = i + 1;
                }
                proof {
                    lemma_dview_seq(out@);
                    lemma_dview_seq(a@);
                    assert(dview_seq(out@) =~= dview_seq(a@));
                }
                Val::Arr(out)
            },
            Val::Obj(f) => {
                let mut out: Vec<(String, Val)> = Vec::new();
                let mut i: usize = 0;
                while i < f.len()
                    invariant
                        i <= f.len(),
                        out@.len() == i as int,
                        forall|j: int| 0 <= j < i ==> (#[trigger] out@[j]).0@ == f@[j].0@
                            && dview(out@[j].1) == dview(f@[j].1),
                        *self == Val::Obj(*f),
                    decreases f.len() - i,
                {
                    proof {
                        assert(decreases_to!(*self => (*self)->Obj_0));
                        assert((*self)->Obj_0 == *f);
                    }
                    let pair = &f[i];
                    out.push((pair.0.clone(), pair.1.clone()));
                    i = i + 1;
                }
                proof {
                    lemma_dview_fields(out@);
                    lemma_dview_fields(f@);
                    assert(dview_fields(out@) =~= dview_fields(f@));
                }
                Val::Obj(out)
            },
        }
    }
}

/// A deep copy of a document sequence, element by element.
pub fn clone_docs(docs: &Vec<Val>) -> (r: Vec<Val>)
    ensures
        dview_seq(r@) == dview_seq(docs@),
{
    let mut out: Vec<Val> = Vec::new();
    let mut i: usize = 0;
    while i < docs.len()
        invariant
            i <= docs@.len(),
            out@.len() == i as int,
            forall|j: int| 0 <= j < i ==> dview(#[trigger] out@[j]) == dview(docs@[j]),
        decreases docs@.len() - i,
    {
        out.push(docs[i].clone());
        i = i + 1;
    }
    proof {
        lemma_dview_seq(out@);
        lemma_dview_seq(docs@);
        assert(dview_seq(out@) =~= dview_seq(docs@));
    }
    out
}

/// The value of the first field named `key`, if any.
pub open spec fn obj_lookup(fields: Seq<(String, Val)>, key: Seq<char>) -> Option<Val>
    decreases fields.len(),
{
    if fields.len() == 0 {
        None
    } else if fields[0].0@ == key {
        Some(fields[0].1)
    } else {
        obj_lookup(fields.drop_first(), key)
    }
}

proof fn lemma_obj_lookup_at(fields: Seq<(String, Val)>, key: Seq<char>, i: int)
    requires
        0 <= i < fields.len(),
        fields[i].0@ == key,
        forall|j: int| 0 <= j < i ==> fields[j].0@ != key,
    ensures
        obj_lookup(fields, key) == Some(fields[i].1),
    decreases i,
{
    if i > 0 {
        lemma_obj_lookup_at(fields.drop_first(), key, i - 1);
    }
}

proof fn lemma_obj_lookup_none(fields: Seq<(String, Val)>, key: Seq<char>)
    requires
        forall|j: int| 0 <= j < fields.len() ==> fields[j].0@ != key,
    ensures
        obj_lookup(fields, key) is None,
    decreases fields.len(),
{
    if fields.len() > 0 {
        lemma_obj_lookup_none(fields.drop_first(), key);
    }
}

/// The index of the first field named `key`, together with what that means
/// for `obj_lookup`.
pub fn find_field_index(fields: &Vec<(String, Val)>, key: &String) -> (r: Option<usize>)
    ensures
        (match r {
            Some(i) => {
                &&& i < fields@.len()
                &&& fields@[i as int].0@ == key@
                &&& forall|j: int| 0 <= j < i ==> fields@[j].0@ != key@
                &&& obj_lookup(fields@, key@) == Some(fields@[i as int].1)
            },
            None => obj_lookup(fields@, key@) is None,
        }),
{
    let mut i: usize = 0;
    while i < fields.len()
        invariant
            i <= fields@.len(),
            forall|j: int| 0 <= j < i ==> fields@[j].0@ != key@,
        decreases fields@.len() - i,
    {
        if fields[i].0 == *key {
            proof {
                lemma_obj_lookup_at(fields@, key@, i as int);
            }
            return Some(i);
        }
        i = i + 1;
    }
    proof {
        lemma_obj_lookup_none(fields@, key@);
    }
    None
}

} // verus!
