use vstd::prelude::*;
use vstd::string::StringExecFns;

use crate::error::Error;
use crate::value::{
    dview, dview_fields, dview_seq, find_field_index, lemma_dview_fields, lemma_dview_seq,
    obj_lookup, DeepVal, Val,
};

verus! {

/// A read-only query in one of its two shapes: an aggregation pipeline to run
/// against a target collection, or a filter-based find.  The shape is decided
/// once, at the boundary, by `classify`.
#[derive(Debug)]
pub enum Query {
    Aggregate { collection: String, pipeline: Vec<Val> },
    Find { collection: String, filter: Val },
}

impl Query {
    /// The collection the query targets.
    pub open spec fn spec_collection(self) -> Seq<char> {
        match self {
            Query::Aggregate { collection, .. } => collection@,
            Query::Find { collection, .. } => collection@,
        }
    }

    pub fn collection(&self) -> (r: &String)
        ensures
            r@ == self.spec_collection(),
    {
        match self {
            Query::Aggregate { collection, .. } => collection,
            Query::Find { collection, .. } => collection,
        }
    }
}

/// The explain command equivalent to a query: the operation wrapped under
/// `explain`, at `executionStats` verbosity, with exactly the run's own
/// target and pipeline or filter.
pub open spec fn spec_explain_command(q: Query) -> DeepVal {
    match q {
        Query::Aggregate { collection, pipeline } => DeepVal::Obj(
            seq![
                (
                    "explain"@,
                    DeepVal::Obj(
                        seq![
                            ("aggregate"@, DeepVal::Str(collection@)),
                            ("pipeline"@, DeepVal::Arr(dview_seq(pipeline@))),
                            ("cursor"@, DeepVal::Obj(Seq::empty())),
                        ],
                    ),
                ),
                ("verbosity"@, DeepVal::Str("executionStats"@)),
            ],
        ),
        Query::Find { collection, filter } => DeepVal::Obj(
            seq![
                (
                    "explain"@,
                    DeepVal::Obj(
                        seq![
                            ("find"@, DeepVal::Str(collection@)),
                            ("filter"@, dview(filter)),
                        ],
                    ),
                ),
                ("verbosity"@, DeepVal::Str("executionStats"@)),
            ],
        ),
    }
}

impl Query {
    /// Builds the command that asks the backend to explain the operation
    /// equivalent to this query at `executionStats` verbosity.  The
    /// statistics round trip is independent of the run, so representative
    /// statistics need identical parameters: the command embeds this query's
    /// own target and its own pipeline or filter, unchanged.
    pub fn explain_command(&self) -> (r: Val)
        ensures
            dview(r) == spec_explain_command(*self),
    {
        match self {
            Query::Aggregate { collection, pipeline } => {
                let inner: Vec<(String, Val)> = vec![
                    (String::from_str("aggregate"), Val::Str(collection.clone())),
                    (String::from_str("pipeline"), Val::Arr(crate::value::clone_docs(pipeline))),
                    (String::from_str("cursor"), Val::Obj(Vec::new())),
                ];
                let outer: Vec<(String, Val)> = vec![
                    (String::from_str("explain"), Val::Obj(inner)),
                    (
                        String::from_str("verbosity"),
                        Val::Str(String::from_str("executionStats")),
                    ),
                ];
                let r = Val::Obj(outer);
                proof {
                    lemma_dview_fields(outer@);
                    lemma_dview_fields(inner@);
                    lemma_dview_fields(Seq::<(String, Val)>::empty());
                    assert(dview_fields(inner@) =~= spec_explain_command(*self)->Obj_0[0].1->Obj_0);
                    assert(dview_fields(outer@) =~= spec_explain_command(*self)->Obj_0);
                }
                r
            },
            Query::Find { collection, filter } => {
                let inner: Vec<(String, Val)> = vec![
                    (String::from_str("find"), Val::Str(collection.clone())),
                    (String::from_str("filter"), filter.clone()),
                ];
                let outer: Vec<(String, Val)> = vec![
                    (String::from_str("explain"), Val::Obj(inner)),
                    (
                        String::from_str("verbosity"),
                        Val::Str(String::from_str("executionStats")),
                    ),
                ];
                let r = Val::Obj(outer);
                proof {
                    lemma_dview_fields(outer@);
                    lemma_dview_fields(inner@);
                    assert(dview_fields(inner@) =~= spec_explain_command(*self)->Obj_0[0].1->Obj_0);
                    assert(dview_fields(outer@) =~= spec_explain_command(*self)->Obj_0);
                }
                r
            },
        }
    }
}

/// Every pipeline stage is itself a document.
pub open spec fn all_stage_docs(stages: Seq<Val>) -> bool {
    forall|i: int| 0 <= i < stages.len() ==> stages[i] is Obj
}

/// The find-shaped reading of a request document: a `find` field holding the
/// target collection name and a `filter` field holding a document.
pub open spec fn find_query_of(fields: Seq<(String, Val)>) -> Option<Query> {
    match (obj_lookup(fields, "find"@), obj_lookup(fields, "filter"@)) {
        (Some(Val::Str(c)), Some(Val::Obj(f))) => Some(
            Query::Find { collection: c, filter: Val::Obj(f) },
        ),
        _ => None,
    }
}

/// The query encoded by a request document.  The aggregate shape (an
/// `aggregate` string plus a `pipeline` array of documents) takes precedence;
/// otherwise the find shape is tried; any other shape is malformed.
pub open spec fn query_of(v: Val) -> Option<Query> {
    match v {
        Val::Obj(fields) => match (
            obj_lookup(fields@, "aggregate"@),
            obj_lookup(fields@, "pipeline"@),
        ) {
            (Some(Val::Str(c)), Some(Val::Arr(stages))) => if all_stage_docs(stages@) {
                Some(Query::Aggregate { collection: c, pipeline: stages })
            } else {
                find_query_of(fields@)
            },
            _ => find_query_of(fields@),
        },
        _ => None,
    }
}

fn all_docs(stages: &Vec<Val>) -> (r: bool)
    ensures
        r == all_stage_docs(stages@),
{
    let mut i: usize = 0;
    while i < stages.len()
        invariant
            i <= stages@.len(),
            forall|j: int| 0 <= j < i ==> stages@[j] is Obj,
        decreases stages@.len() - i,
    {
        match &stages[i] {
            Val::Obj(_) => {},
            _ => {
                return false;
            },
        }
        i = i + 1;
    }
    true
}

/// Pulls the fields at two distinct indexes out of a field list, leaving the
/// rest behind.
fn take_two(fields: Vec<(String, Val)>, i: usize, j: usize) -> (r: ((String, Val), (String, Val)))
    requires
        i < fields@.len(),
        j < fields@.len(),
        i != j,
    ensures
        r.0 == fields@[i as int],
        r.1 == fields@[j as int],
{
    let mut fields = fields;
    if i < j {
        let second = fields.remove(j);
        let first = fields.remove(i);
        (first, second)
    } else {
        let first = fields.remove(i);
        let second = fields.remove(j);
        (first, second)
    }
}

/// Decides the shape of a request document, once, at the boundary: the
/// aggregate reading wins where both apply, and a document with neither shape
/// is a malformed-query client error.
pub fn classify(v: Val) -> (r: Result<Query, Error>)
    ensures
        (query_of(v) matches Some(q) ==> r matches Ok(rq) && rq == q),
        (query_of(v) is None ==> (r matches Err(e) && e == Error::MalformedQuery)),
{
    match v {
        Val::Obj(fields) => classify_fields(fields),
        _ => Err(Error::MalformedQuery),
    }
}

fn classify_fields(fields: Vec<(String, Val)>) -> (r: Result<Query, Error>)
    ensures
        (query_of(Val::Obj(fields)) matches Some(q) ==> r matches Ok(rq) && rq == q),
        (query_of(Val::Obj(fields)) is None ==> (r matches Err(e) && e == Error::MalformedQuery)),
{
    let agg_key = String::from_str("aggregate");
    let pipe_key = String::from_str("pipeline");
    if let (Some(ia), Some(ip)) = (
        find_field_index(&fields, &agg_key),
        find_field_index(&fields, &pipe_key),
    ) {
        let agg_is_str = match &fields[ia].1 {
            Val::Str(_) => true,
            _ => false,
        };
        let pipe_is_docs = match &fields[ip].1 {
            Val::Arr(stages) => all_docs(stages),
            _ => false,
        };
        if agg_is_str && pipe_is_docs {
            proof {
                reveal_strlit("aggregate");
                reveal_strlit("pipeline");
                assert(ia != ip);
            }
            let (agg_pair, pipe_pair) = take_two(fields, ia, ip);
            match (agg_pair.1, pipe_pair.1) {
                (Val::Str(collection), Val::Arr(pipeline)) => {
                    return Ok(Query::Aggregate { collection, pipeline });
                },
                _ => {
                    proof {
                        assert(false);
                    }
                    return Err(Error::MalformedQuery);
                },
            }
        }
    }
    classify_find(fields)
}

fn classify_find(fields: Vec<(String, Val)>) -> (r: Result<Query, Error>)
    requires
        !(query_of(Val::Obj(fields)) matches Some(q) && q is Aggregate),
    ensures
        (query_of(Val::Obj(fields)) matches Some(q) ==> r matches Ok(rq) && rq == q),
        (query_of(Val::Obj(fields)) is None ==> (r matches Err(e) && e == Error::MalformedQuery)),
{
    let find_key = String::from_str("find");
    let filter_key = String::from_str("filter");
    if let (Some(i_f), Some(i_l)) = (
        find_field_index(&fields, &find_key),
        find_field_index(&fields, &filter_key),
    ) {
        let find_is_str = match &fields[i_f].1 {
            Val::Str(_) => true,
            _ => false,
        };
        let filter_is_doc = match &fields[i_l].1 {
            Val::Obj(_) => true,
            _ => false,
        };
        if find_is_str && filter_is_doc {
            proof {
                reveal_strlit("find");
                reveal_strlit("filter");
                assert(i_f != i_l);
            }
            let (find_pair, filter_pair) = take_two(fields, i_f, i_l);
            match (find_pair.1, filter_pair.1) {
                (Val::Str(collection), Val::Obj(filter_fields)) => {
                    return Ok(Query::Find { collection, filter: Val::Obj(filter_fields) });
                },
                _ => {
                    proof {
                        assert(false);
                    }
                    return Err(Error::MalformedQuery);
                },
            }
        }
    }
    Err(Error::MalformedQuery)
}

} // verus!
