use vstd::map::*;
use vstd::prelude::*;

use crate::value::Val;

verus! {

/// One state-changing backend round trip, as an execution's driver performs
/// it: loading documents into a collection of a namespace, or destroying a
/// namespace whole.  Queries and explains read but never write, so they do
/// not appear here.
pub enum BackendOp {
    Load { namespace: Seq<char>, collection: Seq<char>, docs: Seq<Val> },
    Destroy { namespace: Seq<char> },
}

/// The namespace an operation touches.
pub open spec fn op_namespace(op: BackendOp) -> Seq<char> {
    match op {
        BackendOp::Load { namespace, .. } => namespace,
        BackendOp::Destroy { namespace } => namespace,
    }
}

/// What an operation does to a backend's state, modelled as a map from
/// namespace to collections, each collection holding its documents in load
/// order.  A load appends to its collection, creating the namespace and the
/// collection as needed; a destroy removes the namespace and all data in it.
pub open spec fn apply_op(
    m: Map<Seq<char>, Map<Seq<char>, Seq<Val>>>,
    op: BackendOp,
) -> Map<Seq<char>, Map<Seq<char>, Seq<Val>>> {
    match op {
        BackendOp::Load { namespace, collection, docs } => {
            let cols = if m.contains_key(namespace) {
                m[namespace]
            } else {
                Map::empty()
            };
            let prior = if cols.contains_key(collection) {
                cols[collection]
            } else {
                Seq::empty()
            };
            m.insert(namespace, cols.insert(collection, prior + docs))
        },
        BackendOp::Destroy { namespace } => m.remove(namespace),
    }
}

/// A sequence of operations applied in order.
pub open spec fn apply_ops(
    m: Map<Seq<char>, Map<Seq<char>, Seq<Val>>>,
    ops: Seq<BackendOp>,
) -> Map<Seq<char>, Map<Seq<char>, Seq<Val>>>
    decreases ops.len(),
{
    if ops.len() == 0 {
        m
    } else {
        apply_ops(apply_op(m, ops[0]), ops.drop_first())
    }
}

proof fn lemma_apply_ops_snoc(
    m: Map<Seq<char>, Map<Seq<char>, Seq<Val>>>,
    ops: Seq<BackendOp>,
    op: BackendOp,
)
    ensures
        apply_ops(m, ops.push(op)) == apply_op(apply_ops(m, ops), op),
    decreases ops.len(),
{
    let p = ops.push(op);
    if ops.len() == 0 {
        assert(p[0] == op);
        assert(p.drop_first() =~= Seq::<BackendOp>::empty());
        assert(apply_ops(m, p) == apply_ops(apply_op(m, op), p.drop_first()));
        assert(apply_ops(apply_op(m, op), p.drop_first()) == apply_op(m, op));
        assert(apply_ops(m, ops) == m);
    } else {
        assert(p[0] == ops[0]);
        assert(p.drop_first() =~= ops.drop_first().push(op));
        lemma_apply_ops_snoc(apply_op(m, ops[0]), ops.drop_first(), op);
        assert(apply_ops(m, p) == apply_ops(apply_op(m, ops[0]), ops.drop_first().push(op)));
        assert(apply_ops(m, ops) == apply_ops(apply_op(m, ops[0]), ops.drop_first()));
    }
}

/// Destroying a namespace removes it outright: after the teardown that every
/// execution performs before it finishes, the namespace it created no longer
/// exists in the backend.
pub proof fn lemma_destroy_removes_namespace(
    m: Map<Seq<char>, Map<Seq<char>, Seq<Val>>>,
    ns: Seq<char>,
)
    ensures
        !apply_op(m, BackendOp::Destroy { namespace: ns }).contains_key(ns),
{
}

/// Isolation between concurrent executions: operations that all target one
/// namespace leave every other namespace — existence and contents — exactly
/// as it was.  With distinct random namespaces, no execution can contaminate
/// another's data, so each one's result set derives from its own schema and
/// query alone.
pub proof fn lemma_namespace_isolation(
    m: Map<Seq<char>, Map<Seq<char>, Seq<Val>>>,
    ops: Seq<BackendOp>,
    ns: Seq<char>,
    other: Seq<char>,
)
    requires
        forall|i: int| 0 <= i < ops.len() ==> op_namespace(#[trigger] ops[i]) == ns,
        other != ns,
    ensures
        apply_ops(m, ops).contains_key(other) == m.contains_key(other),
        m.contains_key(other) ==> apply_ops(m, ops)[other] == m[other],
    decreases ops.len(),
{
    if ops.len() > 0 {
        lemma_namespace_isolation(apply_op(m, ops[0]), ops.drop_first(), ns, other);
    }
}

/// An execution is ephemeral: loads into a fresh namespace followed by the
/// destruction of that namespace give the backend back exactly its prior
/// state.  A second execution of the same schema and query against an
/// otherwise idle backend therefore sees an identical backend, and no
/// residual state leaks between independent executions.
pub proof fn lemma_execution_leaves_no_trace(
    m: Map<Seq<char>, Map<Seq<char>, Seq<Val>>>,
    ops: Seq<BackendOp>,
    ns: Seq<char>,
)
    requires
        !m.contains_key(ns),
        forall|i: int| 0 <= i < ops.len() ==> op_namespace(#[trigger] ops[i]) == ns,
    ensures
        apply_ops(m, ops.push(BackendOp::Destroy { namespace: ns })) == m,
{
    let d = BackendOp::Destroy { namespace: ns };
    lemma_apply_ops_snoc(m, ops, d);
    let loaded = apply_ops(m, ops);
    let dropped = apply_op(loaded, d);
    assert_maps_equal!(dropped, m, k => {
        if k != ns {
            lemma_namespace_isolation(m, ops, ns, k);
        }
    });
}

} // verus!
