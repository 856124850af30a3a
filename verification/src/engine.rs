use vstd::prelude::*;

use rand::distr::Alphanumeric;
use rand::RngExt;

use crate::error::Error;
use crate::query::Query;
use crate::router::{BackendSlot, VersionRouter};
use crate::value::Val;

verus! {

/// An execute request as it arrives at the boundary: the fixture dataset to
/// load (collection name, documents), the query to run, and the backend
/// version tag to run it on.
#[derive(Debug)]
pub struct ExecuteRequest {
    pub schema: Vec<(String, Vec<Val>)>,
    pub query: Query,
    pub version: String,
}

/// What an execution returns: the drained result documents in backend order,
/// and the backend's execution-statistics report for the same operation.
#[derive(Debug)]
pub struct ExecutionResult {
    pub result: Vec<Val>,
    pub execution_stats: Val,
}

/// How an execution ended.  A teardown failure after a successful run never
/// masks the result: it is attached here as auxiliary context instead.
#[derive(Debug)]
pub struct Outcome {
    pub result: Result<ExecutionResult, Error>,
    pub teardown_failure: Option<String>,
}

/// What the driver must do next on the backend, always inside this
/// execution's own namespace.
#[derive(Debug)]
pub enum Action {
    /// Load these documents into this collection.
    Load { collection: String, docs: Vec<Val> },
    /// Run the execution's query against its target collection and drain
    /// every result.
    Run,
    /// Ask the backend for the execution statistics of the equivalent
    /// operation, with the same parameters as the run.
    Explain,
    /// Destroy the whole namespace and everything loaded into it.
    Teardown,
    /// The execution is over; hand this outcome to the caller.
    Finish(Outcome),
}

/// What the backend answered to the previous action (`Begin` starts the
/// exchange).  Error payloads carry the backend's message text.
#[derive(Debug)]
pub enum Event {
    Begin,
    LoadDone(Result<(), String>),
    RunDone(Result<Vec<Val>, String>),
    ExplainDone(Result<Val, String>),
    TeardownDone(Result<(), String>),
}

/// Where an execution stands in its provision/load/run/explain/teardown
/// cycle.
#[derive(Debug, PartialEq, Eq, Structural)]
pub enum Phase {
    Init,
    Loading,
    Running,
    Explaining,
    TearingDown,
    Done,
}

/// One ephemeral execution: an isolated, randomly named namespace, the data
/// still to load, the query, and the progress of the cycle.  The execution
/// decides; the driver performs the backend round trips and reports back.
#[derive(Debug)]
pub struct Execution {
    pub namespace: String,
    pub pending: Vec<(String, Vec<Val>)>,
    pub query: Query,
    pub phase: Phase,
    pub run_docs: Option<Vec<Val>>,
    pub pending_result: Option<Result<ExecutionResult, Error>>,
    pub teardown_attempted: bool,
}

/// A namespace name character: ASCII alphanumeric, one of 62 symbols.
pub open spec fn is_namespace_char(c: char) -> bool {
    ('a' <= c && c <= 'z') || ('A' <= c && c <= 'Z') || ('0' <= c && c <= '9')
}

/// A well-formed namespace name: 30 characters drawn from the 62-symbol
/// alphanumeric alphabet, enough entropy that collision between concurrent
/// executions is negligible.
pub open spec fn is_namespace_name(s: Seq<char>) -> bool {
    s.len() == 30 && (forall|i: int| 0 <= i < s.len() ==> is_namespace_char(#[trigger] s[i]))
}

/// Relies on rand's thread-local generator sampling the `Alphanumeric`
/// distribution, whose every sample is one of the 62 ASCII alphanumeric
/// bytes; nothing is assumed about which ones come out.
#[verifier::external_body]
fn random_namespace_name() -> (r: String)
    ensures
        is_namespace_name(r@),
{
    rand::rng().sample_iter(Alphanumeric).take(30).map(char::from).collect()
}

impl Execution {
    /// The execution's phase never lets the bookkeeping drift: data is fully
    /// loaded before the query runs, a result is pending exactly while the
    /// namespace is being torn down, and nothing reaches `Done` without a
    /// teardown attempt.
    pub open spec fn wf(self) -> bool {
        &&& (self.phase is Init ==> !self.teardown_attempted && self.pending_result is None
            && self.run_docs is None)
        &&& (self.phase is Loading ==> !self.teardown_attempted && self.pending_result is None
            && self.run_docs is None)
        &&& (self.phase is Running ==> self.pending@.len() == 0 && !self.teardown_attempted
            && self.pending_result is None && self.run_docs is None)
        &&& (self.phase is Explaining ==> self.pending@.len() == 0 && !self.teardown_attempted
            && self.pending_result is None && self.run_docs is Some)
        &&& (self.phase is TearingDown ==> self.teardown_attempted && self.pending_result is Some)
        &&& (self.phase is Done ==> self.teardown_attempted)
    }

    /// The event a driver may report in each phase: the answer to the action
    /// the execution last asked for.
    pub open spec fn event_fits(self, ev: Event) -> bool {
        match ev {
            Event::Begin => self.phase is Init,
            Event::LoadDone(_) => self.phase is Loading,
            Event::RunDone(_) => self.phase is Running,
            Event::ExplainDone(_) => self.phase is Explaining,
            Event::TeardownDone(_) => self.phase is TearingDown,
        }
    }
}

/// After `Begin` or a successful load: the next schema entry is handed out
/// for loading, in schema order, or the query runs once the schema is
/// exhausted.
pub open spec fn next_load_rel(pre: Execution, post: Execution, a: Action) -> bool {
    if pre.pending@.len() > 0 {
        &&& a == (Action::Load { collection: pre.pending@[0].0, docs: pre.pending@[0].1 })
        &&& post.phase is Loading
        &&& post.pending@ == pre.pending@.drop_first()
        &&& post.namespace == pre.namespace
        &&& post.query == pre.query
        &&& post.run_docs == pre.run_docs
        &&& post.pending_result == pre.pending_result
        &&& post.teardown_attempted == pre.teardown_attempted
    } else {
        &&& a == Action::Run
        &&& post == (Execution { phase: Phase::Running, ..pre })
    }
}

/// A load or run failure: the error is parked and the namespace is torn down
/// before anything is reported.
pub open spec fn fail_rel(pre: Execution, post: Execution, a: Action, m: String) -> bool {
    &&& a == Action::Teardown
    &&& post == (Execution {
        phase: Phase::TearingDown,
        pending_result: Some(Err(Error::Backend(m))),
        teardown_attempted: true,
        ..pre
    })
}

/// The exact step an execution takes for an event: which action comes out
/// and what the execution looks like afterwards.
pub open spec fn advance_rel(pre: Execution, ev: Event, post: Execution, a: Action) -> bool {
    match ev {
        Event::Begin => next_load_rel(pre, post, a),
        Event::LoadDone(r) => match r {
            Ok(()) => next_load_rel(pre, post, a),
            Err(m) => fail_rel(pre, post, a, m),
        },
        Event::RunDone(r) => match r {
            Ok(docs) => {
                &&& a == Action::Explain
                &&& post == (Execution { phase: Phase::Explaining, run_docs: Some(docs), ..pre })
            },
            Err(m) => fail_rel(pre, post, a, m),
        },
        Event::ExplainDone(r) => match r {
            Ok(stats) => {
                &&& a == Action::Teardown
                &&& post == (Execution {
                    phase: Phase::TearingDown,
                    run_docs: None,
                    pending_result: Some(
                        Ok(
                            ExecutionResult {
                                result: pre.run_docs.unwrap(),
                                execution_stats: stats,
                            },
                        ),
                    ),
                    teardown_attempted: true,
                    ..pre
                })
            },
            Err(m) => {
                &&& a == Action::Teardown
                &&& post == (Execution {
                    phase: Phase::TearingDown,
                    run_docs: None,
                    pending_result: Some(Err(Error::Backend(m))),
                    teardown_attempted: true,
                    ..pre
                })
            },
        },
        Event::TeardownDone(r) => {
            &&& a == Action::Finish(
                Outcome {
                    result: pre.pending_result.unwrap(),
                    teardown_failure: match r {
                        Ok(()) => None,
                        Err(m) => Some(m),
                    },
                },
            )
            &&& post == (Execution { phase: Phase::Done, pending_result: None, ..pre })
        },
    }
}

impl Execution {
    /// One step of the cycle: consumes the driver's event and hands back the
    /// next action.  The namespace and the query never change; an outcome is
    /// only ever finished from the teardown phase, so every exit path —
    /// success, load failure, run failure, explain failure — tears the
    /// namespace down first; and a teardown failure after a successful run
    /// leaves the result intact, attached as auxiliary context.
    pub fn advance(&mut self, ev: Event) -> (a: Action)
        requires
            old(self).wf(),
            old(self).event_fits(ev),
        ensures
            final(self).wf(),
            final(self).namespace == old(self).namespace,
            final(self).query == old(self).query,
            advance_rel(*old(self), ev, *final(self), a),
            (a is Finish ==> old(self).phase is TearingDown && final(self).phase is Done),
    {
        match ev {
            Event::Begin => self.next_load_or_run(),
            Event::LoadDone(r) => match r {
                Ok(()) => self.next_load_or_run(),
                Err(m) => self.fail(m),
            },
            Event::RunDone(r) => match r {
                Ok(docs) => {
                    self.run_docs = Some(docs);
                    self.phase = Phase::Explaining;
                    Action::Explain
                },
                Err(m) => self.fail(m),
            },
            Event::ExplainDone(r) => {
                let taken = self.run_docs.take();
                match r {
                    Ok(stats) => {
                        match taken {
                            Some(docs) => {
                                self.pending_result = Some(
                                    Ok(ExecutionResult { result: docs, execution_stats: stats }),
                                );
                            },
                            None => {
                                proof {
                                    assert(false);
                                }
                            },
                        }
                    },
                    Err(m) => {
                        self.pending_result = Some(Err(Error::Backend(m)));
                    },
                }
                self.phase = Phase::TearingDown;
                self.teardown_attempted = true;
                Action::Teardown
            },
            Event::TeardownDone(r) => {
                let taken = self.pending_result.take();
                let result = match taken {
                    Some(res) => res,
                    None => {
                        proof {
                            assert(false);
                        }
                        Err(Error::Backend(String::new()))
                    },
                };
                self.phase = Phase::Done;
                let teardown_failure = match r {
                    Ok(()) => None,
                    Err(m) => Some(m),
                };
                Action::Finish(Outcome { result, teardown_failure })
            },
        }
    }

    fn next_load_or_run(&mut self) -> (a: Action)
        requires
            old(self).wf(),
            old(self).phase is Init || old(self).phase is Loading,
        ensures
            final(self).wf(),
            final(self).namespace == old(self).namespace,
            final(self).query == old(self).query,
            next_load_rel(*old(self), *final(self), a),
            !(a is Finish),
    {
        if self.pending.len() > 0 {
            let pair = self.pending.remove(0);
            self.phase = Phase::Loading;
            proof {
                assert(self.pending@ =~= old(self).pending@.drop_first());
            }
            Action::Load { collection: pair.0, docs: pair.1 }
        } else {
            self.phase = Phase::Running;
            Action::Run
        }
    }

    fn fail(&mut self, m: String) -> (a: Action)
        requires
            old(self).wf(),
            old(self).phase is Loading || old(self).phase is Running,
        ensures
            final(self).wf(),
            fail_rel(*old(self), *final(self), a, m),
            !(a is Finish),
    {
        self.pending_result = Some(Err(Error::Backend(m)));
        self.phase = Phase::TearingDown;
        self.teardown_attempted = true;
        Action::Teardown
    }
}

/// The cycle is deterministic: one state and one event admit exactly one
/// next action and one next state, observable fields and all.  Two
/// executions given the same schema, query and namespace, whose backends
/// answer alike, therefore take the same steps and return the same results.
pub proof fn lemma_advance_deterministic(
    pre: Execution,
    ev: Event,
    post1: Execution,
    a1: Action,
    post2: Execution,
    a2: Action,
)
    requires
        advance_rel(pre, ev, post1, a1),
        advance_rel(pre, ev, post2, a2),
    ensures
        a1 == a2,
        post1.phase == post2.phase,
        post1.namespace == post2.namespace,
        post1.query == post2.query,
        post1.pending@ == post2.pending@,
        post1.run_docs == post2.run_docs,
        post1.pending_result == post2.pending_result,
        post1.teardown_attempted == post2.teardown_attempted,
{
}

/// Resolves the version and, only if a backend is configured for it, opens an
/// execution in a fresh random namespace.  An unknown or unconfigured
/// version is the client error `VersionNotAvailable` naming the version, and
/// no namespace name is even drawn.
pub fn prepare_execution(router: &VersionRouter, req: ExecuteRequest) -> (r: Result<
    (BackendSlot, Execution),
    Error,
>)
    ensures
        (match router.spec_resolve(req.version@) {
            Some(slot) => r matches Ok((s, ex)) && s == slot && ex.wf() && ex.phase is Init
                && ex.pending == req.schema && ex.query == req.query && is_namespace_name(
                ex.namespace@,
            ),
            None => r matches Err(e) && e == Error::VersionNotAvailable(req.version),
        }),
{
    match router.resolve(&req.version) {
        Some(slot) => {
            let ex = Execution {
                namespace: random_namespace_name(),
                pending: req.schema,
                query: req.query,
                phase: Phase::Init,
                run_docs: None,
                pending_result: None,
                teardown_attempted: false,
            };
            Ok((slot, ex))
        },
        None => Err(Error::VersionNotAvailable(req.version)),
    }
}

} // verus!
