use std::collections::HashMap;

use mqlfiddle::engine::{
    prepare_execution, Action, Event, ExecuteRequest, Execution, Outcome, Phase,
};
use mqlfiddle::error::Error;
use mqlfiddle::query::Query;
use mqlfiddle::router::{BackendSlot, VersionRouter};
use mqlfiddle::value::Val;

fn s(text: &str) -> Val {
    Val::Str(text.to_string())
}

fn obj(fields: Vec<(&str, Val)>) -> Val {
    Val::Obj(fields.into_iter().map(|(k, v)| (k.to_string(), v)).collect())
}

/// A stand-in for one backend instance: namespaces holding collections
/// holding documents.
struct FakeBackend {
    namespaces: HashMap<String, HashMap<String, Vec<Val>>>,
}

impl FakeBackend {
    fn new() -> FakeBackend {
        FakeBackend { namespaces: HashMap::new() }
    }

    fn insert(&mut self, ns: &str, collection: String, docs: &[Val]) {
        self.namespaces
            .entry(ns.to_string())
            .or_default()
            .entry(collection)
            .or_default()
            .extend(docs.iter().cloned());
    }
}

/// What the scripted backend answers with.
struct Script {
    fail_load_on: Option<String>,
    run: Result<Vec<Val>, String>,
    explain: Result<Val, String>,
    teardown_ok: bool,
}

impl Script {
    fn ok(run: Vec<Val>, explain: Val) -> Script {
        Script { fail_load_on: None, run: Ok(run), explain: Ok(explain), teardown_ok: true }
    }
}

/// Drives one execution against the fake backend, performing each action the
/// engine asks for and reporting the result back, until the engine finishes.
fn drive(
    ex: &mut Execution,
    backend: &mut FakeBackend,
    script: &Script,
) -> (Outcome, Vec<(String, Vec<Val>)>) {
    let mut loaded: Vec<(String, Vec<Val>)> = Vec::new();
    let mut ev = Event::Begin;
    loop {
        match ex.advance(ev) {
            Action::Load { collection, docs } => {
                if script.fail_load_on.as_deref() == Some(collection.as_str()) {
                    ev = Event::LoadDone(Err("load failed".to_string()));
                } else {
                    backend.insert(&ex.namespace.clone(), collection.clone(), &docs);
                    loaded.push((collection, docs));
                    ev = Event::LoadDone(Ok(()));
                }
            }
            Action::Run => {
                ev = Event::RunDone(script.run.clone());
            }
            Action::Explain => {
                ev = Event::ExplainDone(script.explain.clone());
            }
            Action::Teardown => {
                backend.namespaces.remove(&ex.namespace);
                ev = Event::TeardownDone(if script.teardown_ok {
                    Ok(())
                } else {
                    Err("teardown failed".to_string())
                });
            }
            Action::Finish(outcome) => return (outcome, loaded),
        }
    }
}

fn execution(ns: &str, schema: Vec<(&str, Vec<Val>)>, query: Query) -> Execution {
    Execution {
        namespace: ns.to_string(),
        pending: schema.into_iter().map(|(k, v)| (k.to_string(), v)).collect(),
        query,
        phase: Phase::Init,
        run_docs: None,
        pending_result: None,
        teardown_attempted: false,
    }
}

fn lookup_scenario() -> (Vec<(&'static str, Vec<Val>)>, Query) {
    let schema = vec![
        ("foo", vec![obj(vec![("a", Val::Int(1))]), obj(vec![("a", Val::Int(2))])]),
        ("bar", vec![obj(vec![("b", Val::Int(1))]), obj(vec![("b", Val::Int(2))])]),
    ];
    let query = Query::Aggregate {
        collection: "foo".to_string(),
        pipeline: vec![
            obj(vec![(
                "$lookup",
                obj(vec![
                    ("from", s("bar")),
                    ("as", s("bar")),
                    ("pipeline", Val::Arr(vec![])),
                ]),
            )]),
            obj(vec![("$addFields", obj(vec![("c", s("abc"))]))]),
        ],
    };
    (schema, query)
}

fn bar_docs() -> Val {
    Val::Arr(vec![obj(vec![("b", Val::Int(1))]), obj(vec![("b", Val::Int(2))])])
}

#[test]
fn lookup_scenario_runs_whole_cycle() {
    let (schema, query) = lookup_scenario();
    let expected = vec![
        obj(vec![("a", Val::Int(1)), ("bar", bar_docs()), ("c", s("abc"))]),
        obj(vec![("a", Val::Int(2)), ("bar", bar_docs()), ("c", s("abc"))]),
    ];
    let stats = obj(vec![("stages", Val::Arr(vec![obj(vec![("$cursor", obj(vec![]))])]))]);
    let mut ex = execution("ephemeral_ns_one", schema, query);
    let mut backend = FakeBackend::new();
    let script = Script::ok(expected.clone(), stats.clone());
    let (outcome, loaded) = drive(&mut ex, &mut backend, &script);

    // Every schema entry was loaded, in order, into the execution's own namespace.
    assert_eq!(loaded.len(), 2);
    assert_eq!(loaded[0].0, "foo");
    assert_eq!(loaded[0].1, vec![obj(vec![("a", Val::Int(1))]), obj(vec![("a", Val::Int(2))])]);
    assert_eq!(loaded[1].0, "bar");

    // The result set and the statistics pass through untouched.
    let result = outcome.result.expect("the execution should succeed");
    assert_eq!(result.result, expected);
    assert_eq!(result.execution_stats, stats);
    assert_eq!(outcome.teardown_failure, None);

    // The namespace no longer exists.
    assert!(!backend.namespaces.contains_key("ephemeral_ns_one"));
    assert!(backend.namespaces.is_empty());
}

#[test]
fn empty_schema_skips_straight_to_the_run() {
    let query = Query::Find { collection: "c".to_string(), filter: obj(vec![]) };
    let mut ex = execution("ephemeral_ns_two", vec![], query);
    assert!(matches!(ex.advance(Event::Begin), Action::Run));
}

#[test]
fn empty_document_list_is_loaded_as_a_no_op_entry() {
    let query = Query::Find { collection: "c".to_string(), filter: obj(vec![]) };
    let mut ex = execution("ephemeral_ns_three", vec![("c", vec![])], query);
    match ex.advance(Event::Begin) {
        Action::Load { collection, docs } => {
            assert_eq!(collection, "c");
            assert!(docs.is_empty());
        }
        other => panic!("expected a load, got {:?}", other),
    }
}

#[test]
fn namespace_is_destroyed_on_the_load_failure_path() {
    let (schema, query) = lookup_scenario();
    let mut ex = execution("ephemeral_ns_four", schema, query);
    let mut backend = FakeBackend::new();
    let script = Script {
        fail_load_on: Some("bar".to_string()),
        run: Ok(vec![]),
        explain: Ok(obj(vec![])),
        teardown_ok: true,
    };
    let (outcome, loaded) = drive(&mut ex, &mut backend, &script);
    // Partial data had been loaded, yet the namespace is gone.
    assert_eq!(loaded.len(), 1);
    assert!(!backend.namespaces.contains_key("ephemeral_ns_four"));
    match outcome.result {
        Err(Error::Backend(m)) => assert_eq!(m, "load failed"),
        other => panic!("expected the load error, got {:?}", other),
    }
}

#[test]
fn run_failure_surfaces_after_teardown() {
    let (schema, query) = lookup_scenario();
    let mut ex = execution("ephemeral_ns_five", schema, query);
    let mut backend = FakeBackend::new();
    let script = Script {
        fail_load_on: None,
        run: Err("bad pipeline stage".to_string()),
        explain: Ok(obj(vec![])),
        teardown_ok: true,
    };
    let (outcome, _) = drive(&mut ex, &mut backend, &script);
    assert!(backend.namespaces.is_empty());
    match outcome.result {
        Err(Error::Backend(m)) => assert_eq!(m, "bad pipeline stage"),
        other => panic!("expected the run error, got {:?}", other),
    }
    assert_eq!(outcome.teardown_failure, None);
}

#[test]
fn explain_failure_surfaces_after_teardown() {
    let (schema, query) = lookup_scenario();
    let mut ex = execution("ephemeral_ns_six", schema, query);
    let mut backend = FakeBackend::new();
    let script = Script {
        fail_load_on: None,
        run: Ok(vec![obj(vec![("a", Val::Int(1))])]),
        explain: Err("explain rejected".to_string()),
        teardown_ok: true,
    };
    let (outcome, _) = drive(&mut ex, &mut backend, &script);
    assert!(backend.namespaces.is_empty());
    match outcome.result {
        Err(Error::Backend(m)) => assert_eq!(m, "explain rejected"),
        other => panic!("expected the explain error, got {:?}", other),
    }
}

#[test]
fn teardown_failure_does_not_mask_a_successful_result() {
    let (schema, query) = lookup_scenario();
    let docs = vec![obj(vec![("a", Val::Int(1))])];
    let mut ex = execution("ephemeral_ns_seven", schema, query);
    let mut backend = FakeBackend::new();
    let script = Script {
        fail_load_on: None,
        run: Ok(docs.clone()),
        explain: Ok(obj(vec![("ok", Val::Int(1))])),
        teardown_ok: false,
    };
    let (outcome, _) = drive(&mut ex, &mut backend, &script);
    let result = outcome.result.expect("the result must not be masked");
    assert_eq!(result.result, docs);
    assert_eq!(outcome.teardown_failure, Some("teardown failed".to_string()));
}

#[test]
fn teardown_failure_after_a_query_error_keeps_the_original_error() {
    let (schema, query) = lookup_scenario();
    let mut ex = execution("ephemeral_ns_eight", schema, query);
    let mut backend = FakeBackend::new();
    let script = Script {
        fail_load_on: None,
        run: Err("original error".to_string()),
        explain: Ok(obj(vec![])),
        teardown_ok: false,
    };
    let (outcome, _) = drive(&mut ex, &mut backend, &script);
    match outcome.result {
        Err(Error::Backend(m)) => assert_eq!(m, "original error"),
        other => panic!("expected the original error, got {:?}", other),
    }
    assert_eq!(outcome.teardown_failure, Some("teardown failed".to_string()));
}

#[test]
fn repeating_an_execution_sees_an_identical_backend_and_equal_results() {
    let mut backend = FakeBackend::new();
    let stats = obj(vec![("plan", s("collscan"))]);
    let docs = vec![obj(vec![("x", Val::Int(7))])];
    let mut results = Vec::new();
    for ns in ["first_random_namespace", "second_random_namespace"] {
        assert!(backend.namespaces.is_empty());
        let query = Query::Find { collection: "c".to_string(), filter: obj(vec![]) };
        let schema = vec![("c", vec![obj(vec![("x", Val::Int(7))])])];
        let mut ex = execution(ns, schema, query);
        let script = Script::ok(docs.clone(), stats.clone());
        let (outcome, _) = drive(&mut ex, &mut backend, &script);
        results.push(outcome.result.expect("success").result);
        // No residual state survives the execution.
        assert!(backend.namespaces.is_empty());
    }
    assert_eq!(results[0], results[1]);
}

#[test]
fn interleaved_executions_stay_isolated() {
    let mut backend = FakeBackend::new();
    let d1 = vec![obj(vec![("x", Val::Int(1))])];
    let d2 = vec![obj(vec![("y", Val::Int(2))])];
    let q1 = Query::Find { collection: "one".to_string(), filter: obj(vec![]) };
    let q2 = Query::Find { collection: "two".to_string(), filter: obj(vec![]) };
    let mut ex1 = execution("namespace_aaaaaaaaaaaaaaaaaaaaaa", vec![("one", d1.clone())], q1);
    let mut ex2 = execution("namespace_bbbbbbbbbbbbbbbbbbbbbb", vec![("two", d2.clone())], q2);

    // Interleave: both load, then both run reading only their own namespace.
    let (c1, docs1) = match ex1.advance(Event::Begin) {
        Action::Load { collection, docs } => (collection, docs),
        other => panic!("expected a load, got {:?}", other),
    };
    backend.insert(&ex1.namespace.clone(), c1, &docs1);
    let (c2, docs2) = match ex2.advance(Event::Begin) {
        Action::Load { collection, docs } => (collection, docs),
        other => panic!("expected a load, got {:?}", other),
    };
    backend.insert(&ex2.namespace.clone(), c2, &docs2);

    // Mid-flight, each namespace holds only its own execution's data.
    assert_eq!(backend.namespaces[&ex1.namespace]["one"], d1);
    assert_eq!(backend.namespaces[&ex2.namespace]["two"], d2);
    assert!(!backend.namespaces[&ex1.namespace].contains_key("two"));
    assert!(!backend.namespaces[&ex2.namespace].contains_key("one"));

    // Each run reads its own namespace's target collection only.
    assert!(matches!(ex1.advance(Event::LoadDone(Ok(()))), Action::Run));
    assert!(matches!(ex2.advance(Event::LoadDone(Ok(()))), Action::Run));
    let r1 = backend.namespaces[&ex1.namespace][ex1.query.collection()].clone();
    let r2 = backend.namespaces[&ex2.namespace][ex2.query.collection()].clone();
    assert!(matches!(ex1.advance(Event::RunDone(Ok(r1))), Action::Explain));
    assert!(matches!(ex2.advance(Event::RunDone(Ok(r2))), Action::Explain));
    assert!(matches!(ex1.advance(Event::ExplainDone(Ok(obj(vec![])))), Action::Teardown));
    assert!(matches!(ex2.advance(Event::ExplainDone(Ok(obj(vec![])))), Action::Teardown));
    backend.namespaces.remove(&ex1.namespace);
    let o1 = match ex1.advance(Event::TeardownDone(Ok(()))) {
        Action::Finish(o) => o,
        other => panic!("expected the finish, got {:?}", other),
    };
    backend.namespaces.remove(&ex2.namespace);
    let o2 = match ex2.advance(Event::TeardownDone(Ok(()))) {
        Action::Finish(o) => o,
        other => panic!("expected the finish, got {:?}", other),
    };

    // Each result set derives from its own schema alone.
    assert_eq!(o1.result.expect("success").result, d1);
    assert_eq!(o2.result.expect("success").result, d2);
    assert!(backend.namespaces.is_empty());
}

#[test]
fn unknown_version_is_a_client_error_before_any_namespace_exists() {
    let router = VersionRouter { three_six: false, four_zero: false, four_two: true, four_four: true };
    let req = ExecuteRequest {
        schema: vec![],
        query: Query::Find { collection: "c".to_string(), filter: obj(vec![]) },
        version: "9.9".to_string(),
    };
    match prepare_execution(&router, req) {
        Err(Error::VersionNotAvailable(v)) => {
            assert_eq!(v, "9.9");
            assert_eq!(
                Error::VersionNotAvailable(v).message(),
                "MongoDB 9.9 not available"
            );
        }
        other => panic!("expected a version-not-available error, got {:?}", other),
    }
}

#[test]
fn prepare_draws_a_thirty_character_alphanumeric_namespace() {
    let router = VersionRouter { three_six: true, four_zero: true, four_two: true, four_four: true };
    let req = ExecuteRequest {
        schema: vec![],
        query: Query::Find { collection: "c".to_string(), filter: obj(vec![]) },
        version: "4.4".to_string(),
    };
    let (slot, ex) = prepare_execution(&router, req).expect("the version is configured");
    assert_eq!(slot, BackendSlot::FourFour);
    assert!(matches!(ex.phase, Phase::Init));
    assert_eq!(ex.namespace.chars().count(), 30);
    assert!(ex.namespace.chars().all(|c| c.is_ascii_alphanumeric()));

    let req2 = ExecuteRequest {
        schema: vec![],
        query: Query::Find { collection: "c".to_string(), filter: obj(vec![]) },
        version: "4.4".to_string(),
    };
    let (_, ex2) = prepare_execution(&router, req2).expect("the version is configured");
    assert_ne!(ex.namespace, ex2.namespace);
}
