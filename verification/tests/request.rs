use dgraph_client::request::{Mutation, Request, Response};
use std::collections::HashMap;

#[test]
fn default_mutation_is_empty() {
    let mu = Mutation::default();
    assert!(mu.set_json.is_empty());
    assert!(mu.delete_json.is_empty());
    assert!(mu.set_nquads.is_empty());
    assert!(mu.del_nquads.is_empty());
    assert_eq!(mu.cond, "");
    assert!(!mu.commit_now);
    assert_eq!(mu, Mutation::new());
}

#[test]
fn default_response_is_empty() {
    let r = Response::default();
    assert!(r.json.is_empty());
    assert!(r.txn.is_none());
    assert!(r.uids.is_empty());
}

#[test]
fn query_request_carries_state_and_bindings() {
    let mut vars = HashMap::new();
    vars.insert("$name".to_string(), "Alice".to_string());
    let r = Request::query("{ q(func: eq(name, $name)) { uid } }".to_string(), 17, true, true, vars.clone());
    assert_eq!(r.query, "{ q(func: eq(name, $name)) { uid } }");
    assert_eq!(r.start_ts, 17);
    assert!(r.read_only);
    assert!(r.best_effort);
    assert_eq!(r.vars, vars);
    assert!(r.mutations.is_empty());
    assert!(!r.commit_now);
}

#[test]
fn mutation_request_takes_the_commit_flag_of_the_mutation() {
    let mu = Mutation { set_json: b"{\"name\":\"Alice\"}".to_vec(), ..Default::default() };
    let r = Request::mutation(mu, 3);
    assert_eq!(r.start_ts, 3);
    assert_eq!(r.query, "");
    assert!(r.vars.is_empty());
    assert!(!r.read_only);
    assert!(!r.best_effort);
    assert!(!r.commit_now);
    assert_eq!(r.mutations.len(), 1);
    assert_eq!(r.mutations[0].set_json, b"{\"name\":\"Alice\"}".to_vec());
    assert!(!r.mutations[0].commit_now);

    let mu = Mutation { del_nquads: b"<0x1> * * .".to_vec(), commit_now: true, ..Default::default() };
    let r = Request::mutation(mu, 0);
    assert!(r.commit_now);
    assert!(r.mutations[0].commit_now);
    assert_eq!(r.mutations[0].del_nquads, b"<0x1> * * .".to_vec());
}

#[test]
fn upsert_request_forces_the_commit_flag() {
    let mu = Mutation {
        set_nquads: b"uid(p) <name> \"bar\" .".to_vec(),
        cond: "@if(eq(len(p), 1))".to_string(),
        commit_now: false,
        ..Default::default()
    };
    let r = Request::upsert("{ p as var(func: eq(name, \"foo\")) }".to_string(), mu, 9);
    assert_eq!(r.query, "{ p as var(func: eq(name, \"foo\")) }");
    assert_eq!(r.start_ts, 9);
    assert!(r.commit_now);
    assert_eq!(r.mutations.len(), 1);
    assert!(r.mutations[0].commit_now);
    assert_eq!(r.mutations[0].set_nquads, b"uid(p) <name> \"bar\" .".to_vec());
    assert_eq!(r.mutations[0].cond, "@if(eq(len(p), 1))");
    assert!(!r.read_only);
    assert!(!r.best_effort);
    assert!(r.vars.is_empty());
}
