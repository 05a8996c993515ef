use dgraph_client::context::TxnContext;
use dgraph_client::request::{Mutation, Response};
use dgraph_client::DgraphClient;
use serde_json::Value;
use std::collections::HashMap;

fn local_dgraph_client() -> DgraphClient<String> {
    let addr = "localhost";
    let port = 9080;
    DgraphClient::new(vec![format!("{}:{}", addr, port)])
}

fn server_context(start_ts: u64, keys: &[&str]) -> TxnContext {
    TxnContext {
        start_ts,
        commit_ts: 0,
        aborted: false,
        keys: keys.iter().map(|k| k.to_string()).collect(),
        preds: vec!["node_key".to_string(), "process_name".to_string()],
    }
}

fn server_answer(json: &str, txn: TxnContext) -> Response {
    Response { json: json.as_bytes().to_vec(), txn: Some(txn), uids: HashMap::new() }
}

// This is a basic smoke test - query for node_key, assert we get a response
#[test]
fn test_query() {
    println!("Connecting to local dg");
    let dg = local_dgraph_client();
    let mut txn = dg.new_txn();
    println!("Querying local dg");
    let request = txn
        .query(
            r#"
                {
                  q0(func: has(node_key)) {
                    uid
                  }
                }
            "#,
        )
        .expect("Dgraph query failed");
    assert_eq!(*txn.endpoint(), "localhost:9080");
    let reply = server_answer(r#"{"q0":[{"uid":"0x1"}]}"#, server_context(1001, &[]));
    let query_res: Value = txn
        .complete(request.commit_now, Ok(reply))
        .result
        .map(|res| serde_json::from_slice(&res.json))
        .expect("Dgraph query failed")
        .expect("Json deserialize failed");

    // Assert that we get the response back
    assert!(query_res.as_object().unwrap().contains_key("q0"));
}

#[test]
fn test_upsert() {
    let dg = local_dgraph_client();

    let query = r#"
                {
                  p as var(func: eq(node_key, "{453120d4-5c9f-43f6-b7af-28b376b3a993}"))
                }
                "#;

    let mut j_mut = serde_json::Map::new();
    j_mut.insert("uid".to_string(), Value::from("uid(p)"));
    j_mut.insert("node_key".to_string(), Value::from("{453120d4-5c9f-43f6-b7af-28b376b3a993}"));
    j_mut.insert("process_name".to_string(), Value::from("bar.exe"));
    let j_mut = Value::Object(j_mut);

    let mu = Mutation { set_json: j_mut.to_string().into_bytes(), ..Default::default() };
    let mut txn = dg.new_txn();
    let request = txn.upsert(query, mu).expect("Request to dgraph failed");
    assert_eq!(request.query, query);
    assert!(request.commit_now);
    assert_eq!(request.mutations.len(), 1);
    assert!(request.mutations[0].commit_now);
    let sent: Value = serde_json::from_slice(&request.mutations[0].set_json).unwrap();
    assert_eq!(sent, j_mut);

    let reply = server_answer("{}", server_context(2002, &["1234"]));
    let txn_res = txn.complete(request.commit_now, Ok(reply)).result.expect("Request to dgraph failed");
    assert_eq!(txn_res.json, b"{}".to_vec());

    assert!(txn.is_finished());
    assert!(txn.commit_or_abort().is_none());
}

#[test]
fn test_txn_query_mutate() {
    let dg = local_dgraph_client();

    let query = r#"
                {
                  q0(func: eq(node_key, "{453120d4-5c9f-43f6-b7af-28b376b3a993}")) {
                    uid
                  }
                }
                "#;

    let mut txn = dg.new_read_only();

    let request = txn.query(query).expect("query");
    assert!(request.read_only);
    let reply = server_answer(r#"{"q0":[{"uid":"0x2a"}]}"#, server_context(3003, &[]));
    let query_res: Value = txn
        .complete(request.commit_now, Ok(reply))
        .result
        .map(|res| serde_json::from_slice(&res.json))
        .expect("query")
        .expect("json");

    let uid = query_res
        .get("q0")
        .and_then(|res| res.get(0))
        .and_then(|uid| uid.get("uid"))
        .and_then(|uid| uid.as_str());
    assert_eq!(uid, Some("0x2a"));

    let mut set = serde_json::Map::new();
    set.insert("node_key".to_string(), Value::from("{453120d4-5c9f-43f6-b7af-28b376b3a993}"));
    set.insert("process_name".to_string(), Value::from("bar.exe"));
    let mut set = Value::Object(set);

    if let Some(uid) = uid {
        set["uid"] = uid.into();
    }
    let j_mut = set;

    let mu = Mutation { set_json: j_mut.to_string().into_bytes(), ..Default::default() };
    let mut txn = dg.new_txn();
    let request = txn.mutate(mu).expect("Request to dgraph failed");
    assert!(!request.commit_now);
    let reply = server_answer("{}", server_context(3004, &["1234"]));
    let txn_res = txn.complete(request.commit_now, Ok(reply)).result.expect("Request to dgraph failed");
    assert_eq!(txn_res.txn.as_ref().map(|c| c.start_ts), Some(3004));

    let commit = txn.commit_or_abort().unwrap();
    assert_eq!(commit.start_ts, 3004);
    assert_eq!(commit.keys, vec!["1234"]);
    assert!(!commit.aborted);
    assert!(txn.is_finished());
    assert!(txn.is_mutated());

    let mut txn = dg.new_read_only();

    let request = txn.query(query).expect("query");
    let reply = server_answer(r#"{"q0":[{"uid":"0x2a"}]}"#, server_context(3005, &[]));
    let query_res: Value = txn
        .complete(request.commit_now, Ok(reply))
        .result
        .map(|res| serde_json::from_slice(&res.json))
        .expect("query")
        .expect("json");
    assert!(query_res.as_object().unwrap().contains_key("q0"));
}

#[test]
fn mutate_then_commit_sends_one_commit_with_every_key() {
    let dg = local_dgraph_client();
    let mut txn = dg.new_txn();
    let mut commits: Vec<TxnContext> = Vec::new();

    let mu = Mutation { set_json: br#"{"uid":"0x1","name":"a"}"#.to_vec(), commit_now: false, ..Default::default() };
    let request = txn.mutate(mu).unwrap();
    let reply = server_answer("{}", server_context(4004, &["1234"]));
    let done = txn.complete(request.commit_now, Ok(reply));
    commits.extend(done.abort);
    done.result.unwrap();

    commits.extend(txn.commit().unwrap());
    commits.extend(txn.discard());
    commits.extend(txn.commit_or_abort());

    assert_eq!(commits.len(), 1);
    assert_eq!(commits[0].start_ts, 4004);
    assert_eq!(commits[0].keys, vec!["1234"]);
    assert!(!commits[0].aborted);
    assert!(txn.is_finished());
    assert!(txn.is_mutated());
}
