use open_circuits::model::{Circuit, CircuitMetadata};
use open_circuits::storage::gcp_datastore::format_circuit;
use open_circuits::storage::gcp_datastore::types::{
    BeginTransactionResponse, CommitResponse, Entity, EntityResult, Key, LookupResponse,
    MutationResult, PathElement, QueryResultBatch, RunQueryResponse,
};
use open_circuits::storage::gcp_direct::{
    del_req, enum_req, get_id_from_key, get_req, parse_circuit, put_req, unwrap_resp, GcpDsInterface,
};
use open_circuits::storage::Error;

fn circuit(id: &str, owner: &str) -> Circuit {
    Circuit {
        metadata: CircuitMetadata {
            id: id.to_string(),
            name: "adder".to_string(),
            owner: owner.to_string(),
            desc: "a full adder".to_string(),
            thumbnail: "thumb".to_string(),
            version: "3".to_string(),
        },
        contents: "{gates}".to_string(),
    }
}

fn key(id: Option<&str>) -> Key {
    Key {
        path: Some(vec![PathElement {
            kind: Some("Circuit".to_string()),
            id: id.map(|s| s.to_string()),
            name: None,
        }]),
    }
}

fn entity_of(c: &Circuit) -> EntityResult {
    EntityResult {
        entity: Some(Entity { key: Some(key(Some(&c.metadata.id))), properties: Some(format_circuit(c.clone())) }),
    }
}

fn bad(m: &str) -> Error {
    Error::BadResponse(m.to_string())
}

#[test]
fn direct_key_ids() {
    assert_eq!(get_id_from_key(None), Err(bad("GCP returned empty key")));
    assert_eq!(get_id_from_key(Some(Key { path: None })), Err(bad("GCP returned empty path")));
    assert_eq!(get_id_from_key(Some(Key { path: Some(vec![]) })), Err(bad("GCP returned empty path vec")));
    assert_eq!(get_id_from_key(Some(key(None))), Err(bad("GCP returned empty id")));
    assert_eq!(get_id_from_key(Some(key(Some("4")))), Ok("4".to_string()));
}

#[test]
fn direct_parse() {
    let c = circuit("5", "alice");
    assert_eq!(parse_circuit(entity_of(&c)), Ok((c.metadata.clone(), Some(c.contents.clone()))));
    assert_eq!(parse_circuit(EntityResult { entity: None }), Err(bad("GCP returned empty entity")));
    let no_props = EntityResult { entity: Some(Entity { key: Some(key(Some("1"))), properties: None }) };
    assert_eq!(parse_circuit(no_props), Err(bad("GCP returned empty props")));
    let mut props = format_circuit(c.clone());
    props.remove(1);
    let no_owner = EntityResult { entity: Some(Entity { key: Some(key(Some("1"))), properties: Some(props) }) };
    assert_eq!(parse_circuit(no_owner), Err(bad("GCP returned incomplete entry")));
}

#[test]
fn direct_requests() {
    assert_eq!(get_req("3".to_string()).keys, Some(vec![key(Some("3"))]));
    let q = enum_req(&"bob".to_string()).query.unwrap();
    assert_eq!(q.kind.unwrap()[0].name, Some("Circuit".to_string()));
    assert_eq!(q.filter.unwrap().property_filter.unwrap().value.unwrap().string_value, Some("bob".to_string()));

    let existing = put_req(&circuit("5", "alice"), "t".to_string());
    assert_eq!(existing.transaction, Some("t".to_string()));
    let m = existing.mutations.unwrap().remove(0);
    assert_eq!(m.insert, None);
    assert_eq!(m.upsert, None);
    assert_eq!(m.update, Some(Entity { key: Some(key(Some("5"))), properties: Some(format_circuit(circuit("5", "alice"))) }));

    let fresh = put_req(&circuit("", "alice"), "t".to_string());
    let m = fresh.mutations.unwrap().remove(0);
    assert_eq!(m.update, None);
    assert_eq!(m.insert, Some(Entity { key: Some(key(None)), properties: Some(format_circuit(circuit("", "alice"))) }));

    let d = del_req("9".to_string(), "t".to_string());
    assert_eq!(d.mutations.unwrap()[0].delete, Some(key(Some("9"))));
}

#[test]
fn direct_answers() {
    assert_eq!(unwrap_resp::<(), u8>(Err("down".into())), Err(Error::Other("down".into())));
    let g = GcpDsInterface::new("p".to_string());
    assert_eq!(g.project_id(), "p");
    assert_eq!(g.datastore_url(), None);
    let e = GcpDsInterface::new_emu("p".to_string(), "http://h/".to_string());
    assert_eq!(e.datastore_url(), Some("http://h/".to_string()));

    let c = circuit("5", "alice");
    assert_eq!(g.load_circuit("5".into(), Ok(((), LookupResponse { found: Some(vec![entity_of(&c)]) }))), Ok(c.clone()));
    assert_eq!(g.load_circuit("5".into(), Ok(((), LookupResponse { found: None }))), Err(Error::CircuitIdNotFound("5".into())));
    assert_eq!(
        g.load_circuit("5".into(), Ok(((), LookupResponse { found: Some(vec![]) }))),
        Err(bad("GCP returned unexpected non-empty result list"))
    );
    let mut props = format_circuit(c.clone());
    props.pop();
    let no_contents = EntityResult { entity: Some(Entity { key: Some(key(Some("5"))), properties: Some(props) }) };
    assert_eq!(g.load_circuit("5".into(), Ok(((), LookupResponse { found: Some(vec![no_contents]) }))), Err(bad("GCP No content")));

    let other = circuit("6", "someone");
    let listing = RunQueryResponse { batch: Some(QueryResultBatch { entity_results: Some(vec![entity_of(&c), entity_of(&other)]) }) };
    assert_eq!(g.enumerate_circuits(Ok(((), listing))), Ok(vec![c.metadata.clone(), other.metadata.clone()]));
    assert_eq!(g.enumerate_circuits(Ok(((), RunQueryResponse { batch: None }))), Err(bad("Empty batch")));
    assert_eq!(g.enumerate_circuits(Ok(((), RunQueryResponse { batch: Some(QueryResultBatch { entity_results: None }) }))), Ok(vec![]));

    assert_eq!(GcpDsInterface::init_transaction(Ok(((), BeginTransactionResponse { transaction: Some("t".into()) }))), Ok("t".to_string()));
    assert_eq!(GcpDsInterface::init_transaction(Ok(((), BeginTransactionResponse { transaction: None }))), Err(bad("GCP failed to give transaction")));

    let one = CommitResponse { index_updates: None, mutation_results: Some(vec![MutationResult { key: Some(key(Some("8"))) }]) };
    let m = GcpDsInterface::put(Ok(((), one))).unwrap();
    assert_eq!(GcpDsInterface::put(Ok(((), CommitResponse { index_updates: None, mutation_results: Some(vec![]) }))), Err(bad("GCP returned non-empty mutation list")));
    assert_eq!(GcpDsInterface::put(Ok(((), CommitResponse { index_updates: None, mutation_results: None }))), Err(bad("GCP returned no mutations")));
    let fresh = circuit("", "alice");
    assert_eq!(
        GcpDsInterface::new_circuit(fresh.clone(), Ok(m)),
        Ok(Circuit { metadata: CircuitMetadata { id: "8".into(), ..fresh.metadata.clone() }, ..fresh })
    );
    assert_eq!(GcpDsInterface::update_circuit(Err(bad("x"))), Err(bad("x")));

    let del = |n: Option<i32>| GcpDsInterface::delete_circuit(Ok(((), CommitResponse { index_updates: n, mutation_results: None })));
    assert_eq!(del(Some(0)), Ok(()));
    assert_eq!(del(Some(1)), Ok(()));
    assert_eq!(del(Some(2)), Err(bad("GCP Delete removed too many entries")));
    assert_eq!(del(None), Err(bad("")));
}
