use open_circuits::model::{Circuit, CircuitMetadata};
use open_circuits::storage::gcp_datastore::requests::{del_req, lookup_req, put_req, query_req};
use open_circuits::storage::gcp_datastore::types::{
    BeginTransactionResponse, CommitResponse, Entity, EntityResult, Key, LookupResponse,
    MutationResult, PathElement, QueryResultBatch, RunQueryResponse, Value,
};
use open_circuits::storage::gcp_datastore::{
    format_circuit, get_id_from_key, parse_circuit, unwrap_resp, Error, GcpDsInterface,
};
use open_circuits::storage::Error as SError;

fn circuit(id: &str, owner: &str) -> Circuit {
    Circuit {
        metadata: CircuitMetadata {
            id: id.to_string(),
            name: "adder".to_string(),
            owner: owner.to_string(),
            desc: "a full adder".to_string(),
            thumbnail: "thumb".to_string(),
            version: "3".to_string(),
        },
        contents: "{gates}".to_string(),
    }
}

fn key(kind: &str, id: Option<&str>) -> Key {
    Key {
        path: Some(vec![PathElement {
            kind: Some(kind.to_string()),
            id: id.map(|s| s.to_string()),
            name: None,
        }]),
    }
}

fn sval(s: &str, exclude: bool) -> Value {
    Value { string_value: Some(s.to_string()), exclude_from_indexes: Some(exclude) }
}

fn entity_of(c: &Circuit) -> EntityResult {
    EntityResult {
        entity: Some(Entity {
            key: Some(key("Circuit", Some(&c.metadata.id))),
            properties: Some(format_circuit(c.clone())),
        }),
    }
}

#[test]
fn format_circuit_properties() {
    let props = format_circuit(circuit("5", "alice"));
    assert_eq!(
        props,
        vec![
            ("Name".to_string(), sval("adder", false)),
            ("Owner".to_string(), sval("alice", false)),
            ("Desc".to_string(), sval("a full adder", false)),
            ("Thumbnail".to_string(), sval("thumb", true)),
            ("Version".to_string(), sval("3", false)),
            ("CircuitDesigner".to_string(), sval("{gates}", true)),
        ]
    );
}

#[test]
fn parse_format_roundtrip() {
    let c = circuit("5", "alice");
    let (md, contents) = parse_circuit(entity_of(&c)).unwrap();
    assert_eq!(md, c.metadata);
    assert_eq!(contents, Some(c.contents));
}

#[test]
fn parse_errors() {
    assert_eq!(parse_circuit(EntityResult { entity: None }), Err(Error::MissingEntity));
    let no_props = EntityResult { entity: Some(Entity { key: Some(key("Circuit", Some("1"))), properties: None }) };
    assert_eq!(parse_circuit(no_props), Err(Error::MalformedEntity("Empty props")));
    let mut props = format_circuit(circuit("5", "alice"));
    props.remove(2);
    let incomplete = EntityResult { entity: Some(Entity { key: Some(key("Circuit", Some("1"))), properties: Some(props) }) };
    assert_eq!(parse_circuit(incomplete), Err(Error::MalformedEntity("Incomplete entry")));
    let no_key = EntityResult { entity: Some(Entity { key: None, properties: Some(vec![]) }) };
    assert_eq!(parse_circuit(no_key), Err(Error::MissingKey));
}

#[test]
fn parse_without_owner_or_contents() {
    let mut props = format_circuit(circuit("5", "alice"));
    props.remove(5);
    props.remove(1);
    let e = EntityResult { entity: Some(Entity { key: Some(key("Circuit", Some("8"))), properties: Some(props) }) };
    let (md, contents) = parse_circuit(e).unwrap();
    assert_eq!(md.id, "8");
    assert_eq!(md.owner, "");
    assert_eq!(contents, None);
}

#[test]
fn parse_ignores_values_without_string() {
    let mut props = format_circuit(circuit("5", "alice"));
    props[0].1.string_value = None;
    let e = EntityResult { entity: Some(Entity { key: Some(key("Circuit", Some("8"))), properties: Some(props) }) };
    assert_eq!(parse_circuit(e), Err(Error::MalformedEntity("Incomplete entry")));
}

#[test]
fn id_from_key() {
    assert_eq!(get_id_from_key(None), Err(Error::MissingKey));
    assert_eq!(get_id_from_key(Some(Key { path: None })), Err(Error::MalformedKey("Missing path")));
    assert_eq!(get_id_from_key(Some(Key { path: Some(vec![]) })), Err(Error::MalformedKey("Missing path entry")));
    assert_eq!(get_id_from_key(Some(key("Circuit", None))), Err(Error::MalformedKey("Missing id")));
    assert_eq!(get_id_from_key(Some(key("Circuit", Some("77")))), Ok("77".to_string()));
}

#[test]
fn unwrap_response() {
    assert_eq!(unwrap_resp::<u8, u32>(Ok((1, 2))), Ok(2));
    assert_eq!(unwrap_resp::<u8, u32>(Err("boom".to_string())), Err(Error::ReqError("boom".to_string())));
}

#[test]
fn wrap_errors() {
    assert_eq!(Error::CircuitIdNotFound("4".into()).wrap(), SError::CircuitIdNotFound("4".into()));
    assert_eq!(Error::MissingResults.wrap(), SError::Datastore(Error::MissingResults));
}

#[test]
fn request_builders() {
    let l = lookup_req("Circuit", vec!["1".to_string(), "2".to_string()]);
    assert_eq!(l.keys, Some(vec![key("Circuit", Some("1")), key("Circuit", Some("2"))]));

    let q = query_req("Circuit", "Owner", "alice", Some(vec!["Name"])).query.unwrap();
    let pf = q.filter.unwrap().property_filter.unwrap();
    assert_eq!(pf.property.unwrap().name, Some("Owner".to_string()));
    assert_eq!(pf.value, Some(Value { string_value: Some("alice".to_string()), exclude_from_indexes: None }));
    assert_eq!(pf.op, Some("EQUAL".to_string()));
    assert_eq!(q.kind.unwrap()[0].name, Some("Circuit".to_string()));
    assert_eq!(q.projection.unwrap()[0].property.as_ref().unwrap().name, Some("Name".to_string()));

    let p = put_req("Circuit", None, "t1".to_string(), vec![]);
    assert_eq!(p.transaction, Some("t1".to_string()));
    let m = &p.mutations.as_ref().unwrap()[0];
    assert_eq!(m.delete, None);
    assert_eq!(m.upsert, Some(Entity { key: Some(key("Circuit", None)), properties: Some(vec![]) }));

    let d = del_req("Circuit", "t2".to_string(), "9".to_string());
    assert_eq!(d.transaction, Some("t2".to_string()));
    let m = &d.mutations.as_ref().unwrap()[0];
    assert_eq!(m.upsert, None);
    assert_eq!(m.delete, Some(key("Circuit", Some("9"))));
}

#[test]
fn interface_constructors() {
    let g = GcpDsInterface::new("proj".to_string());
    assert_eq!(g.project_id(), "proj");
    assert_eq!(g.datastore_url(), None);
    let e = GcpDsInterface::new_emu("p2".to_string(), "http://localhost:8081/".to_string());
    assert_eq!(e.project_id(), "p2");
    assert_eq!(e.datastore_url(), Some("http://localhost:8081/".to_string()));
    assert_eq!(e.load_circuit_req(&"3".to_string()).keys, Some(vec![key("Circuit", Some("3"))]));
}

#[test]
fn load_circuit_answers() {
    let g = GcpDsInterface::new("proj".to_string());
    let c = circuit("5", "alice");
    let ok = LookupResponse { found: Some(vec![entity_of(&c)]) };
    assert_eq!(g.load_circuit_1("5".to_string(), Ok(((), ok))), Ok(c.clone()));
    let none = LookupResponse { found: None };
    assert_eq!(g.load_circuit_1("5".to_string(), Ok(((), none))), Err(Error::CircuitIdNotFound("5".to_string())));
    let two = LookupResponse { found: Some(vec![entity_of(&c), entity_of(&c)]) };
    assert_eq!(g.load_circuit_1("5".to_string(), Ok(((), two))), Err(Error::UnexpectedResults));
    let mut props = format_circuit(c.clone());
    props.pop();
    let no_contents = LookupResponse { found: Some(vec![EntityResult { entity: Some(Entity { key: Some(key("Circuit", Some("5"))), properties: Some(props) }) }]) };
    assert_eq!(g.load_circuit_1("5".to_string(), Ok(((), no_contents))), Err(Error::MissingResults));
    assert_eq!(g.load_circuit_1::<()>("5".to_string(), Err("down".into())), Err(Error::ReqError("down".into())));
}

#[test]
fn enumerate_circuits_answers() {
    let g = GcpDsInterface::new("proj".to_string());
    let a = circuit("5", "someone");
    let b = circuit("6", "else");
    let resp = RunQueryResponse { batch: Some(QueryResultBatch { entity_results: Some(vec![entity_of(&a), entity_of(&b)]) }) };
    let got = g.enumerate_circuits_1("alice".to_string(), Ok(((), resp))).unwrap();
    assert_eq!(got.len(), 2);
    assert_eq!(got[0], CircuitMetadata { owner: "alice".into(), ..a.metadata.clone() });
    assert_eq!(got[1], CircuitMetadata { owner: "alice".into(), ..b.metadata.clone() });
    let empty = RunQueryResponse { batch: Some(QueryResultBatch { entity_results: None }) };
    assert_eq!(g.enumerate_circuits_1("alice".to_string(), Ok(((), empty))), Ok(vec![]));
    let no_batch = RunQueryResponse { batch: None };
    assert_eq!(g.enumerate_circuits_1("alice".to_string(), Ok(((), no_batch))), Err(Error::MissingResults));
    let bad = RunQueryResponse { batch: Some(QueryResultBatch { entity_results: Some(vec![entity_of(&a), EntityResult { entity: None }]) }) };
    assert_eq!(g.enumerate_circuits_1("alice".to_string(), Ok(((), bad))), Err(Error::MissingEntity));
    let q = g.enumerate_circuits_req(&"alice".to_string()).query.unwrap();
    assert_eq!(q.projection, None);
    assert_eq!(q.filter.unwrap().property_filter.unwrap().value.unwrap().string_value, Some("alice".to_string()));
}

#[test]
fn transactions_and_commits() {
    let t = BeginTransactionResponse { transaction: Some("tx".to_string()) };
    assert_eq!(GcpDsInterface::init_transaction(Ok(((), t))), Ok("tx".to_string()));
    let t = BeginTransactionResponse { transaction: None };
    assert_eq!(GcpDsInterface::init_transaction(Ok(((), t))), Err(Error::MissingTransaction));

    let g = GcpDsInterface::new("proj".to_string());
    let with_id = g.put_circuit_req(&circuit("5", "alice"), "tx".to_string());
    let e = with_id.mutations.unwrap().remove(0).upsert.unwrap();
    assert_eq!(e.key, Some(key("Circuit", Some("5"))));
    assert_eq!(e.properties, Some(format_circuit(circuit("5", "alice"))));
    let fresh = g.put_circuit_req(&circuit("", "alice"), "tx".to_string());
    assert_eq!(fresh.mutations.unwrap().remove(0).upsert.unwrap().key, Some(key("Circuit", None)));

    let one = CommitResponse { index_updates: Some(3), mutation_results: Some(vec![MutationResult { key: Some(key("Circuit", Some("12"))) }]) };
    let m = GcpDsInterface::put_circuit(Ok(((), one))).unwrap();
    assert_eq!(m, MutationResult { key: Some(key("Circuit", Some("12"))) });
    let none = CommitResponse { index_updates: Some(3), mutation_results: Some(vec![]) };
    assert_eq!(GcpDsInterface::put_circuit(Ok(((), none))), Err(Error::MissingMutations));
    assert_eq!(GcpDsInterface::update_circuit_1(Ok(m)), Ok(()));
    assert_eq!(GcpDsInterface::update_circuit_1(Err(Error::MissingMutations)), Err(Error::MissingMutations));

    let c = circuit("", "alice");
    let n = GcpDsInterface::new_circuit_1(c.clone(), Ok(MutationResult { key: Some(key("Circuit", Some("12"))) })).unwrap();
    assert_eq!(n, Circuit { metadata: CircuitMetadata { id: "12".into(), ..c.metadata.clone() }, ..c.clone() });
    assert_eq!(GcpDsInterface::new_circuit_1(c, Ok(MutationResult { key: None })), Err(Error::MissingKey));

    let d = g.delete_circuit_req("9".to_string(), "tx".to_string());
    assert_eq!(d.mutations.unwrap()[0].delete, Some(key("Circuit", Some("9"))));
    for (n, ok) in [(0, true), (1, true), (2, false)] {
        let r = GcpDsInterface::delete_circuit_1(Ok(((), CommitResponse { index_updates: Some(n), mutation_results: None })));
        if ok {
            assert_eq!(r, Ok(()));
        } else {
            assert_eq!(r, Err(Error::UnexpectedMutations));
        }
    }
    assert_eq!(GcpDsInterface::delete_circuit_1(Ok(((), CommitResponse { index_updates: None, mutation_results: None }))), Err(Error::MissingMutations));
}
