use open_circuits::model::{Circuit, CircuitMetadata};
use open_circuits::storage::mem::{decimal_string, MemInterface};
use open_circuits::storage::sqlite::{circuit_id_from_nanos, delete_outcome, list_outcome, load_outcome, update_outcome, table_setup, TableLookup, TableSetup};
use open_circuits::storage::{Error, Interface};

fn md(id: &str, name: &str, owner: &str) -> CircuitMetadata {
    CircuitMetadata {
        id: id.to_string(),
        name: name.to_string(),
        owner: owner.to_string(),
        desc: format!("{} desc", name),
        thumbnail: format!("{} thumb", name),
        version: "1".to_string(),
    }
}

fn circuit(id: &str, name: &str, owner: &str, contents: &str) -> Circuit {
    Circuit { metadata: md(id, name, owner), contents: contents.to_string() }
}

#[test]
fn metadata_update_keeps_id_and_owner() {
    let a = md("7", "old", "alice");
    let b = CircuitMetadata {
        id: "9".to_string(),
        name: "new".to_string(),
        owner: "mallory".to_string(),
        desc: "d2".to_string(),
        thumbnail: "t2".to_string(),
        version: "2".to_string(),
    };
    let r = a.update(b);
    assert_eq!(r.id, "7");
    assert_eq!(r.owner, "alice");
    assert_eq!(r.name, "new");
    assert_eq!(r.desc, "d2");
    assert_eq!(r.thumbnail, "t2");
    assert_eq!(r.version, "2");
}

#[test]
fn circuit_update_takes_contents() {
    let a = circuit("7", "old", "alice", "c1");
    let b = circuit("", "new", "bob", "c2");
    let r = a.update(b);
    assert_eq!(r, Circuit { metadata: CircuitMetadata { id: "7".into(), owner: "alice".into(), ..md("", "new", "bob") }, contents: "c2".into() });
}

#[test]
fn update_is_idempotent() {
    let a = circuit("3", "x", "u", "c");
    let n = circuit("5", "y", "v", "d");
    let once = a.clone().update(n.clone());
    let twice = a.update(n.clone()).update(n);
    assert_eq!(once, twice);
}

#[test]
fn clone_is_equal() {
    let a = circuit("3", "x", "u", "c");
    assert_eq!(a.clone(), a);
}

#[test]
fn decimal_numerals() {
    assert_eq!(decimal_string(0), "0");
    assert_eq!(decimal_string(7), "7");
    assert_eq!(decimal_string(10), "10");
    assert_eq!(decimal_string(1234), "1234");
    assert_eq!(decimal_string(u32::MAX as u128), u32::MAX.to_string());
    assert_eq!(decimal_string(u128::MAX), u128::MAX.to_string());
}

#[test]
fn mem_new_circuit_ids_count_up() {
    let mut m = MemInterface::new();
    let a = m.new_circuit(circuit("ignored", "a", "alice", "ca")).unwrap();
    let b = m.new_circuit(circuit("", "b", "alice", "cb")).unwrap();
    assert_eq!(a.metadata.id, "1");
    assert_eq!(b.metadata.id, "2");
    assert_eq!(a.metadata.name, "a");
    assert_eq!(a.contents, "ca");
    assert_eq!(m.load_circuit("1".to_string()).unwrap(), a);
    assert_eq!(m.load_circuit("2".to_string()).unwrap(), b);
}

#[test]
fn mem_load_missing_is_not_found() {
    let m = MemInterface::new();
    assert_eq!(m.load_circuit("42".to_string()), Err(Error::CircuitIdNotFound("42".to_string())));
}

#[test]
fn mem_update_then_load() {
    let mut m = MemInterface::new();
    let c = circuit("abc", "n", "bob", "contents");
    assert_eq!(m.update_circuit(&c), Ok(()));
    assert_eq!(m.load_circuit("abc".to_string()).unwrap(), c);
    let c2 = circuit("abc", "n2", "bob", "contents2");
    assert_eq!(m.update_circuit(&c2), Ok(()));
    assert_eq!(m.load_circuit("abc".to_string()).unwrap(), c2);
}

#[test]
fn mem_update_does_not_touch_other_ids() {
    let mut m = MemInterface::new();
    let a = m.new_circuit(circuit("", "a", "alice", "ca")).unwrap();
    m.update_circuit(&circuit("other", "o", "bob", "co")).unwrap();
    assert_eq!(m.load_circuit("1".to_string()).unwrap(), a);
}

#[test]
fn mem_delete() {
    let mut m = MemInterface::new();
    let a = m.new_circuit(circuit("", "a", "alice", "ca")).unwrap();
    let b = m.new_circuit(circuit("", "b", "alice", "cb")).unwrap();
    assert_eq!(m.delete_circuit("1".to_string()), Ok(()));
    assert_eq!(m.load_circuit("1".to_string()), Err(Error::CircuitIdNotFound("1".to_string())));
    assert_eq!(m.load_circuit("2".to_string()).unwrap(), b);
    assert_eq!(m.delete_circuit("1".to_string()), Err(Error::CircuitIdNotFound("1".to_string())));
    let _ = a;
}

#[test]
fn mem_enumerate_lists_only_owned() {
    let mut m = MemInterface::new();
    let a = m.new_circuit(circuit("", "a", "alice", "ca")).unwrap();
    let _b = m.new_circuit(circuit("", "b", "bob", "cb")).unwrap();
    let c = m.new_circuit(circuit("", "c", "alice", "cc")).unwrap();
    let mut list = m.enumerate_circuits("alice".to_string()).unwrap();
    list.sort_by(|x, y| x.id.cmp(&y.id));
    assert_eq!(list, vec![a.metadata, c.metadata]);
    assert_eq!(m.enumerate_circuits("carol".to_string()).unwrap(), vec![]);
}

#[test]
fn mem_new_circuit_may_replace_an_updated_id() {
    let mut m = MemInterface::new();
    m.update_circuit(&circuit("1", "manual", "bob", "cm")).unwrap();
    let n = m.new_circuit(circuit("", "fresh", "alice", "cf")).unwrap();
    assert_eq!(n.metadata.id, "1");
    assert_eq!(m.load_circuit("1".to_string()).unwrap(), n);
    assert_eq!(m.enumerate_circuits("bob".to_string()).unwrap(), vec![]);
}

#[test]
fn sqlite_outcomes() {
    assert_eq!(update_outcome(1, "a".into()), Ok(()));
    assert_eq!(update_outcome(0, "a".into()), Err(Error::CircuitIdNotFound("a".into())));
    assert_eq!(update_outcome(2, "a".into()), Err(Error::CircuitIdNotFound("a".into())));
    assert_eq!(delete_outcome(1, "b".into()), Ok(()));
    assert_eq!(delete_outcome(0, "b".into()), Err(Error::CircuitIdNotFound("b".into())));
    assert_eq!(circuit_id_from_nanos(1_700_000_000_123_456_789), "1700000000123456789");
}

#[test]
fn sqlite_load_and_list_outcomes() {
    let c = circuit("3", "x", "alice", "cc");
    assert_eq!(load_outcome(Ok(Some(c.clone())), "3".into()), Ok(c.clone()));
    assert_eq!(load_outcome(Ok(None), "3".into()), Err(Error::CircuitIdNotFound("3".into())));
    assert_eq!(load_outcome(Err("locked".into()), "3".into()), Err(Error::Other("locked".into())));
    let a = md("1", "a", "alice");
    let b = md("2", "b", "alice");
    assert_eq!(list_outcome(Ok(vec![Ok(a.clone()), Ok(b.clone())])), Ok(vec![a.clone(), b.clone()]));
    assert_eq!(list_outcome(Ok(vec![])), Ok(vec![]));
    assert_eq!(list_outcome(Ok(vec![Ok(a.clone()), Err("bad row".into()), Err("later".into())])), Err(Error::Other("bad row".into())));
    assert_eq!(list_outcome(Err("no table".into())), Err(Error::Other("no table".into())));
}

#[test]
fn sqlite_table_is_created_only_when_missing() {
    assert_eq!(table_setup(TableLookup::Found), TableSetup::Ready);
    assert_eq!(table_setup(TableLookup::NoRows), TableSetup::Create);
    assert_eq!(table_setup(TableLookup::Failed), TableSetup::Fail);
}
