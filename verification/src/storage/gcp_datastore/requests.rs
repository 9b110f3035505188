//! The requests that circuit storage sends to Datastore.
use vstd::prelude::*;

use super::types::{
    opt_key, opt_str, CommitRequest, Entity, Filter, Key, KeyView, KindExpression, LookupRequest,
    Mutation, PathElement, PathElementView, Projection, PropertyFilter, PropertyReference, Query,
    RunQueryRequest, Value, ValueView,
};

verus! {

/// The key of the entity of kind `kind` with id `id` (no id: Datastore picks one).
pub open spec fn key_for(kind: Seq<char>, id: Option<Seq<char>>) -> KeyView {
    KeyView { path: Some(seq![PathElementView { kind: Some(kind), id: id, name: None }]) }
}

/// The key of the entity of kind `kind` with id `id`.
pub fn key_of(kind: &str, id: Option<String>) -> (k: Key)
    ensures
        k@ == key_for(kind@, opt_str(id)),
{
    let mut path: Vec<PathElement> = Vec::new();
    path.push(PathElement { kind: Some(String::from_str(kind)), id: id, name: None });
    let k = Key { path: Some(path) };
    assert(k@.path->0 =~= seq![PathElementView { kind: Some(kind@), id: opt_str(id), name: None }]);
    k
}

/// A lookup of the entities of kind `kind` with the ids `ids`, in that order.
pub fn lookup_req(kind: &str, ids: Vec<String>) -> (r: LookupRequest)
    ensures
        r.keys is Some,
        r.keys->0.len() == ids.len(),
        forall|i: int|
            0 <= i < ids.len() ==> (#[trigger] r.keys->0[i])@ == key_for(kind@, Some(ids[i]@)),
{
    let mut keys: Vec<Key> = Vec::new();
    let mut i: usize = 0;
    while i < ids.len()
        invariant
            0 <= i <= ids.len(),
            keys.len() == i,
            forall|j: int| 0 <= j < i ==> (#[trigger] keys[j])@ == key_for(kind@, Some(ids[j]@)),
        decreases ids.len() - i,
    {
        let k = key_of(kind, Some(ids[i].clone()));
        keys.push(k);
        i += 1;
    }
    LookupRequest { keys: Some(keys) }
}

/// The projections onto the named properties.
fn projections(props: &Vec<&str>) -> (r: Vec<Projection>)
    ensures
        r.len() == props.len(),
        forall|i: int|
            0 <= i < props.len() ==> ((#[trigger] r[i]).property matches Some(p) && opt_str(p.name)
                == Some(props[i]@)),
{
    let mut r: Vec<Projection> = Vec::new();
    let mut i: usize = 0;
    while i < props.len()
        invariant
            0 <= i <= props.len(),
            r.len() == i,
            forall|j: int|
                0 <= j < i ==> ((#[trigger] r[j]).property matches Some(p) && opt_str(p.name)
                    == Some(props[j]@)),
        decreases props.len() - i,
    {
        r.push(
            Projection {
                property: Some(PropertyReference { name: Some(String::from_str(props[i])) }),
            },
        );
        i += 1;
    }
    r
}

/// A query for the entities of kind `kind` whose property `prop` equals `val`,
/// returning only the properties `proj` where it is given.
pub fn query_req(kind: &str, prop: &str, val: &str, proj: Option<Vec<&str>>) -> (r: RunQueryRequest)
    ensures
        r.query matches Some(q) && {
            &&& q.filter matches Some(f) && f.property_filter matches Some(pf) && {
                &&& pf.property matches Some(pr) && opt_str(pr.name) == Some(prop@)
                &&& pf.value matches Some(v) && v@ == (ValueView {
                    string_value: Some(val@),
                    exclude_from_indexes: None,
                })
                &&& pf.op matches Some(op) && op@ == "EQUAL"@
            }
            &&& q.kind matches Some(ks) && ks.len() == 1 && opt_str(ks[0].name) == Some(kind@)
            &&& match proj {
                None => q.projection is None,
                Some(ps) => q.projection matches Some(qp) && qp.len() == ps.len() && forall|i: int|
                    0 <= i < ps.len() ==> ((#[trigger] qp[i]).property matches Some(p)
                        && opt_str(p.name) == Some(ps[i]@)),
            }
        },
{
    let props = match proj {
        Some(ps) => Some(projections(&ps)),
        None => None,
    };
    let mut kinds: Vec<KindExpression> = Vec::new();
    kinds.push(KindExpression { name: Some(String::from_str(kind)) });
    RunQueryRequest {
        query: Some(
            Query {
                filter: Some(
                    Filter {
                        property_filter: Some(
                            PropertyFilter {
                                property: Some(
                                    PropertyReference { name: Some(String::from_str(prop)) },
                                ),
                                value: Some(
                                    Value {
                                        string_value: Some(String::from_str(val)),
                                        exclude_from_indexes: None,
                                    },
                                ),
                                op: Some(String::from_str("EQUAL")),
                            },
                        ),
                    },
                ),
                kind: Some(kinds),
                projection: props,
            },
        ),
    }
}

/// A commit, within `transaction`, that writes the entity of kind `kind` with id
/// `id` (no id: Datastore picks one) and properties `v`, inserting or replacing it.
pub fn put_req(kind: &str, id: Option<String>, transaction: String, v: Vec<(String, Value)>) -> (r:
    CommitRequest)
    ensures
        r.transaction == Some(transaction),
        r.mutations matches Some(ms) && {
            &&& ms.len() == 1
            &&& ms[0].delete is None
            &&& ms[0].insert is None
            &&& ms[0].update is None
            &&& (ms[0].upsert matches Some(e) && e.properties == Some(v) && opt_key(e.key) == Some(
                key_for(kind@, opt_str(id)),
            ))
        },
{
    let mut ms: Vec<Mutation> = Vec::new();
    ms.push(
        Mutation {
            insert: None,
            update: None,
            upsert: Some(Entity { properties: Some(v), key: Some(key_of(kind, id)) }),
            delete: None,
        },
    );
    CommitRequest { transaction: Some(transaction), mutations: Some(ms) }
}

/// A commit, within `transaction`, that deletes the entity of kind `kind` with id `id`.
pub fn del_req(kind: &str, transaction: String, id: String) -> (r: CommitRequest)
    ensures
        r.transaction == Some(transaction),
        r.mutations matches Some(ms) && {
            &&& ms.len() == 1
            &&& ms[0].upsert is None
            &&& ms[0].insert is None
            &&& ms[0].update is None
            &&& opt_key(ms[0].delete) == Some(key_for(kind@, Some(id@)))
        },
{
    let mut ms: Vec<Mutation> = Vec::new();
    ms.push(Mutation { insert: None, update: None, upsert: None, delete: Some(key_of(kind, Some(id))) });
    CommitRequest { transaction: Some(transaction), mutations: Some(ms) }
}

} // verus!
