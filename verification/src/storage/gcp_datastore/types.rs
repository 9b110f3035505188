//! The parts of Datastore's entities, requests and responses that circuit storage
//! reads or writes, as plain values.
use vstd::prelude::*;

verus! {

/// The text of an optional string.
pub open spec fn opt_str(o: Option<String>) -> Option<Seq<char>> {
    match o {
        Some(s) => Some(s@),
        None => None,
    }
}

/// A property value of an entity: a string value and whether it is left out of
/// the indexes.
#[derive(Debug, PartialEq, Eq)]
pub struct Value {
    pub string_value: Option<String>,
    pub exclude_from_indexes: Option<bool>,
}

pub struct ValueView {
    pub string_value: Option<Seq<char>>,
    pub exclude_from_indexes: Option<bool>,
}

impl View for Value {
    type V = ValueView;

    open spec fn view(&self) -> ValueView {
        ValueView {
            string_value: opt_str(self.string_value),
            exclude_from_indexes: self.exclude_from_indexes,
        }
    }
}

/// One step of a key's path: the kind and the id (or name) of an entity.
#[derive(Debug, PartialEq, Eq)]
pub struct PathElement {
    pub kind: Option<String>,
    pub id: Option<String>,
    pub name: Option<String>,
}

pub struct PathElementView {
    pub kind: Option<Seq<char>>,
    pub id: Option<Seq<char>>,
    pub name: Option<Seq<char>>,
}

impl View for PathElement {
    type V = PathElementView;

    open spec fn view(&self) -> PathElementView {
        PathElementView { kind: opt_str(self.kind), id: opt_str(self.id), name: opt_str(self.name) }
    }
}

/// The key of an entity: its path from the root.
#[derive(Debug, PartialEq, Eq)]
pub struct Key {
    pub path: Option<Vec<PathElement>>,
}

pub struct KeyView {
    pub path: Option<Seq<PathElementView>>,
}

impl View for Key {
    type V = KeyView;

    open spec fn view(&self) -> KeyView {
        KeyView {
            path: match self.path {
                Some(p) => Some(p@.map_values(|e: PathElement| e@)),
                None => None,
            },
        }
    }
}

/// The view of an optional key.
pub open spec fn opt_key(k: Option<Key>) -> Option<KeyView> {
    match k {
        Some(k) => Some(k@),
        None => None,
    }
}

/// The named properties of an entity, as pairs of name and value.
pub open spec fn props_view(p: Seq<(String, Value)>) -> Seq<(Seq<char>, ValueView)> {
    p.map_values(|kv: (String, Value)| (kv.0@, kv.1@))
}

/// A stored entity: its key and its named properties (no name occurs twice).
#[derive(Debug, PartialEq, Eq)]
pub struct Entity {
    pub key: Option<Key>,
    pub properties: Option<Vec<(String, Value)>>,
}

pub struct EntityView {
    pub key: Option<KeyView>,
    pub properties: Option<Seq<(Seq<char>, ValueView)>>,
}

impl View for Entity {
    type V = EntityView;

    open spec fn view(&self) -> EntityView {
        EntityView {
            key: opt_key(self.key),
            properties: match self.properties {
                Some(p) => Some(props_view(p@)),
                None => None,
            },
        }
    }
}

/// One entity found by a lookup or a query.
#[derive(Debug, PartialEq, Eq)]
pub struct EntityResult {
    pub entity: Option<Entity>,
}

pub struct EntityResultView {
    pub entity: Option<EntityView>,
}

impl View for EntityResult {
    type V = EntityResultView;

    open spec fn view(&self) -> EntityResultView {
        EntityResultView {
            entity: match self.entity {
                Some(e) => Some(e@),
                None => None,
            },
        }
    }
}

/// The outcome of one mutation of a commit: the key of the written entity.
#[derive(Debug, PartialEq, Eq)]
pub struct MutationResult {
    pub key: Option<Key>,
}

/// The answer to a lookup: the entities found.
#[derive(Debug, PartialEq, Eq)]
pub struct LookupResponse {
    pub found: Option<Vec<EntityResult>>,
}

/// A batch of query results.
#[derive(Debug, PartialEq, Eq)]
pub struct QueryResultBatch {
    pub entity_results: Option<Vec<EntityResult>>,
}

/// The answer to a query.
#[derive(Debug, PartialEq, Eq)]
pub struct RunQueryResponse {
    pub batch: Option<QueryResultBatch>,
}

/// The answer to a commit: the number of index entries it updated and the
/// result of each mutation.
#[derive(Debug, PartialEq, Eq)]
pub struct CommitResponse {
    pub index_updates: Option<i32>,
    pub mutation_results: Option<Vec<MutationResult>>,
}

/// The answer to a request for a new transaction.
#[derive(Debug, PartialEq, Eq)]
pub struct BeginTransactionResponse {
    pub transaction: Option<String>,
}

/// A request for the entities under some keys.
#[derive(Debug, PartialEq, Eq)]
pub struct LookupRequest {
    pub keys: Option<Vec<Key>>,
}

/// A reference to a property by name.
#[derive(Debug, PartialEq, Eq)]
pub struct PropertyReference {
    pub name: Option<String>,
}

/// A filter on one property: `property op value`.
#[derive(Debug, PartialEq, Eq)]
pub struct PropertyFilter {
    pub property: Option<PropertyReference>,
    pub value: Option<Value>,
    pub op: Option<String>,
}

/// A query filter.
#[derive(Debug, PartialEq, Eq)]
pub struct Filter {
    pub property_filter: Option<PropertyFilter>,
}

/// The kind of entity a query ranges over.
#[derive(Debug, PartialEq, Eq)]
pub struct KindExpression {
    pub name: Option<String>,
}

/// A property that a query returns.
#[derive(Debug, PartialEq, Eq)]
pub struct Projection {
    pub property: Option<PropertyReference>,
}

/// A query over the entities of some kinds.
#[derive(Debug, PartialEq, Eq)]
pub struct Query {
    pub filter: Option<Filter>,
    pub kind: Option<Vec<KindExpression>>,
    pub projection: Option<Vec<Projection>>,
}

/// A request to run a query.
#[derive(Debug, PartialEq, Eq)]
pub struct RunQueryRequest {
    pub query: Option<Query>,
}

/// One write of a commit: an entity to insert (it must be new), to update
/// (it must exist) or to insert or replace, or a key to delete.
#[derive(Debug, PartialEq, Eq)]
pub struct Mutation {
    pub insert: Option<Entity>,
    pub update: Option<Entity>,
    pub upsert: Option<Entity>,
    pub delete: Option<Key>,
}

/// A request to commit mutations within a transaction.
#[derive(Debug, PartialEq, Eq)]
pub struct CommitRequest {
    pub transaction: Option<String>,
    pub mutations: Option<Vec<Mutation>>,
}

} // verus!
