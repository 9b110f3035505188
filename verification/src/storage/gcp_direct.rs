//! Circuits as Datastore entities of kind `Circuit`, with every failure
//! reported directly as a storage error.
//!
//! A circuit that has an id is written as an update of the entity that holds
//! it, one without an id as an insert; an entity read back must carry every
//! field, its owner included, and a listing keeps each circuit's stored owner.
use vstd::prelude::*;

use crate::model::{Circuit, CircuitMetadata, CircuitView, MetadataView};
use crate::storage::gcp_datastore::requests::{del_req as del_kind_req, key_for, key_of, lookup_req, query_req};
use crate::storage::gcp_datastore::types::{
    opt_key, opt_str, props_view, BeginTransactionResponse, CommitRequest, CommitResponse, Entity,
    EntityResult, EntityResultView, EntityView, Key, KeyView, LookupRequest, LookupResponse,
    Mutation, MutationResult, PathElement, RunQueryRequest, RunQueryResponse, ValueView,
};
use crate::storage::gcp_datastore::{
    find_prop, format_circuit, format_spec, lemma_format_names_unique,
    lemma_prop_value_order_independent, names_unique, prop_value, same_props,
};
use crate::storage::{Error, ErrorView};

verus! {

/// The failure "bad response" with message `m`.
pub open spec fn bad(m: Seq<char>) -> ErrorView {
    ErrorView::BadResponse(m)
}

fn bad_response(msg: &str) -> (e: Error)
    ensures
        e@ == bad(msg@),
{
    Error::BadResponse(String::from_str(msg))
}

/// The view of a result whose success value is a string.
pub open spec fn str_result(r: Result<String, Error>) -> Result<Seq<char>, ErrorView> {
    match r {
        Ok(s) => Ok(s@),
        Err(e) => Err(e@),
    }
}

/// The id that a key names: the id of the first element of its path.
pub open spec fn key_id(k: Option<KeyView>) -> Result<Seq<char>, ErrorView> {
    match k {
        None => Err(bad("GCP returned empty key"@)),
        Some(k) => match k.path {
            None => Err(bad("GCP returned empty path"@)),
            Some(p) => if p.len() == 0 {
                Err(bad("GCP returned empty path vec"@))
            } else {
                match p[0].id {
                    None => Err(bad("GCP returned empty id"@)),
                    Some(id) => Ok(id),
                }
            },
        },
    }
}

/// The id that `key` names.
pub fn get_id_from_key(key: Option<Key>) -> (r: Result<String, Error>)
    ensures
        str_result(r) == key_id(opt_key(key)),
{
    match key {
        None => Err(bad_response("GCP returned empty key")),
        Some(k) => match k.path {
            None => Err(bad_response("GCP returned empty path")),
            Some(p) => {
                if p.len() == 0 {
                    Err(bad_response("GCP returned empty path vec"))
                } else {
                    assert(p@.map_values(|e: PathElement| e@)[0] == p@[0]@);
                    match &p[0].id {
                        None => Err(bad_response("GCP returned empty id")),
                        Some(id) => Ok(id.clone()),
                    }
                }
            },
        },
    }
}

/// The view of a parsed entity: its metadata and its contents, if it has them.
pub open spec fn parsed_view(r: Result<(CircuitMetadata, Option<String>), Error>) -> Result<
    (MetadataView, Option<Seq<char>>),
    ErrorView,
> {
    match r {
        Ok((m, c)) => Ok((m@, opt_str(c))),
        Err(e) => Err(e@),
    }
}

/// What an entity found by a lookup or a query says of a circuit: its
/// metadata, and its contents where the entity has them. The id comes from
/// the key; name, owner, description, thumbnail and version must be there.
pub open spec fn parse_spec(result: EntityResultView) -> Result<
    (MetadataView, Option<Seq<char>>),
    ErrorView,
> {
    match result.entity {
        None => Err(bad("GCP returned empty entity"@)),
        Some(e) => match key_id(e.key) {
            Err(err) => Err(err),
            Ok(id) => match e.properties {
                None => Err(bad("GCP returned empty props"@)),
                Some(p) => {
                    let name = prop_value(p, "Name"@);
                    let owner = prop_value(p, "Owner"@);
                    let desc = prop_value(p, "Desc"@);
                    let thumbnail = prop_value(p, "Thumbnail"@);
                    let version = prop_value(p, "Version"@);
                    if name is None || owner is None || desc is None || thumbnail is None
                        || version is None {
                        Err(bad("GCP returned incomplete entry"@))
                    } else {
                        Ok(
                            (
                                MetadataView {
                                    id: id,
                                    name: name->0,
                                    owner: owner->0,
                                    desc: desc->0,
                                    thumbnail: thumbnail->0,
                                    version: version->0,
                                },
                                prop_value(p, "CircuitDesigner"@),
                            ),
                        )
                    }
                },
            },
        },
    }
}

/// Reads a circuit's metadata, and its contents where present, out of an entity.
pub fn parse_circuit(result: EntityResult) -> (r: Result<(CircuitMetadata, Option<String>), Error>)
    ensures
        parsed_view(r) == parse_spec(result@),
{
    let entity = match result.entity {
        Some(e) => e,
        None => {
            return Err(bad_response("GCP returned empty entity"));
        },
    };
    let id = match get_id_from_key(entity.key) {
        Ok(id) => id,
        Err(e) => {
            return Err(e);
        },
    };
    let props = match entity.properties {
        Some(p) => p,
        None => {
            return Err(bad_response("GCP returned empty props"));
        },
    };
    let name = find_prop(&props, "Name");
    let owner = find_prop(&props, "Owner");
    let desc = find_prop(&props, "Desc");
    let thumbnail = find_prop(&props, "Thumbnail");
    let version = find_prop(&props, "Version");
    let contents = find_prop(&props, "CircuitDesigner");
    match (name, owner, desc, thumbnail, version) {
        (Some(name), Some(owner), Some(desc), Some(thumbnail), Some(version)) => {
            let metadata = CircuitMetadata { id, name, owner, desc, thumbnail, version };
            Ok((metadata, contents))
        },
        _ => Err(bad_response("GCP returned incomplete entry")),
    }
}

/// The body of a successful response, or the failure of the request.
pub fn unwrap_resp<S, T>(result: Result<(S, T), String>) -> (r: Result<T, Error>)
    ensures
        match result {
            Ok((_, t)) => r == Ok::<T, Error>(t),
            Err(e) => r == Err::<T, Error>(Error::Other(e)),
        },
{
    match result {
        Ok((_, res)) => Ok(res),
        Err(e) => Err(Error::Other(e)),
    }
}

/// The lookup that loads the circuit `id`.
pub fn get_req(id: String) -> (r: LookupRequest)
    ensures
        r.keys matches Some(ks) && ks.len() == 1 && ks[0]@ == key_for("Circuit"@, Some(id@)),
{
    let mut ids: Vec<String> = Vec::new();
    ids.push(id);
    lookup_req("Circuit", ids)
}

/// The query for the circuits owned by `user`.
pub fn enum_req(user: &String) -> (r: RunQueryRequest)
    ensures
        r.query matches Some(q) && {
            &&& q.filter matches Some(f) && f.property_filter matches Some(pf) && {
                &&& pf.property matches Some(pr) && opt_str(pr.name) == Some("Owner"@)
                &&& pf.value matches Some(v) && v@ == (ValueView {
                    string_value: Some(user@),
                    exclude_from_indexes: None,
                })
                &&& pf.op matches Some(op) && op@ == "EQUAL"@
            }
            &&& q.kind matches Some(ks) && ks.len() == 1 && opt_str(ks[0].name) == Some("Circuit"@)
            &&& q.projection is None
        },
{
    query_req("Circuit", "Owner", user.as_str(), None)
}

/// The commit, within `t`, that writes circuit `c`: an update of the entity
/// under its id where it has one, an insert under an id that Datastore picks
/// where its id is empty.
pub fn put_req(c: &Circuit, t: String) -> (r: CommitRequest)
    ensures
        r.transaction == Some(t),
        r.mutations matches Some(ms) && {
            &&& ms.len() == 1
            &&& ms[0].delete is None
            &&& ms[0].upsert is None
            &&& if c@.metadata.id.len() > 0 {
                &&& ms[0].insert is None
                &&& (ms[0].update matches Some(e) && {
                    &&& (e.properties matches Some(p) && props_view(p@) == format_spec(c@))
                    &&& opt_key(e.key) == Some(key_for("Circuit"@, Some(c@.metadata.id)))
                })
            } else {
                &&& ms[0].update is None
                &&& (ms[0].insert matches Some(e) && {
                    &&& (e.properties matches Some(p) && props_view(p@) == format_spec(c@))
                    &&& opt_key(e.key) == Some(key_for("Circuit"@, None))
                })
            }
        },
{
    let has_id = !c.metadata.id.as_str().is_empty();
    let id = if has_id {
        Some(c.metadata.id.clone())
    } else {
        None
    };
    let entity = Entity { properties: Some(format_circuit(c.clone())), key: Some(key_of("Circuit", id)) };
    let mutation = if has_id {
        Mutation { insert: None, update: Some(entity), upsert: None, delete: None }
    } else {
        Mutation { insert: Some(entity), update: None, upsert: None, delete: None }
    };
    let mut ms: Vec<Mutation> = Vec::new();
    ms.push(mutation);
    CommitRequest { transaction: Some(t), mutations: Some(ms) }
}

/// The commit, within `t`, that deletes circuit `id`.
pub fn del_req(id: String, t: String) -> (r: CommitRequest)
    ensures
        r.transaction == Some(t),
        r.mutations matches Some(ms) && {
            &&& ms.len() == 1
            &&& ms[0].upsert is None
            &&& ms[0].insert is None
            &&& ms[0].update is None
            &&& opt_key(ms[0].delete) == Some(key_for("Circuit"@, Some(id@)))
        },
{
    del_kind_req("Circuit", t, id)
}

/// The view of a result whose success value is a circuit.
pub open spec fn circuit_result(r: Result<Circuit, Error>) -> Result<CircuitView, ErrorView> {
    match r {
        Ok(c) => Ok(c@),
        Err(e) => Err(e@),
    }
}

/// The circuit that a parsed entity gives, which must have its contents.
pub open spec fn loaded_circuit(
    p: Result<(MetadataView, Option<Seq<char>>), ErrorView>,
) -> Result<CircuitView, ErrorView> {
    match p {
        Err(e) => Err(e),
        Ok((md, None)) => Err(bad("GCP No content"@)),
        Ok((md, Some(contents))) => Ok(CircuitView { metadata: md, contents: contents }),
    }
}

/// The views of a sequence of circuit metadata.
pub open spec fn metadata_views(v: Seq<CircuitMetadata>) -> Seq<MetadataView> {
    v.map_values(|m: CircuitMetadata| m@)
}

/// The results that a query's batch holds.
pub open spec fn entity_results_view(v: Seq<EntityResult>) -> Seq<EntityResultView> {
    v.map_values(|e: EntityResult| e@)
}

/// The metadata that a query gives: each result parsed, as stored; the first
/// result that does not parse fails the whole.
pub open spec fn enumerated(results: Seq<EntityResultView>) -> Result<Seq<MetadataView>, ErrorView>
    decreases results.len(),
{
    if results.len() == 0 {
        Ok(Seq::empty())
    } else {
        match parse_spec(results[0]) {
            Err(e) => Err(e),
            Ok((md, _)) => match enumerated(results.drop_first()) {
                Err(e) => Err(e),
                Ok(rest) => Ok(seq![md] + rest),
            },
        }
    }
}

/// `prefix` put in front of the success value of `r`.
pub open spec fn prepend(prefix: Seq<MetadataView>, r: Result<Seq<MetadataView>, ErrorView>) -> Result<
    Seq<MetadataView>,
    ErrorView,
> {
    match r {
        Ok(rest) => Ok(prefix + rest),
        Err(e) => Err(e),
    }
}

/// The mathematical value of the store: its project and the emulator URL
/// where one is used.
pub struct GcpDsView {
    pub project_id: Seq<char>,
    pub datastore_url: Option<Seq<char>>,
}

/// A circuit store on Google Cloud Datastore (or its emulator), entity kind `Circuit`.
pub struct GcpDsInterface {
    project_id: String,
    datastore_url: Option<String>,
}

impl View for GcpDsInterface {
    type V = GcpDsView;

    closed spec fn view(&self) -> GcpDsView {
        GcpDsView { project_id: self.project_id@, datastore_url: opt_str(self.datastore_url) }
    }
}

impl GcpDsInterface {
    /// The store in the Datastore of project `project_id`.
    pub fn new(project_id: String) -> (r: GcpDsInterface)
        ensures
            r@ == (GcpDsView { project_id: project_id@, datastore_url: None }),
    {
        GcpDsInterface { project_id: project_id, datastore_url: None }
    }

    /// The store in the Datastore emulator at `emu_url` (fully specified, with
    /// scheme and trailing slash), for project `project_id`.
    pub fn new_emu(project_id: String, emu_url: String) -> (r: GcpDsInterface)
        ensures
            r@ == (GcpDsView { project_id: project_id@, datastore_url: Some(emu_url@) }),
    {
        GcpDsInterface { project_id: project_id, datastore_url: Some(emu_url) }
    }

    /// The project whose Datastore holds the circuits.
    pub fn project_id(&self) -> (r: &String)
        ensures
            r@ == self@.project_id,
    {
        &self.project_id
    }

    /// The emulator URL that replaces Datastore's own, if any.
    pub fn datastore_url(&self) -> (r: Option<String>)
        ensures
            opt_str(r) == self@.datastore_url,
    {
        match &self.datastore_url {
            Some(u) => Some(u.clone()),
            None => None,
        }
    }

    /// The transaction that Datastore opened for a commit.
    pub fn init_transaction<S>(result: Result<(S, BeginTransactionResponse), String>) -> (r: Result<
        String,
        Error,
    >)
        ensures
            match result {
                Err(e) => r == Err::<String, Error>(Error::Other(e)),
                Ok((_, resp)) => match resp.transaction {
                    Some(t) => r == Ok::<String, Error>(t),
                    None => (r matches Err(e) && e@ == bad("GCP failed to give transaction"@)),
                },
            },
    {
        let resp = match unwrap_resp(result) {
            Ok(resp) => resp,
            Err(e) => {
                return Err(e);
            },
        };
        match resp.transaction {
            Some(t) => Ok(t),
            None => Err(bad_response("GCP failed to give transaction")),
        }
    }

    /// The single mutation result of a commit that wrote one circuit.
    pub fn put<S>(result: Result<(S, CommitResponse), String>) -> (r: Result<MutationResult, Error>)
        ensures
            match result {
                Err(e) => r == Err::<MutationResult, Error>(Error::Other(e)),
                Ok((_, resp)) => match resp.mutation_results {
                    Some(v) => if v.len() == 1 {
                        r == Ok::<MutationResult, Error>(v[0])
                    } else {
                        (r matches Err(e) && e@ == bad("GCP returned non-empty mutation list"@))
                    },
                    None => (r matches Err(e) && e@ == bad("GCP returned no mutations"@)),
                },
            },
    {
        let resp = match unwrap_resp(result) {
            Ok(resp) => resp,
            Err(e) => {
                return Err(e);
            },
        };
        match resp.mutation_results {
            Some(v) => {
                if v.len() == 1 {
                    let mut v = v;
                    Ok(v.remove(0))
                } else {
                    Err(bad_response("GCP returned non-empty mutation list"))
                }
            },
            None => Err(bad_response("GCP returned no mutations")),
        }
    }

    /// The circuit `id` that a lookup answered with: exactly one entity must
    /// be found, and it must hold the contents.
    pub fn load_circuit<S>(&self, id: String, result: Result<(S, LookupResponse), String>) -> (r:
        Result<Circuit, Error>)
        ensures
            match result {
                Err(e) => r == Err::<Circuit, Error>(Error::Other(e)),
                Ok((_, resp)) => match resp.found {
                    None => r == Err::<Circuit, Error>(Error::CircuitIdNotFound(id)),
                    Some(v) => if v.len() == 1 {
                        circuit_result(r) == loaded_circuit(parse_spec(v[0]@))
                    } else {
                        (r matches Err(e) && e@ == bad(
                            "GCP returned unexpected non-empty result list"@,
                        ))
                    },
                },
            },
    {
        let resp = match unwrap_resp(result) {
            Ok(resp) => resp,
            Err(e) => {
                return Err(e);
            },
        };
        let found = match resp.found {
            Some(v) => {
                if v.len() == 1 {
                    let mut v = v;
                    v.remove(0)
                } else {
                    return Err(bad_response("GCP returned unexpected non-empty result list"));
                }
            },
            None => {
                return Err(Error::CircuitIdNotFound(id));
            },
        };
        let (md, contents) = match parse_circuit(found) {
            Ok(p) => p,
            Err(e) => {
                return Err(e);
            },
        };
        match contents {
            Some(contents) => Ok(Circuit { metadata: md, contents: contents }),
            None => Err(bad_response("GCP No content")),
        }
    }

    /// The metadata of the circuits that a query answered with, each as stored.
    pub fn enumerate_circuits<S>(&self, result: Result<(S, RunQueryResponse), String>) -> (r: Result<
        Vec<CircuitMetadata>,
        Error,
    >)
        ensures
            match result {
                Err(e) => r == Err::<Vec<CircuitMetadata>, Error>(Error::Other(e)),
                Ok((_, resp)) => match resp.batch {
                    None => (r matches Err(e) && e@ == bad("Empty batch"@)),
                    Some(b) => match b.entity_results {
                        None => (r matches Ok(v) && v.len() == 0),
                        Some(ers) => match enumerated(entity_results_view(ers@)) {
                            Ok(mds) => (r matches Ok(v) && metadata_views(v@) == mds),
                            Err(e) => (r matches Err(re) && re@ == e),
                        },
                    },
                },
            },
    {
        let resp = match unwrap_resp(result) {
            Ok(resp) => resp,
            Err(e) => {
                return Err(e);
            },
        };
        let batch = match resp.batch {
            Some(b) => b,
            None => {
                return Err(bad_response("Empty batch"));
            },
        };
        let mut ers = match batch.entity_results {
            Some(res) => res,
            None => {
                return Ok(Vec::new());
            },
        };
        let ghost orig = entity_results_view(ers@);
        let mut mds: Vec<CircuitMetadata> = Vec::new();
        assert(orig.skip(0) =~= orig);
        assert(metadata_views(mds@) =~= Seq::<MetadataView>::empty());
        while ers.len() > 0
            invariant
                entity_results_view(ers@) == orig.skip(orig.len() - ers.len()),
                match result {
                    Ok((_, resp0)) => match resp0.batch {
                        Some(b0) => match b0.entity_results {
                            Some(e0) => entity_results_view(e0@) == orig,
                            None => false,
                        },
                        None => false,
                    },
                    Err(_) => false,
                },
                ers.len() <= orig.len(),
                enumerated(orig) == prepend(metadata_views(mds@), enumerated(entity_results_view(ers@))),
            decreases ers.len(),
        {
            let ghost rest = entity_results_view(ers@);
            let er = ers.remove(0);
            proof {
                assert(rest[0] == er@);
                assert(entity_results_view(ers@) =~= rest.drop_first());
                assert(rest.drop_first() =~= orig.skip(orig.len() - ers.len()));
            }
            let (md, _contents) = match parse_circuit(er) {
                Ok(p) => p,
                Err(e) => {
                    return Err(e);
                },
            };
            let ghost before = metadata_views(mds@);
            mds.push(md);
            proof {
                assert(metadata_views(mds@) =~= before.push(md@));
                match enumerated(entity_results_view(ers@)) {
                    Ok(tail) => {
                        assert(before + (seq![md@] + tail) =~= before.push(md@) + tail);
                    },
                    Err(_) => {},
                }
            }
        }
        proof {
            assert(entity_results_view(ers@) =~= Seq::<EntityResultView>::empty());
            assert(metadata_views(mds@) + Seq::<MetadataView>::empty() =~= metadata_views(mds@));
        }
        Ok(mds)
    }

    /// The outcome of updating a circuit, from the outcome of writing it.
    pub fn update_circuit(put: Result<MutationResult, Error>) -> (r: Result<(), Error>)
        ensures
            match put {
                Ok(_) => r is Ok,
                Err(e) => r == Err::<(), Error>(e),
            },
    {
        match put {
            Ok(_) => Ok(()),
            Err(e) => Err(e),
        }
    }

    /// The new circuit: `c` under the id that Datastore gave it when writing it.
    pub fn new_circuit(c: Circuit, put: Result<MutationResult, Error>) -> (r: Result<Circuit, Error>)
        ensures
            match put {
                Err(e) => r == Err::<Circuit, Error>(e),
                Ok(m) => match key_id(opt_key(m.key)) {
                    Ok(id) => (r matches Ok(n) && n@ == CircuitView {
                        metadata: MetadataView { id: id, ..c@.metadata },
                        ..c@
                    }),
                    Err(e) => (r matches Err(re) && re@ == e),
                },
            },
    {
        let mut_res = match put {
            Ok(m) => m,
            Err(e) => {
                return Err(e);
            },
        };
        let id = match get_id_from_key(mut_res.key) {
            Ok(id) => id,
            Err(e) => {
                return Err(e);
            },
        };
        Ok(Circuit { metadata: CircuitMetadata { id: id, ..c.metadata }, ..c })
    }

    /// The outcome of a delete from its commit's answer: it touched at most one
    /// index entry (none where the circuit was not there).
    pub fn delete_circuit<S>(result: Result<(S, CommitResponse), String>) -> (r: Result<(), Error>)
        ensures
            match result {
                Err(e) => r == Err::<(), Error>(Error::Other(e)),
                Ok((_, resp)) => match resp.index_updates {
                    None => (r matches Err(e) && e@ == bad(""@)),
                    Some(n) => if n == 0 || n == 1 {
                        r is Ok
                    } else {
                        (r matches Err(e) && e@ == bad("GCP Delete removed too many entries"@))
                    },
                },
            },
    {
        let resp = match unwrap_resp(result) {
            Ok(resp) => resp,
            Err(e) => {
                return Err(e);
            },
        };
        match resp.index_updates {
            None => Err(bad_response("")),
            Some(n) => {
                if n == 0 || n == 1 {
                    Ok(())
                } else {
                    Err(bad_response("GCP Delete removed too many entries"))
                }
            },
        }
    }
}

/// What a write stores, a lookup reads back: the entity that holds circuit
/// `c` under its own id parses to `c`'s metadata and contents, and loads as `c`.
pub proof fn lemma_parse_format_roundtrip(c: CircuitView)
    ensures
        loaded_circuit(
            parse_spec(
                EntityResultView {
                    entity: Some(
                        EntityView {
                            key: Some(key_for("Circuit"@, Some(c.metadata.id))),
                            properties: Some(format_spec(c)),
                        },
                    ),
                },
            ),
        ) == Ok::<CircuitView, ErrorView>(c),
{
    reveal_strlit("Name");
    reveal_strlit("Owner");
    reveal_strlit("Desc");
    reveal_strlit("Thumbnail");
    reveal_strlit("Version");
    reveal_strlit("CircuitDesigner");
    assert("Name"@.len() == 4);
    assert("Owner"@.len() == 5);
    assert("Desc"@.len() == 4);
    assert("Thumbnail"@.len() == 9);
    assert("Version"@.len() == 7);
    assert("CircuitDesigner"@.len() == 15);
    assert("Name"@[0] == 'N' && "Desc"@[0] == 'D');
    let p = format_spec(c);
    reveal_with_fuel(prop_value, 7);
    assert(prop_value(p, "Name"@) == Some(c.metadata.name));
    assert(prop_value(p, "Owner"@) == Some(c.metadata.owner));
    assert(prop_value(p, "Desc"@) == Some(c.metadata.desc));
    assert(prop_value(p, "Thumbnail"@) == Some(c.metadata.thumbnail));
    assert(prop_value(p, "Version"@) == Some(c.metadata.version));
    assert(prop_value(p, "CircuitDesigner"@) == Some(c.contents));
}

/// How an entity's properties are ordered does not change what it parses to.
pub proof fn lemma_parse_order_independent(
    key: Option<KeyView>,
    p: Seq<(Seq<char>, ValueView)>,
    q: Seq<(Seq<char>, ValueView)>,
)
    requires
        names_unique(p),
        names_unique(q),
        same_props(p, q),
    ensures
        parse_spec(EntityResultView { entity: Some(EntityView { key: key, properties: Some(p) }) })
            == parse_spec(
            EntityResultView { entity: Some(EntityView { key: key, properties: Some(q) }) },
        ),
{
    lemma_prop_value_order_independent(p, q, "Name"@);
    lemma_prop_value_order_independent(p, q, "Owner"@);
    lemma_prop_value_order_independent(p, q, "Desc"@);
    lemma_prop_value_order_independent(p, q, "Thumbnail"@);
    lemma_prop_value_order_independent(p, q, "Version"@);
    lemma_prop_value_order_independent(p, q, "CircuitDesigner"@);
}

/// An entity that holds the properties written for circuit `c`, under `c`'s
/// own id and in any order, loads as `c`.
pub proof fn lemma_load_format_any_order(c: CircuitView, q: Seq<(Seq<char>, ValueView)>)
    requires
        names_unique(q),
        same_props(format_spec(c), q),
    ensures
        loaded_circuit(
            parse_spec(
                EntityResultView {
                    entity: Some(
                        EntityView {
                            key: Some(key_for("Circuit"@, Some(c.metadata.id))),
                            properties: Some(q),
                        },
                    ),
                },
            ),
        ) == Ok::<CircuitView, ErrorView>(c),
{
    lemma_format_names_unique(c);
    lemma_parse_order_independent(Some(key_for("Circuit"@, Some(c.metadata.id))), format_spec(c), q);
    lemma_parse_format_roundtrip(c);
}

/// A listing has one entry per query result, in the query's order: where
/// every result parses, entry `i` is the metadata of result `i`; otherwise the
/// listing fails as the first result that does not parse.
pub proof fn lemma_enumerated_lists_every_result(rs: Seq<EntityResultView>)
    ensures
        (forall|i: int| 0 <= i < rs.len() ==> (#[trigger] parse_spec(rs[i])) is Ok) ==> {
            &&& enumerated(rs) is Ok
            &&& enumerated(rs)->Ok_0.len() == rs.len()
            &&& forall|i: int|
                0 <= i < rs.len() ==> enumerated(rs)->Ok_0[i] == (#[trigger] parse_spec(
                    rs[i],
                ))->Ok_0.0
        },
        forall|k: int|
            0 <= k < rs.len() && (#[trigger] parse_spec(rs[k])) is Err && (forall|i: int|
                0 <= i < k ==> (#[trigger] parse_spec(rs[i])) is Ok) ==> enumerated(rs)
                == Err::<Seq<MetadataView>, ErrorView>(parse_spec(rs[k])->Err_0),
    decreases rs.len(),
{
    if rs.len() > 0 {
        let rest = rs.drop_first();
        lemma_enumerated_lists_every_result(rest);
        assert forall|i: int| 0 <= i < rest.len() implies rest[i] == rs[i + 1] by {}
        if forall|i: int| 0 <= i < rs.len() ==> (#[trigger] parse_spec(rs[i])) is Ok {
            assert(parse_spec(rs[0]) is Ok);
            assert forall|i: int| 0 <= i < rest.len() implies (#[trigger] parse_spec(rest[i])) is Ok by {
                assert(parse_spec(rs[i + 1]) is Ok);
            }
            let v = enumerated(rs)->Ok_0;
            assert forall|i: int| 0 <= i < rs.len() implies v[i] == (#[trigger] parse_spec(
                rs[i],
            ))->Ok_0.0 by {
                if i > 0 {
                    assert(rest[i - 1] == rs[i]);
                }
            }
        }
        assert forall|k: int|
            0 <= k < rs.len() && (#[trigger] parse_spec(rs[k])) is Err && (forall|i: int|
                0 <= i < k ==> (#[trigger] parse_spec(rs[i])) is Ok) implies enumerated(rs)
            == Err::<Seq<MetadataView>, ErrorView>(parse_spec(rs[k])->Err_0) by {
            if k > 0 {
                assert(parse_spec(rs[0]) is Ok);
                assert(rest[k - 1] == rs[k]);
                assert forall|i: int| 0 <= i < k - 1 implies (#[trigger] parse_spec(rest[i])) is Ok by {
                    assert(rest[i] == rs[i + 1]);
                    assert(parse_spec(rs[i + 1]) is Ok);
                }
                assert(parse_spec(rest[k - 1]) is Err);
            }
        }
    }
}

} // verus!
