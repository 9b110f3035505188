//! Circuits kept as entities of a Google Cloud Datastore.
//!
//! Each circuit is one entity of the store's kind; its id is the entity's id and
//! its fields are string properties. The functions here build the requests that
//! a Datastore connection sends and interpret the answers it gets back.
use vstd::prelude::*;

use crate::model::{Circuit, CircuitMetadata, CircuitView, MetadataView};
use crate::storage::Error as SError;

pub mod requests;
pub mod types;

use requests::{del_req, key_for, lookup_req, put_req, query_req};
use types::{
    opt_key, opt_str, props_view, BeginTransactionResponse, CommitRequest, CommitResponse,
    EntityResult, EntityResultView, EntityView, Key, KeyView, LookupRequest, LookupResponse,
    MutationResult, PathElement, RunQueryRequest, RunQueryResponse, Value, ValueView,
};

verus! {

/// Why a Datastore operation failed.
#[derive(Debug, PartialEq, Eq)]
pub enum Error {
    CircuitIdNotFound(String),
    MissingKey,
    MalformedKey(&'static str),
    MissingEntity,
    MalformedEntity(&'static str),
    MissingTransaction,
    MissingMutations,
    UnexpectedMutations,
    MissingResults,
    UnexpectedResults,
    /// The request itself failed; the failure described in words.
    ReqError(String),
}

pub enum ErrorView {
    CircuitIdNotFound(Seq<char>),
    MissingKey,
    MalformedKey(Seq<char>),
    MissingEntity,
    MalformedEntity(Seq<char>),
    MissingTransaction,
    MissingMutations,
    UnexpectedMutations,
    MissingResults,
    UnexpectedResults,
    ReqError(Seq<char>),
}

impl View for Error {
    type V = ErrorView;

    open spec fn view(&self) -> ErrorView {
        match self {
            Error::CircuitIdNotFound(id) => ErrorView::CircuitIdNotFound(id@),
            Error::MissingKey => ErrorView::MissingKey,
            Error::MalformedKey(m) => ErrorView::MalformedKey(m@),
            Error::MissingEntity => ErrorView::MissingEntity,
            Error::MalformedEntity(m) => ErrorView::MalformedEntity(m@),
            Error::MissingTransaction => ErrorView::MissingTransaction,
            Error::MissingMutations => ErrorView::MissingMutations,
            Error::UnexpectedMutations => ErrorView::UnexpectedMutations,
            Error::MissingResults => ErrorView::MissingResults,
            Error::UnexpectedResults => ErrorView::UnexpectedResults,
            Error::ReqError(m) => ErrorView::ReqError(m@),
        }
    }
}

impl Error {
    /// The storage error that this Datastore error stands for: an unknown id
    /// stays an unknown id, anything else is a failure of the Datastore backend.
    pub fn wrap(self) -> (r: SError)
        ensures
            match self {
                Error::CircuitIdNotFound(id) => r == SError::CircuitIdNotFound(id),
                _ => r == SError::Datastore(self),
            },
    {
        match self {
            Error::CircuitIdNotFound(id) => SError::CircuitIdNotFound(id),
            a => SError::Datastore(a),
        }
    }
}

/// The view of a result whose success value is a string.
pub open spec fn str_result(r: Result<String, Error>) -> Result<Seq<char>, ErrorView> {
    match r {
        Ok(s) => Ok(s@),
        Err(e) => Err(e@),
    }
}

/// The id that a key names: the id of the first element of its path.
pub open spec fn key_id(k: Option<KeyView>) -> Result<Seq<char>, ErrorView> {
    match k {
        None => Err(ErrorView::MissingKey),
        Some(k) => match k.path {
            None => Err(ErrorView::MalformedKey("Missing path"@)),
            Some(p) => if p.len() == 0 {
                Err(ErrorView::MalformedKey("Missing path entry"@))
            } else {
                match p[0].id {
                    None => Err(ErrorView::MalformedKey("Missing id"@)),
                    Some(id) => Ok(id),
                }
            },
        },
    }
}

/// The id that `key` names.
pub fn get_id_from_key(key: Option<Key>) -> (r: Result<String, Error>)
    ensures
        str_result(r) == key_id(opt_key(key)),
{
    match key {
        None => Err(Error::MissingKey),
        Some(k) => match k.path {
            None => Err(Error::MalformedKey("Missing path")),
            Some(p) => {
                if p.len() == 0 {
                    Err(Error::MalformedKey("Missing path entry"))
                } else {
                    assert(p@.map_values(|e: PathElement| e@)[0] == p@[0]@);
                    match &p[0].id {
                        None => Err(Error::MalformedKey("Missing id")),
                        Some(id) => Ok(id.clone()),
                    }
                }
            },
        },
    }
}

/// The entity properties that hold circuit `c`: every field as a string value,
/// the large ones (thumbnail and contents) left out of the indexes.
pub open spec fn format_spec(c: CircuitView) -> Seq<(Seq<char>, ValueView)> {
    seq![
        ("Name"@, ValueView { string_value: Some(c.metadata.name), exclude_from_indexes: Some(false) }),
        ("Owner"@, ValueView { string_value: Some(c.metadata.owner), exclude_from_indexes: Some(false) }),
        ("Desc"@, ValueView { string_value: Some(c.metadata.desc), exclude_from_indexes: Some(false) }),
        ("Thumbnail"@, ValueView { string_value: Some(c.metadata.thumbnail), exclude_from_indexes: Some(true) }),
        ("Version"@, ValueView { string_value: Some(c.metadata.version), exclude_from_indexes: Some(false) }),
        ("CircuitDesigner"@, ValueView { string_value: Some(c.contents), exclude_from_indexes: Some(true) }),
    ]
}

fn string_prop(name: &str, v: String, exclude: bool) -> (r: (String, Value))
    ensures
        r.0@ == name@,
        r.1@ == (ValueView { string_value: Some(v@), exclude_from_indexes: Some(exclude) }),
{
    (String::from_str(name), Value { string_value: Some(v), exclude_from_indexes: Some(exclude) })
}

/// The entity properties that hold circuit `c` (its id goes in the key).
pub fn format_circuit(c: Circuit) -> (r: Vec<(String, Value)>)
    ensures
        props_view(r@) == format_spec(c@),
{
    let ghost cv = c@;
    let mut r: Vec<(String, Value)> = Vec::new();
    r.push(string_prop("Name", c.metadata.name, false));
    r.push(string_prop("Owner", c.metadata.owner, false));
    r.push(string_prop("Desc", c.metadata.desc, false));
    r.push(string_prop("Thumbnail", c.metadata.thumbnail, true));
    r.push(string_prop("Version", c.metadata.version, false));
    r.push(string_prop("CircuitDesigner", c.contents, true));
    assert(props_view(r@) =~= format_spec(cv));
    r
}

/// The string value of the property `name`, if the entity has one.
pub open spec fn prop_value(props: Seq<(Seq<char>, ValueView)>, name: Seq<char>) -> Option<Seq<char>>
    decreases props.len(),
{
    if props.len() == 0 {
        None
    } else if props[0].0 == name && props[0].1.string_value is Some {
        props[0].1.string_value
    } else {
        prop_value(props.drop_first(), name)
    }
}

/// No two properties of `props` share a name, as in an entity's property map.
pub open spec fn names_unique(props: Seq<(Seq<char>, ValueView)>) -> bool {
    forall|i: int, j: int|
        0 <= i < props.len() && 0 <= j < props.len() && i != j ==> #[trigger] props[i].0
            != #[trigger] props[j].0
}

/// `p` and `q` hold the same properties, in whatever order.
pub open spec fn same_props(p: Seq<(Seq<char>, ValueView)>, q: Seq<(Seq<char>, ValueView)>) -> bool {
    forall|x: (Seq<char>, ValueView)| p.contains(x) <==> q.contains(x)
}

/// Among uniquely named properties, the value read for `name` is the string
/// value of the property so named, wherever it stands, and there is none
/// where no property has that name.
pub proof fn lemma_prop_value_by_name(props: Seq<(Seq<char>, ValueView)>, name: Seq<char>, i: int)
    requires
        names_unique(props),
    ensures
        0 <= i < props.len() && props[i].0 == name ==> prop_value(props, name)
            == props[i].1.string_value,
        (forall|j: int| 0 <= j < props.len() ==> #[trigger] props[j].0 != name) ==> prop_value(
            props,
            name,
        ) is None,
    decreases props.len(),
{
    if props.len() > 0 {
        let rest = props.drop_first();
        assert(names_unique(rest)) by {
            assert forall|a: int, b: int|
                0 <= a < rest.len() && 0 <= b < rest.len() && a != b implies #[trigger] rest[a].0
                != #[trigger] rest[b].0 by {
                assert(rest[a] == props[a + 1] && rest[b] == props[b + 1]);
            }
        }
        if props[0].0 == name {
            assert forall|j: int| 0 <= j < rest.len() implies #[trigger] rest[j].0 != name by {
                assert(rest[j] == props[j + 1]);
            }
            lemma_prop_value_by_name(rest, name, 0);
        } else {
            lemma_prop_value_by_name(rest, name, i - 1);
            if (forall|j: int| 0 <= j < props.len() ==> #[trigger] props[j].0 != name) {
                assert forall|j: int| 0 <= j < rest.len() implies #[trigger] rest[j].0 != name by {
                    assert(rest[j] == props[j + 1]);
                }
            }
            if 0 < i < props.len() && props[i].0 == name {
                assert(rest[i - 1] == props[i]);
            }
        }
    }
}

/// The properties read out of an entity do not depend on the order in which
/// they arrive: two lists of the same uniquely named properties give every
/// name the same value.
pub proof fn lemma_prop_value_order_independent(
    p: Seq<(Seq<char>, ValueView)>,
    q: Seq<(Seq<char>, ValueView)>,
    name: Seq<char>,
)
    requires
        names_unique(p),
        names_unique(q),
        same_props(p, q),
    ensures
        prop_value(p, name) == prop_value(q, name),
{
    if exists|i: int| 0 <= i < p.len() && p[i].0 == name {
        let i = choose|i: int| 0 <= i < p.len() && p[i].0 == name;
        assert(p.contains(p[i]));
        assert(q.contains(p[i]));
        let j = choose|j: int| 0 <= j < q.len() && q[j] == p[i];
        lemma_prop_value_by_name(p, name, i);
        lemma_prop_value_by_name(q, name, j);
    } else {
        assert forall|j: int| 0 <= j < q.len() implies #[trigger] q[j].0 != name by {
            assert(q.contains(q[j]));
            assert(p.contains(q[j]));
        }
        lemma_prop_value_by_name(p, name, 0);
        lemma_prop_value_by_name(q, name, 0);
    }
}

/// The string value of the property `name` of `props`, if there is one.
pub fn find_prop(props: &Vec<(String, Value)>, name: &str) -> (r: Option<String>)
    ensures
        opt_str(r) == prop_value(props_view(props@), name@),
{
    let key = String::from_str(name);
    let ghost pv = props_view(props@);
    let mut i: usize = 0;
    assert(pv.skip(0) =~= pv);
    while i < props.len()
        invariant
            0 <= i <= props@.len(),
            pv == props_view(props@),
            key@ == name@,
            prop_value(pv, name@) == prop_value(pv.skip(i as int), name@),
        decreases props@.len() - i,
    {
        assert(pv.skip(i as int)[0] == pv[i as int]);
        assert(pv[i as int] == (props@[i as int].0@, props@[i as int].1@));
        if props[i].0 == key {
            match &props[i].1.string_value {
                Some(s) => {
                    return Some(s.clone());
                },
                None => {},
            }
        }
        assert(pv.skip(i as int).drop_first() =~= pv.skip(i + 1));
        i += 1;
    }
    None
}

/// The view of a parsed entity: its metadata and its contents, if it has them.
pub open spec fn parsed_view(r: Result<(CircuitMetadata, Option<String>), Error>) -> Result<
    (MetadataView, Option<Seq<char>>),
    ErrorView,
> {
    match r {
        Ok((m, c)) => Ok((m@, opt_str(c))),
        Err(e) => Err(e@),
    }
}

/// What an entity found by a lookup or a query says of a circuit: its
/// metadata, and its contents where the entity has them. The id comes from
/// the key; name, description, thumbnail and version must be there; a missing
/// owner reads as empty.
pub open spec fn parse_spec(result: EntityResultView) -> Result<
    (MetadataView, Option<Seq<char>>),
    ErrorView,
> {
    match result.entity {
        None => Err(ErrorView::MissingEntity),
        Some(e) => match key_id(e.key) {
            Err(err) => Err(err),
            Ok(id) => match e.properties {
                None => Err(ErrorView::MalformedEntity("Empty props"@)),
                Some(p) => {
                    let name = prop_value(p, "Name"@);
                    let desc = prop_value(p, "Desc"@);
                    let thumbnail = prop_value(p, "Thumbnail"@);
                    let version = prop_value(p, "Version"@);
                    if name is None || desc is None || thumbnail is None || version is None {
                        Err(ErrorView::MalformedEntity("Incomplete entry"@))
                    } else {
                        Ok(
                            (
                                MetadataView {
                                    id: id,
                                    name: name->0,
                                    owner: match prop_value(p, "Owner"@) {
                                        Some(o) => o,
                                        None => Seq::empty(),
                                    },
                                    desc: desc->0,
                                    thumbnail: thumbnail->0,
                                    version: version->0,
                                },
                                prop_value(p, "CircuitDesigner"@),
                            ),
                        )
                    }
                },
            },
        },
    }
}

/// Reads a circuit's metadata, and its contents where present, out of an entity.
pub fn parse_circuit(result: EntityResult) -> (r: Result<(CircuitMetadata, Option<String>), Error>)
    ensures
        parsed_view(r) == parse_spec(result@),
{
    let entity = match result.entity {
        Some(e) => e,
        None => {
            return Err(Error::MissingEntity);
        },
    };
    let id = match get_id_from_key(entity.key) {
        Ok(id) => id,
        Err(e) => {
            return Err(e);
        },
    };
    let props = match entity.properties {
        Some(p) => p,
        None => {
            return Err(Error::MalformedEntity("Empty props"));
        },
    };
    let name = find_prop(&props, "Name");
    let owner = find_prop(&props, "Owner");
    let desc = find_prop(&props, "Desc");
    let thumbnail = find_prop(&props, "Thumbnail");
    let version = find_prop(&props, "Version");
    let contents = find_prop(&props, "CircuitDesigner");
    match (name, desc, thumbnail, version) {
        (Some(name), Some(desc), Some(thumbnail), Some(version)) => {
            let owner = match owner {
                Some(o) => o,
                None => String::new(),
            };
            let metadata = CircuitMetadata { id, name, owner, desc, thumbnail, version };
            Ok((metadata, contents))
        },
        _ => Err(Error::MalformedEntity("Incomplete entry")),
    }
}

/// The body of a successful response, or the failure of the request.
pub fn unwrap_resp<S, T>(result: Result<(S, T), String>) -> (r: Result<T, Error>)
    ensures
        match result {
            Ok((_, t)) => r == Ok::<T, Error>(t),
            Err(e) => r == Err::<T, Error>(Error::ReqError(e)),
        },
{
    match result {
        Ok((_, res)) => Ok(res),
        Err(e) => Err(Error::ReqError(e)),
    }
}

/// The view of a result whose success value is a circuit.
pub open spec fn circuit_result(r: Result<Circuit, Error>) -> Result<CircuitView, ErrorView> {
    match r {
        Ok(c) => Ok(c@),
        Err(e) => Err(e@),
    }
}

/// The circuit that a parsed entity gives, which must have its contents.
pub open spec fn loaded_circuit(
    p: Result<(MetadataView, Option<Seq<char>>), ErrorView>,
) -> Result<CircuitView, ErrorView> {
    match p {
        Err(e) => Err(e),
        Ok((md, None)) => Err(ErrorView::MissingResults),
        Ok((md, Some(contents))) => Ok(CircuitView { metadata: md, contents: contents }),
    }
}

/// The views of a sequence of circuit metadata.
pub open spec fn metadata_views(v: Seq<CircuitMetadata>) -> Seq<MetadataView> {
    v.map_values(|m: CircuitMetadata| m@)
}

/// The metadata that a query for the circuits of `owner` gives: each result
/// parsed, with `owner` as its owner; the first result that does not parse
/// fails the whole.
pub open spec fn enumerated(results: Seq<EntityResultView>, owner: Seq<char>) -> Result<
    Seq<MetadataView>,
    ErrorView,
>
    decreases results.len(),
{
    if results.len() == 0 {
        Ok(Seq::empty())
    } else {
        match parse_spec(results[0]) {
            Err(e) => Err(e),
            Ok((md, _)) => match enumerated(results.drop_first(), owner) {
                Err(e) => Err(e),
                Ok(rest) => Ok(seq![MetadataView { owner: owner, ..md }] + rest),
            },
        }
    }
}

/// The results that a query's batch holds.
pub open spec fn entity_results_view(v: Seq<EntityResult>) -> Seq<EntityResultView> {
    v.map_values(|e: EntityResult| e@)
}

/// `prefix` put in front of the success value of `r`.
pub open spec fn prepend(prefix: Seq<MetadataView>, r: Result<Seq<MetadataView>, ErrorView>) -> Result<
    Seq<MetadataView>,
    ErrorView,
> {
    match r {
        Ok(rest) => Ok(prefix + rest),
        Err(e) => Err(e),
    }
}

/// The mathematical value of a Datastore circuit store: the project, the
/// emulator URL where one is used, and the entity kind that holds circuits.
pub struct GcpDsView {
    pub project_id: Seq<char>,
    pub datastore_url: Option<Seq<char>>,
    pub kind: Seq<char>,
}

/// A circuit store on Google Cloud Datastore (or its emulator).
pub struct GcpDsInterface {
    project_id: String,
    datastore_url: Option<String>,
    kind: String,
}

impl View for GcpDsInterface {
    type V = GcpDsView;

    closed spec fn view(&self) -> GcpDsView {
        GcpDsView {
            project_id: self.project_id@,
            datastore_url: opt_str(self.datastore_url),
            kind: self.kind@,
        }
    }
}

impl GcpDsInterface {
    /// The store in the Datastore of project `project_id`.
    pub fn new(project_id: String) -> (r: GcpDsInterface)
        ensures
            r@ == (GcpDsView { project_id: project_id@, datastore_url: None, kind: "Circuit"@ }),
    {
        GcpDsInterface { project_id: project_id, datastore_url: None, kind: String::from_str("Circuit") }
    }

    /// The store in the Datastore emulator at `emu_url` (fully specified, with
    /// scheme and trailing slash), for project `project_id`.
    pub fn new_emu(project_id: String, emu_url: String) -> (r: GcpDsInterface)
        ensures
            r@ == (GcpDsView {
                project_id: project_id@,
                datastore_url: Some(emu_url@),
                kind: "Circuit"@,
            }),
    {
        GcpDsInterface {
            project_id: project_id,
            datastore_url: Some(emu_url),
            kind: String::from_str("Circuit"),
        }
    }

    /// The project whose Datastore holds the circuits.
    pub fn project_id(&self) -> (r: &String)
        ensures
            r@ == self@.project_id,
    {
        &self.project_id
    }

    /// The emulator URL that replaces Datastore's own, if any.
    pub fn datastore_url(&self) -> (r: Option<String>)
        ensures
            opt_str(r) == self@.datastore_url,
    {
        match &self.datastore_url {
            Some(u) => Some(u.clone()),
            None => None,
        }
    }

    /// The lookup that loads the circuit `id`.
    pub fn load_circuit_req(&self, id: &String) -> (r: LookupRequest)
        ensures
            r.keys matches Some(ks) && ks.len() == 1 && ks[0]@ == key_for(self@.kind, Some(id@)),
    {
        let mut ids: Vec<String> = Vec::new();
        ids.push(id.clone());
        lookup_req(self.kind.as_str(), ids)
    }

    /// The circuit `id` that a lookup answered with: exactly one entity must
    /// be found, and it must hold the contents.
    pub fn load_circuit_1<S>(&self, id: String, result: Result<(S, LookupResponse), String>) -> (r:
        Result<Circuit, Error>)
        ensures
            match result {
                Err(e) => r == Err::<Circuit, Error>(Error::ReqError(e)),
                Ok((_, resp)) => match resp.found {
                    None => r == Err::<Circuit, Error>(Error::CircuitIdNotFound(id)),
                    Some(v) => if v.len() == 1 {
                        circuit_result(r) == loaded_circuit(parse_spec(v[0]@))
                    } else {
                        r == Err::<Circuit, Error>(Error::UnexpectedResults)
                    },
                },
            },
    {
        let resp = match unwrap_resp(result) {
            Ok(resp) => resp,
            Err(e) => {
                return Err(e);
            },
        };
        let found = match resp.found {
            Some(v) => {
                if v.len() == 1 {
                    let mut v = v;
                    v.remove(0)
                } else {
                    return Err(Error::UnexpectedResults);
                }
            },
            None => {
                return Err(Error::CircuitIdNotFound(id));
            },
        };
        let (md, contents) = match parse_circuit(found) {
            Ok(p) => p,
            Err(e) => {
                return Err(e);
            },
        };
        match contents {
            Some(contents) => Ok(Circuit { metadata: md, contents: contents }),
            None => Err(Error::MissingResults),
        }
    }

    /// The query for the circuits of user `id`.
    pub fn enumerate_circuits_req(&self, id: &String) -> (r: RunQueryRequest)
        ensures
            r.query matches Some(q) && {
                &&& q.filter matches Some(f) && f.property_filter matches Some(pf) && {
                    &&& pf.property matches Some(pr) && opt_str(pr.name) == Some("Owner"@)
                    &&& pf.value matches Some(v) && v@ == (ValueView {
                        string_value: Some(id@),
                        exclude_from_indexes: None,
                    })
                    &&& pf.op matches Some(op) && op@ == "EQUAL"@
                }
                &&& q.kind matches Some(ks) && ks.len() == 1 && opt_str(ks[0].name) == Some(
                    self@.kind,
                )
                &&& q.projection is None
            },
    {
        query_req(self.kind.as_str(), "Owner", id.as_str(), None)
    }

    /// The metadata of the circuits of user `id` that a query answered with.
    pub fn enumerate_circuits_1<S>(
        &self,
        id: String,
        result: Result<(S, RunQueryResponse), String>,
    ) -> (r: Result<Vec<CircuitMetadata>, Error>)
        ensures
            match result {
                Err(e) => r == Err::<Vec<CircuitMetadata>, Error>(Error::ReqError(e)),
                Ok((_, resp)) => match resp.batch {
                    None => r == Err::<Vec<CircuitMetadata>, Error>(Error::MissingResults),
                    Some(b) => match b.entity_results {
                        None => (r matches Ok(v) && v.len() == 0),
                        Some(ers) => match enumerated(entity_results_view(ers@), id@) {
                            Ok(mds) => (r matches Ok(v) && metadata_views(v@) == mds),
                            Err(e) => (r matches Err(re) && re@ == e),
                        },
                    },
                },
            },
    {
        let resp = match unwrap_resp(result) {
            Ok(resp) => resp,
            Err(e) => {
                return Err(e);
            },
        };
        let batch = match resp.batch {
            Some(b) => b,
            None => {
                return Err(Error::MissingResults);
            },
        };
        let mut ers = match batch.entity_results {
            Some(res) => res,
            None => {
                return Ok(Vec::new());
            },
        };
        let ghost orig = entity_results_view(ers@);
        let mut mds: Vec<CircuitMetadata> = Vec::new();
        assert(orig.skip(0) =~= orig);
        assert(metadata_views(mds@) =~= Seq::<MetadataView>::empty());
        while ers.len() > 0
            invariant
                entity_results_view(ers@) == orig.skip(orig.len() - ers.len()),
                match result {
                    Ok((_, resp0)) => match resp0.batch {
                        Some(b0) => match b0.entity_results {
                            Some(e0) => entity_results_view(e0@) == orig,
                            None => false,
                        },
                        None => false,
                    },
                    Err(_) => false,
                },
                ers.len() <= orig.len(),
                enumerated(orig, id@) == prepend(
                    metadata_views(mds@),
                    enumerated(entity_results_view(ers@), id@),
                ),
            decreases ers.len(),
        {
            let ghost rest = entity_results_view(ers@);
            let er = ers.remove(0);
            proof {
                assert(rest[0] == er@);
                assert(entity_results_view(ers@) =~= rest.drop_first());
                assert(rest.drop_first() =~= orig.skip(orig.len() - ers.len()));
            }
            let (mut md, _contents) = match parse_circuit(er) {
                Ok(p) => p,
                Err(e) => {
                    return Err(e);
                },
            };
            md.owner = id.clone();
            let ghost before = metadata_views(mds@);
            mds.push(md);
            proof {
                assert(metadata_views(mds@) =~= before.push(md@));
                match enumerated(entity_results_view(ers@), id@) {
                    Ok(tail) => {
                        assert(before + (seq![md@] + tail) =~= before.push(md@) + tail);
                    },
                    Err(_) => {},
                }
            }
        }
        proof {
            assert(entity_results_view(ers@) =~= Seq::<EntityResultView>::empty());
            assert(metadata_views(mds@) + Seq::<MetadataView>::empty() =~= metadata_views(mds@));
        }
        Ok(mds)
    }

    /// The transaction that Datastore opened for a commit.
    pub fn init_transaction<S>(result: Result<(S, BeginTransactionResponse), String>) -> (r: Result<
        String,
        Error,
    >)
        ensures
            match result {
                Err(e) => r == Err::<String, Error>(Error::ReqError(e)),
                Ok((_, resp)) => match resp.transaction {
                    Some(t) => r == Ok::<String, Error>(t),
                    None => r == Err::<String, Error>(Error::MissingTransaction),
                },
            },
    {
        let resp = match unwrap_resp(result) {
            Ok(resp) => resp,
            Err(e) => {
                return Err(e);
            },
        };
        match resp.transaction {
            Some(t) => Ok(t),
            None => Err(Error::MissingTransaction),
        }
    }

    /// The commit, within `transaction`, that writes circuit `c`: under its id
    /// where it has one, under an id that Datastore picks where its id is empty.
    pub fn put_circuit_req(&self, c: &Circuit, transaction: String) -> (r: CommitRequest)
        ensures
            r.transaction == Some(transaction),
            r.mutations matches Some(ms) && {
                &&& ms.len() == 1
                &&& ms[0].delete is None
                &&& ms[0].insert is None
                &&& ms[0].update is None
                &&& (ms[0].upsert matches Some(e) && {
                    &&& (e.properties matches Some(p) && props_view(p@) == format_spec(c@))
                    &&& opt_key(e.key) == Some(
                        key_for(
                            self@.kind,
                            if c@.metadata.id.len() > 0 {
                                Some(c@.metadata.id)
                            } else {
                                None
                            },
                        ),
                    )
                })
            },
    {
        let id = if !c.metadata.id.as_str().is_empty() {
            Some(c.metadata.id.clone())
        } else {
            None
        };
        put_req(self.kind.as_str(), id, transaction, format_circuit(c.clone()))
    }

    /// The single mutation result of a commit that wrote one circuit.
    pub fn put_circuit<S>(result: Result<(S, CommitResponse), String>) -> (r: Result<
        MutationResult,
        Error,
    >)
        ensures
            match result {
                Err(e) => r == Err::<MutationResult, Error>(Error::ReqError(e)),
                Ok((_, resp)) => match resp.mutation_results {
                    Some(v) => if v.len() == 1 {
                        r == Ok::<MutationResult, Error>(v[0])
                    } else {
                        r == Err::<MutationResult, Error>(Error::MissingMutations)
                    },
                    None => r == Err::<MutationResult, Error>(Error::MissingMutations),
                },
            },
    {
        let resp = match unwrap_resp(result) {
            Ok(resp) => resp,
            Err(e) => {
                return Err(e);
            },
        };
        match resp.mutation_results {
            Some(v) => {
                if v.len() == 1 {
                    let mut v = v;
                    Ok(v.remove(0))
                } else {
                    Err(Error::MissingMutations)
                }
            },
            None => Err(Error::MissingMutations),
        }
    }

    /// The outcome of updating a circuit, from the outcome of writing it.
    pub fn update_circuit_1(put: Result<MutationResult, Error>) -> (r: Result<(), Error>)
        ensures
            match put {
                Ok(_) => r is Ok,
                Err(e) => r == Err::<(), Error>(e),
            },
    {
        match put {
            Ok(_) => Ok(()),
            Err(e) => Err(e),
        }
    }

    /// The new circuit: `c` under the id that Datastore gave it when writing it.
    pub fn new_circuit_1(c: Circuit, put: Result<MutationResult, Error>) -> (r: Result<Circuit, Error>)
        ensures
            match put {
                Err(e) => r == Err::<Circuit, Error>(e),
                Ok(m) => match key_id(opt_key(m.key)) {
                    Ok(id) => (r matches Ok(n) && n@ == CircuitView {
                        metadata: MetadataView { id: id, ..c@.metadata },
                        ..c@
                    }),
                    Err(e) => (r matches Err(re) && re@ == e),
                },
            },
    {
        let mut_res = match put {
            Ok(m) => m,
            Err(e) => {
                return Err(e);
            },
        };
        let id = match get_id_from_key(mut_res.key) {
            Ok(id) => id,
            Err(e) => {
                return Err(e);
            },
        };
        Ok(Circuit { metadata: CircuitMetadata { id: id, ..c.metadata }, ..c })
    }

    /// The commit, within `transaction`, that deletes circuit `id`.
    pub fn delete_circuit_req(&self, id: String, transaction: String) -> (r: CommitRequest)
        ensures
            r.transaction == Some(transaction),
            r.mutations matches Some(ms) && {
                &&& ms.len() == 1
                &&& ms[0].upsert is None
                &&& ms[0].insert is None
                &&& ms[0].update is None
                &&& opt_key(ms[0].delete) == Some(key_for(self@.kind, Some(id@)))
            },
    {
        del_req(self.kind.as_str(), transaction, id)
    }

    /// The outcome of a delete from its commit's answer: it touched at most one
    /// index entry (none where the circuit was not there).
    pub fn delete_circuit_1<S>(result: Result<(S, CommitResponse), String>) -> (r: Result<(), Error>)
        ensures
            match result {
                Err(e) => r == Err::<(), Error>(Error::ReqError(e)),
                Ok((_, resp)) => match resp.index_updates {
                    None => r == Err::<(), Error>(Error::MissingMutations),
                    Some(n) => if n == 0 || n == 1 {
                        r is Ok
                    } else {
                        r == Err::<(), Error>(Error::UnexpectedMutations)
                    },
                },
            },
    {
        let resp = match unwrap_resp(result) {
            Ok(resp) => resp,
            Err(e) => {
                return Err(e);
            },
        };
        match resp.index_updates {
            None => Err(Error::MissingMutations),
            Some(n) => {
                if n == 0 || n == 1 {
                    Ok(())
                } else {
                    Err(Error::UnexpectedMutations)
                }
            },
        }
    }
}

/// What a put writes, a lookup reads back: the entity that holds circuit `c`
/// under its own id parses to `c`'s metadata and contents, and loads as `c`.
pub proof fn lemma_parse_format_roundtrip(c: CircuitView, kind: Seq<char>)
    ensures
        parse_spec(
            EntityResultView {
                entity: Some(
                    EntityView {
                        key: Some(key_for(kind, Some(c.metadata.id))),
                        properties: Some(format_spec(c)),
                    },
                ),
            },
        ) == Ok::<(MetadataView, Option<Seq<char>>), ErrorView>((c.metadata, Some(c.contents))),
        loaded_circuit(
            parse_spec(
                EntityResultView {
                    entity: Some(
                        EntityView {
                            key: Some(key_for(kind, Some(c.metadata.id))),
                            properties: Some(format_spec(c)),
                        },
                    ),
                },
            ),
        ) == Ok::<CircuitView, ErrorView>(c),
{
    reveal_strlit("Name");
    reveal_strlit("Owner");
    reveal_strlit("Desc");
    reveal_strlit("Thumbnail");
    reveal_strlit("Version");
    reveal_strlit("CircuitDesigner");
    assert("Name"@.len() == 4);
    assert("Owner"@.len() == 5);
    assert("Desc"@.len() == 4);
    assert("Thumbnail"@.len() == 9);
    assert("Version"@.len() == 7);
    assert("CircuitDesigner"@.len() == 15);
    assert("Name"@[0] == 'N' && "Desc"@[0] == 'D');
    let p = format_spec(c);
    reveal_with_fuel(prop_value, 7);
    assert(prop_value(p, "Name"@) == Some(c.metadata.name));
    assert(prop_value(p, "Owner"@) == Some(c.metadata.owner));
    assert(prop_value(p, "Desc"@) == Some(c.metadata.desc));
    assert(prop_value(p, "Thumbnail"@) == Some(c.metadata.thumbnail));
    assert(prop_value(p, "Version"@) == Some(c.metadata.version));
    assert(prop_value(p, "CircuitDesigner"@) == Some(c.contents));
}

/// How an entity's properties are ordered does not change what it parses to.
pub proof fn lemma_parse_order_independent(
    key: Option<KeyView>,
    p: Seq<(Seq<char>, ValueView)>,
    q: Seq<(Seq<char>, ValueView)>,
)
    requires
        names_unique(p),
        names_unique(q),
        same_props(p, q),
    ensures
        parse_spec(EntityResultView { entity: Some(EntityView { key: key, properties: Some(p) }) })
            == parse_spec(
            EntityResultView { entity: Some(EntityView { key: key, properties: Some(q) }) },
        ),
{
    lemma_prop_value_order_independent(p, q, "Name"@);
    lemma_prop_value_order_independent(p, q, "Owner"@);
    lemma_prop_value_order_independent(p, q, "Desc"@);
    lemma_prop_value_order_independent(p, q, "Thumbnail"@);
    lemma_prop_value_order_independent(p, q, "Version"@);
    lemma_prop_value_order_independent(p, q, "CircuitDesigner"@);
}

/// The properties that hold a circuit have distinct names.
pub proof fn lemma_format_names_unique(c: CircuitView)
    ensures
        names_unique(format_spec(c)),
{
    reveal_strlit("Name");
    reveal_strlit("Owner");
    reveal_strlit("Desc");
    reveal_strlit("Thumbnail");
    reveal_strlit("Version");
    reveal_strlit("CircuitDesigner");
    assert("Name"@.len() == 4);
    assert("Owner"@.len() == 5);
    assert("Desc"@.len() == 4);
    assert("Thumbnail"@.len() == 9);
    assert("Version"@.len() == 7);
    assert("CircuitDesigner"@.len() == 15);
    assert("Name"@[0] == 'N' && "Desc"@[0] == 'D');
}

/// An entity that holds the properties written for circuit `c`, under `c`'s
/// own id and in any order, loads as `c`.
pub proof fn lemma_load_format_any_order(c: CircuitView, kind: Seq<char>, q: Seq<(Seq<char>, ValueView)>)
    requires
        names_unique(q),
        same_props(format_spec(c), q),
    ensures
        loaded_circuit(
            parse_spec(
                EntityResultView {
                    entity: Some(
                        EntityView {
                            key: Some(key_for(kind, Some(c.metadata.id))),
                            properties: Some(q),
                        },
                    ),
                },
            ),
        ) == Ok::<CircuitView, ErrorView>(c),
{
    lemma_format_names_unique(c);
    lemma_parse_order_independent(Some(key_for(kind, Some(c.metadata.id))), format_spec(c), q);
    lemma_parse_format_roundtrip(c, kind);
}

/// A listing for `owner` has one entry per query result, in the query's
/// order: where every result parses, entry `i` is the metadata of result `i`
/// with `owner` as its owner; otherwise the listing fails as the first result
/// that does not parse.
pub proof fn lemma_enumerated_lists_every_result(rs: Seq<EntityResultView>, owner: Seq<char>)
    ensures
        (forall|i: int| 0 <= i < rs.len() ==> (#[trigger] parse_spec(rs[i])) is Ok) ==> {
            &&& enumerated(rs, owner) is Ok
            &&& enumerated(rs, owner)->Ok_0.len() == rs.len()
            &&& forall|i: int|
                0 <= i < rs.len() ==> enumerated(rs, owner)->Ok_0[i] == MetadataView {
                    owner: owner,
                    ..(#[trigger] parse_spec(rs[i]))->Ok_0.0
                }
        },
        forall|k: int|
            0 <= k < rs.len() && (#[trigger] parse_spec(rs[k])) is Err && (forall|i: int|
                0 <= i < k ==> (#[trigger] parse_spec(rs[i])) is Ok) ==> enumerated(rs, owner)
                == Err::<Seq<MetadataView>, ErrorView>(parse_spec(rs[k])->Err_0),
    decreases rs.len(),
{
    if rs.len() > 0 {
        let rest = rs.drop_first();
        lemma_enumerated_lists_every_result(rest, owner);
        assert forall|i: int| 0 <= i < rest.len() implies rest[i] == rs[i + 1] by {}
        if forall|i: int| 0 <= i < rs.len() ==> (#[trigger] parse_spec(rs[i])) is Ok {
            assert(parse_spec(rs[0]) is Ok);
            assert forall|i: int| 0 <= i < rest.len() implies (#[trigger] parse_spec(rest[i])) is Ok by {
                assert(parse_spec(rs[i + 1]) is Ok);
            }
            let v = enumerated(rs, owner)->Ok_0;
            assert forall|i: int| 0 <= i < rs.len() implies v[i] == MetadataView {
                owner: owner,
                ..(#[trigger] parse_spec(rs[i]))->Ok_0.0
            } by {
                if i > 0 {
                    assert(rest[i - 1] == rs[i]);
                }
            }
        }
        assert forall|k: int|
            0 <= k < rs.len() && (#[trigger] parse_spec(rs[k])) is Err && (forall|i: int|
                0 <= i < k ==> (#[trigger] parse_spec(rs[i])) is Ok) implies enumerated(rs, owner)
            == Err::<Seq<MetadataView>, ErrorView>(parse_spec(rs[k])->Err_0) by {
            if k > 0 {
                assert(parse_spec(rs[0]) is Ok);
                assert(rest[k - 1] == rs[k]);
                assert forall|i: int| 0 <= i < k - 1 implies (#[trigger] parse_spec(rest[i])) is Ok by {
                    assert(rest[i] == rs[i + 1]);
                    assert(parse_spec(rs[i + 1]) is Ok);
                }
                assert(parse_spec(rest[k - 1]) is Err);
            }
        }
    }
}

/// The entity written for circuit `c` holds each field under its own name:
/// `Name`, `Owner`, `Desc`, `Thumbnail` and `Version` hold the metadata's
/// fields and `CircuitDesigner` the contents, and nothing else is written.
pub proof fn lemma_format_holds_each_field(c: CircuitView)
    ensures
        format_spec(c).len() == 6,
        prop_value(format_spec(c), "Name"@) == Some(c.metadata.name),
        prop_value(format_spec(c), "Owner"@) == Some(c.metadata.owner),
        prop_value(format_spec(c), "Desc"@) == Some(c.metadata.desc),
        prop_value(format_spec(c), "Thumbnail"@) == Some(c.metadata.thumbnail),
        prop_value(format_spec(c), "Version"@) == Some(c.metadata.version),
        prop_value(format_spec(c), "CircuitDesigner"@) == Some(c.contents),
{
    lemma_format_names_unique(c);
    let p = format_spec(c);
    lemma_prop_value_by_name(p, "Name"@, 0);
    lemma_prop_value_by_name(p, "Owner"@, 1);
    lemma_prop_value_by_name(p, "Desc"@, 2);
    lemma_prop_value_by_name(p, "Thumbnail"@, 3);
    lemma_prop_value_by_name(p, "Version"@, 4);
    lemma_prop_value_by_name(p, "CircuitDesigner"@, 5);
}

} // verus!
