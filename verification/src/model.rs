//! The circuit data model: a circuit is its metadata plus its designer contents.
use vstd::prelude::*;

verus! {

/// The mathematical value of a `CircuitMetadata`: each text field as a sequence of chars.
pub struct MetadataView {
    pub id: Seq<char>,
    pub name: Seq<char>,
    pub owner: Seq<char>,
    pub desc: Seq<char>,
    pub thumbnail: Seq<char>,
    pub version: Seq<char>,
}

/// The mathematical value of a `Circuit`.
pub struct CircuitView {
    pub metadata: MetadataView,
    pub contents: Seq<char>,
}

/// Descriptive data of a stored circuit. `id` names the circuit in storage and
/// `owner` is the user id of the user that created it.
#[derive(Debug, PartialEq, Eq)]
pub struct CircuitMetadata {
    pub id: String,
    pub name: String,
    pub owner: String,
    pub desc: String,
    pub thumbnail: String,
    pub version: String,
}

/// A circuit: its metadata and the serialized designer contents.
#[derive(Debug, PartialEq, Eq)]
pub struct Circuit {
    pub metadata: CircuitMetadata,
    pub contents: String,
}

impl View for CircuitMetadata {
    type V = MetadataView;

    open spec fn view(&self) -> MetadataView {
        MetadataView {
            id: self.id@,
            name: self.name@,
            owner: self.owner@,
            desc: self.desc@,
            thumbnail: self.thumbnail@,
            version: self.version@,
        }
    }
}

impl View for Circuit {
    type V = CircuitView;

    open spec fn view(&self) -> CircuitView {
        CircuitView { metadata: self.metadata@, contents: self.contents@ }
    }
}

impl MetadataView {
    /// Metadata `other` taken over by a circuit whose identity is `self`:
    /// the id and the owner stay those of `self`, every other field is `other`'s.
    pub open spec fn updated(self, other: MetadataView) -> MetadataView {
        MetadataView { id: self.id, owner: self.owner, ..other }
    }
}

impl CircuitView {
    /// The circuit `self` after an update to `new_circuit`: contents and the
    /// descriptive metadata come from `new_circuit`, id and owner stay.
    pub open spec fn updated(self, new_circuit: CircuitView) -> CircuitView {
        CircuitView {
            metadata: self.metadata.updated(new_circuit.metadata),
            contents: new_circuit.contents,
        }
    }
}

/// `c` with its id replaced by `id`.
pub open spec fn with_id(c: CircuitView, id: Seq<char>) -> CircuitView {
    CircuitView { metadata: MetadataView { id: id, ..c.metadata }, ..c }
}

impl Clone for CircuitMetadata {
    fn clone(&self) -> (r: Self)
        ensures
            r@ == self@,
    {
        CircuitMetadata {
            id: self.id.clone(),
            name: self.name.clone(),
            owner: self.owner.clone(),
            desc: self.desc.clone(),
            thumbnail: self.thumbnail.clone(),
            version: self.version.clone(),
        }
    }
}

impl Clone for Circuit {
    fn clone(&self) -> (r: Self)
        ensures
            r@ == self@,
    {
        Circuit { metadata: self.metadata.clone(), contents: self.contents.clone() }
    }
}

/// The metadata `m` after it takes over the descriptive fields of `other`.
pub open spec fn metadata_updated(m: CircuitMetadata, other: CircuitMetadata) -> CircuitMetadata {
    CircuitMetadata { id: m.id, owner: m.owner, ..other }
}

/// The circuit `c` after an update to `n`.
pub open spec fn circuit_updated(c: Circuit, n: Circuit) -> Circuit {
    Circuit { contents: n.contents, metadata: metadata_updated(c.metadata, n.metadata) }
}

impl CircuitMetadata {
    /// Takes over the descriptive fields of `other`, keeping this metadata's
    /// id and owner.
    pub fn update(self, other: CircuitMetadata) -> (r: CircuitMetadata)
        ensures
            r@ == self@.updated(other@),
            r == metadata_updated(self, other),
    {
        CircuitMetadata { id: self.id, owner: self.owner, ..other }
    }
}

impl Circuit {
    /// Replaces the contents and descriptive metadata by those of
    /// `new_circuit`, keeping this circuit's id and owner.
    pub fn update(self, new_circuit: Circuit) -> (r: Circuit)
        ensures
            r@ == self@.updated(new_circuit@),
            r == circuit_updated(self, new_circuit),
    {
        Circuit {
            contents: new_circuit.contents,
            metadata: self.metadata.update(new_circuit.metadata),
        }
    }
}

/// An update never changes which circuit it is nor who owns it: the id and
/// the owner after an update are those before it.
pub proof fn lemma_update_keeps_identity(c: CircuitView, n: CircuitView)
    ensures
        c.updated(n).metadata.id == c.metadata.id,
        c.updated(n).metadata.owner == c.metadata.owner,
        c.updated(n).contents == n.contents,
        c.updated(n).metadata.name == n.metadata.name,
        c.updated(n).metadata.desc == n.metadata.desc,
        c.updated(n).metadata.thumbnail == n.metadata.thumbnail,
        c.updated(n).metadata.version == n.metadata.version,
{
}

/// Applying the same update twice gives what applying it once gives.
pub proof fn lemma_update_idempotent(c: CircuitView, n: CircuitView)
    ensures
        c.updated(n).updated(n) == c.updated(n),
{
}

/// Of two updates in a row only the last one's content survives: updating
/// with `a` then `b` is updating with `b`.
pub proof fn lemma_update_last_wins(c: CircuitView, a: CircuitView, b: CircuitView)
    ensures
        c.updated(a).updated(b) == c.updated(b),
{
}

/// A circuit updated with itself is unchanged.
pub proof fn lemma_update_with_self(c: CircuitView)
    ensures
        c.updated(c) == c,
{
}

} // verus!
