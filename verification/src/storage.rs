//! The storage interface that every circuit store offers, and its errors.
use vstd::prelude::*;

use crate::model::{with_id, Circuit, CircuitMetadata};

pub mod gcp_datastore;
pub mod gcp_direct;
pub mod mem;
pub mod sqlite;

verus! {

/// Why a storage operation failed.
#[derive(Debug, PartialEq, Eq)]
pub enum Error {
    /// No circuit is stored under this id.
    CircuitIdNotFound(String),
    /// The storage service answered with something that cannot be used.
    BadResponse(String),
    /// The Datastore backend failed.
    Datastore(gcp_datastore::Error),
    /// Any other failure of the storage backend, described in words.
    Other(String),
}

pub enum ErrorView {
    CircuitIdNotFound(Seq<char>),
    BadResponse(Seq<char>),
    Datastore(gcp_datastore::ErrorView),
    Other(Seq<char>),
}

impl View for Error {
    type V = ErrorView;

    open spec fn view(&self) -> ErrorView {
        match self {
            Error::CircuitIdNotFound(id) => ErrorView::CircuitIdNotFound(id@),
            Error::BadResponse(m) => ErrorView::BadResponse(m@),
            Error::Datastore(e) => ErrorView::Datastore(e@),
            Error::Other(m) => ErrorView::Other(m@),
        }
    }
}

/// A store of circuits, keyed by circuit id.
///
/// A store may say, for each operation, which answers it gives in its present
/// state (`loads`, `lists`) and, for each change, which answers it gives
/// together with the state it is left in (`updates`, `creates`, `deletes`). A
/// store that says nothing of an operation allows every answer to it and every
/// state after it.
pub trait Interface: Send + Sync {
    /// Whether `r` is an answer this store may give to a load of `id`.
    open spec fn loads(&self, id: String, r: Result<Circuit, Error>) -> bool {
        true
    }

    /// Whether `r` is an answer this store may give to a listing of the
    /// circuits of user `owner`.
    open spec fn lists(&self, owner: String, r: Result<Vec<CircuitMetadata>, Error>) -> bool {
        true
    }

    /// Whether this store may answer `r` to an update to `c` and be left as `after`.
    open spec fn updates(&self, c: Circuit, r: Result<(), Error>, after: &Self) -> bool {
        true
    }

    /// Whether this store may answer `r` to the creation of `c` and be left as `after`.
    open spec fn creates(&self, c: Circuit, r: Result<Circuit, Error>, after: &Self) -> bool {
        true
    }

    /// Whether this store may answer `r` to a delete of `id` and be left as `after`.
    open spec fn deletes(&self, id: String, r: Result<(), Error>, after: &Self) -> bool {
        true
    }

    /// The circuit stored under `id`.
    fn load_circuit(&self, id: String) -> (r: Result<Circuit, Error>)
        ensures
            self.loads(id, r),
    ;

    /// The metadata of every circuit owned by the user `id`.
    fn enumerate_circuits(&self, id: String) -> (r: Result<Vec<CircuitMetadata>, Error>)
        ensures
            self.lists(id, r),
            r matches Ok(v) ==> forall|i: int| 0 <= i < v.len() ==> (#[trigger] v[i])@.owner == id@,
    ;

    /// Stores `c` under its own id, replacing what was stored there.
    fn update_circuit(&mut self, c: &Circuit) -> (r: Result<(), Error>)
        ensures
            old(self).updates(*c, r, &*final(self)),
    ;

    /// Stores `c` under a new id that the store chooses, and returns `c` with that id.
    fn new_circuit(&mut self, c: Circuit) -> (r: Result<Circuit, Error>)
        ensures
            old(self).creates(c, r, &*final(self)),
            r matches Ok(n) ==> n@ == with_id(c@, n@.metadata.id),
    ;

    /// Removes the circuit stored under `id`.
    fn delete_circuit(&mut self, id: String) -> (r: Result<(), Error>)
        ensures
            old(self).deletes(id, r, &*final(self)),
    ;
}

} // verus!
