//! The circuit requests of the API. A user sees and changes only the circuits
//! they own; any other circuit is answered as not found.
use vstd::prelude::*;

use crate::auth::UserToken;
use crate::model::{circuit_updated, Circuit, CircuitMetadata, CircuitView, MetadataView};
use crate::storage::mem::{stored, MemInterface};
use crate::storage::{Error, Interface};

verus! {

/// The answer to a request for a circuit that the user cannot see or change.
#[derive(Debug, PartialEq, Eq)]
pub struct NotFound;

/// The circuit that `user` asked for, given what the store loaded: only a
/// circuit that `user` owns is handed out.
pub open spec fn owned(loaded: Result<Circuit, Error>, user: UserToken) -> Result<Circuit, NotFound> {
    match loaded {
        Ok(c) => if c.metadata.owner@ == user.0@ {
            Ok(c)
        } else {
            Err(NotFound)
        },
        Err(_) => Err(NotFound),
    }
}

/// The answer to a change, given what the store did: any failure is answered
/// as not found.
pub open spec fn answered<T>(outcome: Result<T, Error>) -> Result<T, NotFound> {
    match outcome {
        Ok(t) => Ok(t),
        Err(_) => Err(NotFound),
    }
}

/// `c` with `user` as its owner.
pub open spec fn with_owner(c: Circuit, user: UserToken) -> Circuit {
    Circuit { metadata: CircuitMetadata { owner: user.0, ..c.metadata }, ..c }
}

/// The answer to a creation, given what the store did: the new circuit's metadata.
pub open spec fn created(outcome: Result<Circuit, Error>) -> Result<CircuitMetadata, Error> {
    match outcome {
        Ok(c) => Ok(c.metadata),
        Err(e) => Err(e),
    }
}

/// What an update of the circuit `id` of `user` to `new` answers, where the
/// store's load gave `loaded` and, if it was reached, its update gave `stored`.
pub open spec fn update_answer(
    loaded: Result<Circuit, Error>,
    user: UserToken,
    new: Circuit,
    stored: Result<(), Error>,
) -> Result<CircuitMetadata, NotFound> {
    match owned(loaded, user) {
        Err(e) => Err(e),
        Ok(c) => match answered(stored) {
            Ok(_) => Ok(circuit_updated(c, new).metadata),
            Err(e) => Err(e),
        },
    }
}

/// What a delete of the circuit `id` of `user` answers, where the store's
/// load gave `loaded` and, if it was reached, its delete gave `deleted`.
pub open spec fn delete_answer(
    loaded: Result<Circuit, Error>,
    user: UserToken,
    deleted: Result<(), Error>,
) -> Result<(), NotFound> {
    match owned(loaded, user) {
        Err(e) => Err(e),
        Ok(c) => answered(deleted),
    }
}

/// The circuit that `user` asked for, given what the store loaded: only a
/// circuit that `user` owns is handed out.
pub fn owned_circuit(loaded: Result<Circuit, Error>, user: &UserToken) -> (r: Result<Circuit, NotFound>)
    ensures
        r == owned(loaded, *user),
{
    match loaded {
        Ok(c) => {
            if c.metadata.owner == user.0 {
                Ok(c)
            } else {
                Err(NotFound)
            }
        },
        Err(_) => Err(NotFound),
    }
}

/// The answer to a change, given what the store did: any failure is answered
/// as not found.
pub fn answer<T>(outcome: Result<T, Error>) -> (r: Result<T, NotFound>)
    ensures
        r == answered(outcome),
{
    match outcome {
        Ok(t) => Ok(t),
        Err(_) => Err(NotFound),
    }
}

/// The circuit `id`, if `user` owns it.
pub fn load_circuit<S: Interface + ?Sized>(s: &S, user: &UserToken, id: String) -> (r: Result<
    Circuit,
    NotFound,
>)
    ensures
        exists|loaded: Result<Circuit, Error>| s.loads(id, loaded) && r == owned(loaded, *user),
        r matches Ok(c) ==> c.metadata.owner@ == user.0@,
{
    let loaded = s.load_circuit(id);
    let ghost lr = loaded;
    let r = owned_circuit(loaded, user);
    assert(s.loads(id, lr) && r == owned(lr, *user));
    r
}

/// The metadata of the circuits of `user`: every circuit listed is owned by `user`.
pub fn enumerate<S: Interface + ?Sized>(s: &S, user: &UserToken) -> (r: Result<
    Vec<CircuitMetadata>,
    Error,
>)
    ensures
        s.lists(user.0, r),
        r matches Ok(v) ==> forall|i: int| 0 <= i < v.len() ==> (#[trigger] v[i])@.owner == user.0@,
{
    s.enumerate_circuits(user.0.clone())
}

/// Stores `circuit` as a new circuit of `user` and returns its metadata: the
/// submitted metadata with `user` as owner and the id that the store chose.
pub fn create<S: Interface + ?Sized>(s: &mut S, user: &UserToken, circuit: Circuit) -> (r: Result<
    CircuitMetadata,
    Error,
>)
    ensures
        exists|made: Result<Circuit, Error>|
            old(s).creates(with_owner(circuit, *user), made, &*final(s)) && r == created(made),
        r matches Ok(md) ==> md@ == (MetadataView {
            id: md@.id,
            owner: user.0@,
            ..circuit@.metadata
        }),
{
    let mut c = circuit;
    c.metadata.owner = user.0.clone();
    assert(c == with_owner(circuit, *user));
    let made = s.new_circuit(c);
    let ghost m = made;
    let r = match made {
        Ok(c) => Ok(c.metadata),
        Err(e) => Err(e),
    };
    assert(old(s).creates(with_owner(circuit, *user), m, &*s) && r == created(m));
    r
}

/// Updates the circuit `id` of `user` to `new` and returns the stored
/// metadata: that of `new`, with the circuit's own id and `user` as owner.
pub fn update<S: Interface + ?Sized>(s: &mut S, user: &UserToken, id: String, new: Circuit) -> (r:
    Result<CircuitMetadata, NotFound>)
    ensures
        exists|loaded: Result<Circuit, Error>, stored: Result<(), Error>|
            old(s).loads(id, loaded) && (owned(loaded, *user) matches Ok(c) ==> old(s).updates(
                circuit_updated(c, new),
                stored,
                &*final(s),
            )) && (owned(loaded, *user) is Err ==> &*final(s) == &*old(s)) && r == update_answer(
                loaded,
                *user,
                new,
                stored,
            ),
        r matches Ok(md) ==> md@ == (MetadataView {
            id: md@.id,
            owner: user.0@,
            ..new@.metadata
        }),
{
    let loaded = s.load_circuit(id);
    let ghost lr = loaded;
    let c = match owned_circuit(loaded, user) {
        Ok(c) => c,
        Err(e) => {
            assert(old(s).loads(id, lr) && Err::<CircuitMetadata, NotFound>(e) == update_answer(
                lr,
                *user,
                new,
                Ok::<(), Error>(()),
            ));
            return Err(e);
        },
    };
    let ghost cc = c;
    let c = c.update(new);
    let stored = s.update_circuit(&c);
    let ghost sr = stored;
    let r = match answer(stored) {
        Ok(_) => Ok(c.metadata),
        Err(e) => Err(e),
    };
    assert(owned(lr, *user) == Ok::<Circuit, NotFound>(cc));
    assert(old(s).loads(id, lr) && old(s).updates(circuit_updated(cc, new), sr, &*s) && r
        == update_answer(lr, *user, new, sr));
    r
}

/// Deletes the circuit `id` of `user`.
pub fn delete<S: Interface + ?Sized>(s: &mut S, user: &UserToken, id: String) -> (r: Result<
    (),
    NotFound,
>)
    ensures
        exists|loaded: Result<Circuit, Error>, deleted: Result<(), Error>|
            old(s).loads(id, loaded) && (owned(loaded, *user) matches Ok(c) ==> old(s).deletes(
                c.metadata.id,
                deleted,
                &*final(s),
            )) && (owned(loaded, *user) is Err ==> &*final(s) == &*old(s)) && r == delete_answer(
                loaded,
                *user,
                deleted,
            ),
{
    let loaded = s.load_circuit(id);
    let ghost lr = loaded;
    let c = match owned_circuit(loaded, user) {
        Ok(c) => c,
        Err(e) => {
            assert(old(s).loads(id, lr) && Err::<(), NotFound>(e) == delete_answer(
                lr,
                *user,
                Ok::<(), Error>(()),
            ));
            return Err(e);
        },
    };
    let ghost cc = c;
    let deleted = s.delete_circuit(c.metadata.id);
    let ghost dr = deleted;
    let r = answer(deleted);
    assert(owned(lr, *user) == Ok::<Circuit, NotFound>(cc));
    assert(old(s).loads(id, lr) && old(s).deletes(cc.metadata.id, dr, &*s) && r == delete_answer(
        lr,
        *user,
        dr,
    ));
    r
}

/// On the in-memory store, an update by `user` of the circuit `id` changes
/// nothing but that circuit, and that only where `user` owns it: there it then
/// holds the updated circuit; every other circuit stays as it was. (The
/// `requires` are what `update` ensures of a store `before` that it leaves as
/// `after`.)
pub proof fn lemma_mem_update_changes_only_owned(
    before: MemInterface,
    after: MemInterface,
    user: UserToken,
    id: String,
    new: Circuit,
    loaded: Result<Circuit, Error>,
    stored_r: Result<(), Error>,
    other: Seq<char>,
)
    requires
        before.loads(id, loaded),
        owned(loaded, user) matches Ok(c) ==> before.updates(
            circuit_updated(c, new),
            stored_r,
            &after,
        ),
        owned(loaded, user) is Err ==> after == before,
    ensures
        other != id@ ==> stored(after@, other) == stored(before@, other),
        owned(loaded, user) is Err ==> after@ == before@,
        owned(loaded, user) matches Ok(c) ==> stored(after@, id@) == Some(
            circuit_updated(c, new)@,
        ),
        owned(loaded, user) is Ok ==> (update_answer(loaded, user, new, stored_r) matches Ok(md)
            && md@ == MetadataView { id: id@, owner: user.0@, ..new@.metadata }),
        owned(loaded, user) is Err ==> update_answer(loaded, user, new, stored_r) == Err::<
            CircuitMetadata,
            NotFound,
        >(NotFound),
{
}

/// On the in-memory store, a delete by `user` of the circuit `id` removes
/// that circuit where `user` owns it and nothing else; where `user` does not
/// own it, nothing changes. (The `requires` are what `delete` ensures of a
/// store `before` that it leaves as `after`.)
pub proof fn lemma_mem_delete_changes_only_owned(
    before: MemInterface,
    after: MemInterface,
    user: UserToken,
    id: String,
    loaded: Result<Circuit, Error>,
    deleted: Result<(), Error>,
    other: Seq<char>,
)
    requires
        before.loads(id, loaded),
        owned(loaded, user) matches Ok(c) ==> before.deletes(c.metadata.id, deleted, &after),
        owned(loaded, user) is Err ==> after == before,
    ensures
        other != id@ ==> stored(after@, other) == stored(before@, other),
        owned(loaded, user) is Err ==> after@ == before@,
        owned(loaded, user) is Ok ==> stored(after@, id@) is None && deleted is Ok,
        owned(loaded, user) is Ok ==> delete_answer(loaded, user, deleted) == Ok::<(), NotFound>(()),
        owned(loaded, user) is Err ==> delete_answer(loaded, user, deleted) == Err::<(), NotFound>(
            NotFound,
        ),
{
}

/// The owner of a circuit is always handed it, whatever it holds; anyone else,
/// and every failed load, is answered as not found.
pub proof fn lemma_owner_is_handed_own_circuit(c: Circuit, user: UserToken, e: Error)
    ensures
        c.metadata.owner@ == user.0@ ==> owned(Ok(c), user) == Ok::<Circuit, NotFound>(c),
        c.metadata.owner@ != user.0@ ==> owned(Ok(c), user) == Err::<Circuit, NotFound>(NotFound),
        owned(Err(e), user) == Err::<Circuit, NotFound>(NotFound),
{
}

/// On the in-memory store, a user asking for a circuit that she owns gets it
/// as it is stored; a user asking for one stored under another owner, or for
/// an id with nothing stored, is answered as not found.
pub proof fn lemma_mem_load_gives_owned_circuit(
    s: MemInterface,
    user: UserToken,
    id: String,
    loaded: Result<Circuit, Error>,
)
    requires
        s.loads(id, loaded),
    ensures
        match stored(s@, id@) {
            Some(c) => if c.metadata.owner == user.0@ {
                owned(loaded, user) matches Ok(x) && x@ == c
            } else {
                owned(loaded, user) == Err::<Circuit, NotFound>(NotFound)
            },
            None => owned(loaded, user) == Err::<Circuit, NotFound>(NotFound),
        },
{
}

/// What a creation hands the store is the submitted circuit with only its
/// owner replaced by the requesting user: every other field, the contents
/// included, is as submitted.
pub proof fn lemma_create_submits_circuit_as_given(c: Circuit, user: UserToken)
    ensures
        with_owner(c, user)@ == (CircuitView {
            metadata: MetadataView { owner: user.0@, ..c@.metadata },
            contents: c@.contents,
        }),
{
}

/// On the in-memory store, a creation that succeeds stores the submitted
/// circuit, with the requesting user as owner and the id it answered with, and
/// answers with that circuit's metadata.
pub proof fn lemma_mem_create_stores_submitted_circuit(
    before: MemInterface,
    after: MemInterface,
    user: UserToken,
    circuit: Circuit,
    made: Result<Circuit, Error>,
)
    requires
        before.creates(with_owner(circuit, user), made, &after),
    ensures
        made matches Ok(n) ==> {
            &&& stored(after@, n@.metadata.id) == Some(
                CircuitView {
                    metadata: MetadataView {
                        id: n@.metadata.id,
                        owner: user.0@,
                        ..circuit@.metadata
                    },
                    contents: circuit@.contents,
                },
            )
            &&& created(made) matches Ok(md) && md@ == MetadataView {
                id: n@.metadata.id,
                owner: user.0@,
                ..circuit@.metadata
            }
        },
        before.issued() < u32::MAX ==> made is Ok,
{
}

} // verus!
