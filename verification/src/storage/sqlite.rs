//! The decisions of the SQLite circuit store, from what the database answered.
use vstd::prelude::*;

use crate::storage::mem::{decimal, decimal_string};
use crate::model::{Circuit, CircuitMetadata};
use crate::storage::Error;

verus! {

/// The outcome of loading the circuit `id`, from what the `SELECT` gave: the
/// row found, no row (the circuit is not there), or the database's failure in words.
pub fn load_outcome(row: Result<Option<Circuit>, String>, id: String) -> (r: Result<Circuit, Error>)
    ensures
        match row {
            Ok(Some(c)) => r == Ok::<Circuit, Error>(c),
            Ok(None) => r == Err::<Circuit, Error>(Error::CircuitIdNotFound(id)),
            Err(e) => r == Err::<Circuit, Error>(Error::Other(e)),
        },
{
    match row {
        Ok(Some(c)) => Ok(c),
        Ok(None) => Err(Error::CircuitIdNotFound(id)),
        Err(e) => Err(Error::Other(e)),
    }
}

/// The rows of a listing, collected: the first row that failed fails the whole.
pub open spec fn collected(rows: Seq<Result<CircuitMetadata, String>>) -> Result<
    Seq<CircuitMetadata>,
    String,
>
    decreases rows.len(),
{
    if rows.len() == 0 {
        Ok(Seq::empty())
    } else {
        match rows[0] {
            Err(e) => Err(e),
            Ok(md) => match collected(rows.drop_first()) {
                Err(e) => Err(e),
                Ok(rest) => Ok(seq![md] + rest),
            },
        }
    }
}

/// `prefix` put in front of the success value of `r`.
pub open spec fn prepend(prefix: Seq<CircuitMetadata>, r: Result<Seq<CircuitMetadata>, String>) -> Result<
    Seq<CircuitMetadata>,
    String,
> {
    match r {
        Ok(rest) => Ok(prefix + rest),
        Err(e) => Err(e),
    }
}

/// A listing holds every row, in the order the query gave them, where no row
/// failed; otherwise it fails as the first row that failed.
pub proof fn lemma_collected_keeps_every_row(rows: Seq<Result<CircuitMetadata, String>>)
    ensures
        (forall|i: int| 0 <= i < rows.len() ==> (#[trigger] rows[i]) is Ok) ==> {
            &&& collected(rows) is Ok
            &&& collected(rows)->Ok_0.len() == rows.len()
            &&& forall|i: int| 0 <= i < rows.len() ==> collected(rows)->Ok_0[i] == (#[trigger] rows[i])->Ok_0
        },
        forall|k: int|
            0 <= k < rows.len() && (#[trigger] rows[k]) is Err && (forall|i: int|
                0 <= i < k ==> (#[trigger] rows[i]) is Ok) ==> collected(rows) == Err::<
                Seq<CircuitMetadata>,
                String,
            >(rows[k]->Err_0),
    decreases rows.len(),
{
    if rows.len() > 0 {
        let rest = rows.drop_first();
        lemma_collected_keeps_every_row(rest);
        assert forall|i: int| 0 <= i < rest.len() implies rest[i] == rows[i + 1] by {}
        if forall|i: int| 0 <= i < rows.len() ==> (#[trigger] rows[i]) is Ok {
            assert(rows[0] is Ok);
            assert forall|i: int| 0 <= i < rest.len() implies (#[trigger] rest[i]) is Ok by {
                assert(rows[i + 1] is Ok);
            }
            let v = collected(rows)->Ok_0;
            assert forall|i: int| 0 <= i < rows.len() implies v[i] == (#[trigger] rows[i])->Ok_0 by {
                if i > 0 {
                    assert(rest[i - 1] == rows[i]);
                }
            }
        }
        assert forall|k: int|
            0 <= k < rows.len() && (#[trigger] rows[k]) is Err && (forall|i: int|
                0 <= i < k ==> (#[trigger] rows[i]) is Ok) implies collected(rows) == Err::<
            Seq<CircuitMetadata>,
            String,
        >(rows[k]->Err_0) by {
            if k > 0 {
                assert(rows[0] is Ok);
                assert(rest[k - 1] == rows[k]);
                assert forall|i: int| 0 <= i < k - 1 implies (#[trigger] rest[i]) is Ok by {
                    assert(rest[i] == rows[i + 1]);
                    assert(rows[i + 1] is Ok);
                }
            }
        }
    }
}

/// The outcome of listing a user's circuits, from what the query gave: its
/// rows, or the database's failure in words.
pub fn list_outcome(rows: Result<Vec<Result<CircuitMetadata, String>>, String>) -> (r: Result<
    Vec<CircuitMetadata>,
    Error,
>)
    ensures
        match rows {
            Err(e) => r == Err::<Vec<CircuitMetadata>, Error>(Error::Other(e)),
            Ok(v) => match collected(v@) {
                Ok(mds) => (r matches Ok(out) && out@ == mds),
                Err(e) => r == Err::<Vec<CircuitMetadata>, Error>(Error::Other(e)),
            },
        },
{
    let mut v = match rows {
        Ok(v) => v,
        Err(e) => {
            return Err(Error::Other(e));
        },
    };
    let ghost orig = v@;
    let mut entries: Vec<CircuitMetadata> = Vec::new();
    assert(orig.skip(0) =~= orig);
    while v.len() > 0
        invariant
            v@ == orig.skip(orig.len() - v.len()),
            v.len() <= orig.len(),
            match rows {
                Ok(v0) => v0@ == orig,
                Err(_) => false,
            },
            collected(orig) == prepend(entries@, collected(v@)),
        decreases v.len(),
    {
        let ghost rest = v@;
        let row = v.remove(0);
        proof {
            assert(rest[0] == row);
            assert(v@ =~= rest.drop_first());
            assert(rest.drop_first() =~= orig.skip(orig.len() - v.len()));
        }
        match row {
            Ok(md) => {
                let ghost before = entries@;
                entries.push(md);
                proof {
                    match collected(v@) {
                        Ok(tail) => {
                            assert(before + (seq![md] + tail) =~= before.push(md) + tail);
                        },
                        Err(_) => {},
                    }
                }
            },
            Err(e) => {
                return Err(Error::Other(e));
            },
        }
    }
    proof {
        assert(v@ =~= Seq::<Result<CircuitMetadata, String>>::empty());
        assert(entries@ + Seq::<CircuitMetadata>::empty() =~= entries@);
    }
    Ok(entries)
}

/// The outcome of an update of the circuit `id`, from the number of rows
/// that the `UPDATE` changed: exactly one row means the circuit was there.
pub fn update_outcome(rows: usize, id: String) -> (r: Result<(), Error>)
    ensures
        rows == 1 ==> r is Ok,
        rows != 1 ==> r == Err::<(), Error>(Error::CircuitIdNotFound(id)),
{
    if rows == 1 {
        Ok(())
    } else {
        Err(Error::CircuitIdNotFound(id))
    }
}

/// The outcome of a delete of the circuit `id`, from the number of rows that
/// the `DELETE` removed (ids are unique, so at most one).
pub fn delete_outcome(rows: usize, id: String) -> (r: Result<(), Error>)
    requires
        rows <= 1,
    ensures
        rows == 1 ==> r is Ok,
        rows == 0 ==> r == Err::<(), Error>(Error::CircuitIdNotFound(id)),
{
    if rows == 1 {
        Ok(())
    } else {
        Err(Error::CircuitIdNotFound(id))
    }
}

/// The id of a new circuit created when the clock read `nanos` nanoseconds
/// since the Unix epoch: their decimal numeral.
pub fn circuit_id_from_nanos(nanos: u128) -> (r: String)
    ensures
        r@ == decimal(nanos as nat),
{
    decimal_string(nanos)
}

/// What the lookup of the `circuits` table in the database's schema found.
#[derive(Debug, Clone, Copy, PartialEq, Eq)]
pub enum TableLookup {
    /// The table is there.
    Found,
    /// The lookup returned no row: there is no such table.
    NoRows,
    /// The lookup itself failed.
    Failed,
}

/// What opening the store does next, given the table lookup.
#[derive(Debug, Clone, Copy, PartialEq, Eq)]
pub enum TableSetup {
    /// Use the table that is there.
    Ready,
    /// Create the table first.
    Create,
    /// Give up with the lookup's failure.
    Fail,
}

/// The table is created only where the lookup found none; a failed lookup
/// fails the opening of the store.
pub fn table_setup(lookup: TableLookup) -> (r: TableSetup)
    ensures
        r == match lookup {
            TableLookup::Found => TableSetup::Ready,
            TableLookup::NoRows => TableSetup::Create,
            TableLookup::Failed => TableSetup::Fail,
        },
{
    match lookup {
        TableLookup::Found => TableSetup::Ready,
        TableLookup::NoRows => TableSetup::Create,
        TableLookup::Failed => TableSetup::Fail,
    }
}

} // verus!
