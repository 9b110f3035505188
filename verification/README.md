# open_circuits

The storage, authentication and access-control core of a server that keeps
users' circuit designs, verified with Verus.

- `src/model.rs`: circuits and their metadata; updating a circuit.
- `src/storage.rs`: the `Interface` every circuit store offers.
  - `src/storage/mem.rs`: an in-memory store.
  - `src/storage/gcp_datastore.rs` (with `types.rs` and `requests.rs`): circuits
    as Google Cloud Datastore entities: the requests to send and how to read the
    answers. A circuit with no owner reads as owned by nobody, and every
    circuit listed for a user is given that user as its owner.
  - `src/storage/gcp_direct.rs`: the same store with every failure reported
    as a storage error, inserts of new circuits and updates of existing ones,
    the owner required, and listings that keep each circuit's stored owner.
    This is the Datastore store that the server in `app/` runs with.
  - `src/storage/sqlite.rs`: the SQLite store's decisions from what the
    database answered.
- `src/auth.rs` (with `no_auth.rs`, `google_oauth2.rs`): identifying a request's user.
- `src/config.rs`: the configuration and what it sets up.
- `src/api/circuits.rs`: the circuit requests, limited to the requesting user's circuits.
- `app/`: the web server (Rocket routes, request guard, static files), the
  configuration file, the Datastore and SQLite connections, and Google token checks.

Every store states, for each change, the answers it may give together with
the state it is left in. The in-memory store states them exactly; the
Datastore and SQLite stores in `app/` talk to outside services and state
nothing of them. The circuit requests of `src/api/circuits.rs` hand each
store exactly one change, of a circuit that the requesting user owns, and
change nothing where the user does not own it.
