//! The server's configuration and what it sets up.
use vstd::prelude::*;

use crate::auth::no_auth::NoLoginAuthProvider;
use crate::storage::gcp_direct::{GcpDsInterface, GcpDsView};
use crate::storage::mem::MemInterface;
use crate::model::CircuitView;

verus! {

/// Where circuits are stored.
#[derive(Debug, PartialEq, Eq)]
pub enum StorageType {
    /// In memory, lost when the server stops.
    Mem,
    /// In the SQLite database at `path`.
    Sqlite { path: String },
    /// In the Datastore emulator at `host`, for project `proj`.
    GcpEmu { host: String, proj: String },
    /// In Google Cloud Datastore, for the project the environment names.
    Gcp,
}

/// A way of authenticating users.
#[derive(Debug, PartialEq, Eq)]
pub enum AuthType {
    /// The user names themselves.
    NoAuth,
    /// Google sign-in, with the OAuth client credentials in the named file.
    GoogleOAuth(String),
}

/// The server's configuration.
#[derive(Debug, PartialEq, Eq)]
pub struct Config {
    pub storage_type: StorageType,
    pub auth_types: Vec<AuthType>,
    pub address: String,
    pub port: u16,
}

/// A storage backend to start: the stores that need no outside resource are
/// made here, the SQLite store is named by its database's path.
pub enum StorageBackend {
    Mem(MemInterface),
    Sqlite(String),
    Gcp(GcpDsInterface),
}

/// An authentication method to start: Google sign-in is named by the path
/// of its credentials file.
pub enum AuthBackend {
    NoAuth(NoLoginAuthProvider),
    GoogleOAuth(String),
}

/// `b` is the method that authentication type `a` stands for.
pub open spec fn stands_for(a: AuthType, b: AuthBackend) -> bool {
    match a {
        AuthType::NoAuth => b is NoAuth,
        AuthType::GoogleOAuth(cfg) => b == AuthBackend::GoogleOAuth(cfg),
    }
}

impl StorageType {
    /// The backend this storage type stands for. `gcp_project_id` is the
    /// project that the environment names; the `Gcp` type needs it.
    pub fn make(self, gcp_project_id: Option<String>) -> (r: StorageBackend)
        requires
            self is Gcp ==> gcp_project_id is Some,
        ensures
            match self {
                StorageType::Mem => (r matches StorageBackend::Mem(m) && m@ == Map::<
                    Seq<char>,
                    CircuitView,
                >::empty() && m.issued() == 0),
                StorageType::Sqlite { path } => r == StorageBackend::Sqlite(path),
                StorageType::GcpEmu { host, proj } => (r matches StorageBackend::Gcp(g) && g@
                    == GcpDsView {
                    project_id: proj@,
                    datastore_url: Some(host@),
                }),
                StorageType::Gcp => (r matches StorageBackend::Gcp(g) && g@ == GcpDsView {
                    project_id: gcp_project_id->0@,
                    datastore_url: None,
                }),
            },
    {
        match self {
            StorageType::Mem => StorageBackend::Mem(MemInterface::new()),
            StorageType::Sqlite { path } => StorageBackend::Sqlite(path),
            StorageType::GcpEmu { host, proj } => StorageBackend::Gcp(GcpDsInterface::new_emu(proj, host)),
            StorageType::Gcp => {
                let project = match gcp_project_id {
                    Some(p) => p,
                    None => String::new(),
                };
                StorageBackend::Gcp(GcpDsInterface::new(project))
            },
        }
    }
}

impl AuthType {
    /// The method this authentication type stands for.
    pub fn make(self) -> (r: AuthBackend)
        ensures
            stands_for(self, r),
    {
        match self {
            AuthType::NoAuth => AuthBackend::NoAuth(NoLoginAuthProvider::new()),
            AuthType::GoogleOAuth(cfg) => AuthBackend::GoogleOAuth(cfg),
        }
    }
}

impl Config {
    /// The storage backend and the authentication methods, in order, that this
    /// configuration sets up.
    pub fn make(self, gcp_project_id: Option<String>) -> (r: (StorageBackend, Vec<AuthBackend>))
        requires
            self.storage_type is Gcp ==> gcp_project_id is Some,
        ensures
            r.1.len() == self.auth_types.len(),
            forall|i: int|
                0 <= i < self.auth_types.len() ==> stands_for(self.auth_types[i], #[trigger] r.1[i]),
            match self.storage_type {
                StorageType::Mem => (r.0 matches StorageBackend::Mem(m) && m@ == Map::<
                    Seq<char>,
                    CircuitView,
                >::empty() && m.issued() == 0),
                StorageType::Sqlite { path } => r.0 == StorageBackend::Sqlite(path),
                StorageType::GcpEmu { host, proj } => (r.0 matches StorageBackend::Gcp(g) && g@
                    == GcpDsView {
                    project_id: proj@,
                    datastore_url: Some(host@),
                }),
                StorageType::Gcp => (r.0 matches StorageBackend::Gcp(g) && g@ == GcpDsView {
                    project_id: gcp_project_id->0@,
                    datastore_url: None,
                }),
            },
    {
        let ghost auth = self.auth_types@;
        let storage = self.storage_type.make(gcp_project_id);
        let mut auth_types = self.auth_types;
        let mut v: Vec<AuthBackend> = Vec::new();
        let n = auth_types.len();
        let mut i: usize = 0;
        while i < n
            invariant
                0 <= i <= n,
                n == auth.len(),
                auth_types@ == auth.skip(i as int),
                v.len() == i,
                forall|j: int| 0 <= j < i ==> stands_for(auth[j], #[trigger] v[j]),
            decreases n - i,
        {
            let a = auth_types.remove(0);
            assert(a == auth[i as int]);
            assert(auth_types@ =~= auth.skip(i + 1));
            v.push(a.make());
            i += 1;
        }
        (storage, v)
    }
}

impl Config {
    /// The configuration to run with: on Google Cloud (where the environment
    /// names a Datastore project) circuits are kept in Datastore and users sign
    /// in with Google, with the client credentials in `credentials.json`;
    /// elsewhere the configuration is used as it is.
    pub fn for_environment(self, on_gcp: bool) -> (r: Config)
        ensures
            !on_gcp ==> r == self,
            on_gcp ==> {
                &&& r.storage_type is Gcp
                &&& r.auth_types.len() == 1
                &&& (r.auth_types[0] matches AuthType::GoogleOAuth(p) && p@ == "credentials.json"@)
                &&& r.address == self.address
                &&& r.port == self.port
            },
    {
        if on_gcp {
            let mut auth_types: Vec<AuthType> = Vec::new();
            auth_types.push(AuthType::GoogleOAuth(String::from_str("credentials.json")));
            Config { storage_type: StorageType::Gcp, auth_types, address: self.address, port: self.port }
        } else {
            self
        }
    }
}

impl Default for Config {
    /// In-memory storage, login without authentication, on 0.0.0.0:8080.
    fn default() -> (r: Config)
        ensures
            r.storage_type is Mem,
            r.auth_types.len() == 1,
            r.auth_types[0] is NoAuth,
            r.address@ == "0.0.0.0"@,
            r.port == 8080,
    {
        Config {
            storage_type: StorageType::Mem,
            auth_types: vec![AuthType::NoAuth],
            address: String::from_str("0.0.0.0"),
            port: 8080,
        }
    }
}

} // verus!
