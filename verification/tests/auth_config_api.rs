use open_circuits::api::circuits::{
    answer, create, delete, enumerate, load_circuit, owned_circuit, update, NotFound,
};
use open_circuits::auth::google_oauth2::LoginProvider;
use open_circuits::auth::no_auth::NoLoginAuthProvider;
use open_circuits::auth::{ExtractAuthErr, IdentityDecoder, Method, UserToken};
use open_circuits::config::{AuthBackend, AuthType, Config, StorageBackend, StorageType};
use open_circuits::model::{Circuit, CircuitMetadata};
use open_circuits::storage::mem::MemInterface;
use open_circuits::storage::{Error, Interface};

struct Fixed(&'static str, &'static str);

impl Method for Fixed {
    fn extract_identity(&self, _token: &str) -> Result<String, &'static str> {
        Ok(self.1.to_string())
    }
    fn auth_header_prefix(&self) -> &'static str {
        self.0
    }
}

struct Refuses;

impl Method for Refuses {
    fn extract_identity(&self, _token: &str) -> Result<String, &'static str> {
        Err("no")
    }
    fn auth_header_prefix(&self) -> &'static str {
        "no_auth"
    }
}

fn circuit(owner: &str, name: &str) -> Circuit {
    Circuit {
        metadata: CircuitMetadata {
            id: String::new(),
            name: name.to_string(),
            owner: owner.to_string(),
            desc: "d".to_string(),
            thumbnail: "t".to_string(),
            version: "1".to_string(),
        },
        contents: format!("contents of {}", name),
    }
}

#[test]
fn no_auth_identity() {
    let m = NoLoginAuthProvider::new();
    assert_eq!(m.auth_header_prefix(), "no_auth");
    assert_eq!(m.extract_identity("bob"), Ok("no_auth_bob".to_string()));
    assert_eq!(m.extract_identity(""), Err("User id cannot be blank in no_auth"));
}

#[test]
fn google_identity() {
    let g = LoginProvider { client_id: "cid".into(), client_secret: "sec".into() };
    assert_eq!(g.auth_header_prefix(), "google");
    assert_eq!(g.identity_from_subject(Ok("1234".into())), Ok("google_1234".to_string()));
    assert_eq!(g.identity_from_subject(Err(())), Err("Failed to validate token"));
}

#[test]
fn identify_by_first_matching_method() {
    let methods: Vec<Box<dyn Method>> = vec![
        Box::new(Fixed("x", "first")),
        Box::new(NoLoginAuthProvider::new()),
        Box::new(Fixed("x", "second")),
    ];
    let d = IdentityDecoder::new(methods);
    assert_eq!(d.select_method("x"), Some(0));
    assert_eq!(d.select_method("no_auth"), Some(1));
    assert_eq!(d.select_method("google"), None);
    assert_eq!(d.identify("x", "anything"), Ok("first".to_string()));
    assert_eq!(d.identify("no_auth", "amy"), Ok("no_auth_amy".to_string()));
    assert_eq!(d.identify("no_auth", ""), Err(ExtractAuthErr::Failed("User id cannot be blank in no_auth")));
    assert_eq!(d.identify("google", "tok"), Err(ExtractAuthErr::UnsupportedMethod));
}

#[test]
fn user_token_from_headers() {
    let d = IdentityDecoder::new(vec![Box::new(NoLoginAuthProvider::new())]);
    assert_eq!(UserToken::from_headers(&d, &vec!["no_auth"], &vec!["zed"]), Ok(UserToken("no_auth_zed".to_string())));
    assert_eq!(
        UserToken::from_headers(&d, &vec!["no_auth", "no_auth"], &vec!["zed"]),
        Err(ExtractAuthErr::Failed("Single authType/authId required"))
    );
    assert_eq!(
        UserToken::from_headers(&d, &vec!["no_auth"], &vec![]),
        Err(ExtractAuthErr::Failed("Single authType/authId required"))
    );
    assert_eq!(UserToken::from_headers(&d, &vec!["other"], &vec!["zed"]), Err(ExtractAuthErr::UnsupportedMethod));
}

#[test]
fn config_default() {
    let c = Config::default();
    assert_eq!(c.storage_type, StorageType::Mem);
    assert_eq!(c.auth_types, vec![AuthType::NoAuth]);
    assert_eq!(c.address, "0.0.0.0");
    assert_eq!(c.port, 8080);
}

#[test]
fn config_make() {
    let c = Config {
        storage_type: StorageType::GcpEmu { host: "http://h/".into(), proj: "p".into() },
        auth_types: vec![AuthType::GoogleOAuth("creds.json".into()), AuthType::NoAuth],
        address: "a".into(),
        port: 1,
    };
    let (s, a) = c.make(None);
    match s {
        StorageBackend::Gcp(g) => {
            assert_eq!(g.project_id(), "p");
            assert_eq!(g.datastore_url(), Some("http://h/".to_string()));
        }
        _ => panic!("expected the Datastore emulator"),
    }
    assert_eq!(a.len(), 2);
    assert!(matches!(&a[0], AuthBackend::GoogleOAuth(p) if p == "creds.json"));
    assert!(matches!(&a[1], AuthBackend::NoAuth(_)));

    match StorageType::Gcp.make(Some("prod".into())) {
        StorageBackend::Gcp(g) => {
            assert_eq!(g.project_id(), "prod");
            assert_eq!(g.datastore_url(), None);
        }
        _ => panic!("expected Datastore"),
    }
    assert!(matches!(StorageType::Sqlite { path: "db".into() }.make(None), StorageBackend::Sqlite(p) if p == "db"));
    match StorageType::Mem.make(None) {
        StorageBackend::Mem(m) => assert_eq!(m.enumerate_circuits("u".into()).unwrap(), vec![]),
        _ => panic!("expected memory"),
    }
}

#[test]
fn access_is_limited_to_owner() {
    let mut s = MemInterface::new();
    let alice = UserToken("alice".to_string());
    let bob = UserToken("bob".to_string());
    let md = create(&mut s, &alice, circuit("mallory", "mine")).unwrap();
    assert_eq!(md.id, "1");
    assert_eq!(md.owner, "alice");
    assert_eq!(md.name, "mine");
    let c = load_circuit(&s, &alice, "1".to_string()).unwrap();
    assert_eq!(c.metadata, md);
    assert_eq!(c.contents, "contents of mine");
    assert_eq!(load_circuit(&s, &bob, "1".to_string()), Err(NotFound));
    assert_eq!(load_circuit(&s, &alice, "9".to_string()), Err(NotFound));
    assert_eq!(update(&mut s, &bob, "1".to_string(), circuit("bob", "stolen")), Err(NotFound));
    assert_eq!(delete(&mut s, &bob, "1".to_string()), Err(NotFound));
    assert_eq!(s.load_circuit("1".to_string()).unwrap().metadata.name, "mine");
}

#[test]
fn update_and_delete_by_owner() {
    let mut s = MemInterface::new();
    let alice = UserToken("alice".to_string());
    create(&mut s, &alice, circuit("", "v1")).unwrap();
    let md = update(&mut s, &alice, "1".to_string(), circuit("bob", "v2")).unwrap();
    assert_eq!(md.id, "1");
    assert_eq!(md.owner, "alice");
    assert_eq!(md.name, "v2");
    assert_eq!(s.load_circuit("1".to_string()).unwrap().contents, "contents of v2");
    assert_eq!(delete(&mut s, &alice, "1".to_string()), Ok(()));
    assert_eq!(load_circuit(&s, &alice, "1".to_string()), Err(NotFound));
}

#[test]
fn enumerate_lists_the_users_circuits() {
    let mut s = MemInterface::new();
    let alice = UserToken("alice".to_string());
    let bob = UserToken("bob".to_string());
    let a = create(&mut s, &alice, circuit("", "a")).unwrap();
    create(&mut s, &bob, circuit("", "b")).unwrap();
    assert_eq!(enumerate(&s, &alice).unwrap(), vec![a]);
    assert_eq!(enumerate(&s, &UserToken("carol".into())).unwrap(), vec![]);
}

#[test]
fn owned_and_answer() {
    let u = UserToken("u".to_string());
    let c = circuit("u", "x");
    assert_eq!(owned_circuit(Ok(c.clone()), &u), Ok(c));
    assert_eq!(owned_circuit(Ok(circuit("v", "x")), &u), Err(NotFound));
    assert_eq!(owned_circuit(Err(Error::CircuitIdNotFound("1".into())), &u), Err(NotFound));
    assert_eq!(answer::<u8>(Ok(3)), Ok(3));
    assert_eq!(answer::<u8>(Err(Error::Other("x".into()))), Err(NotFound));
}

#[test]
fn default_config_identifies_no_auth_users() {
    let (storage, auths) = Config::default().make(None);
    let mut methods: Vec<Box<dyn Method>> = Vec::new();
    for a in auths {
        match a {
            AuthBackend::NoAuth(n) => methods.push(Box::new(n)),
            AuthBackend::GoogleOAuth(_) => panic!("the default configuration has no Google sign-in"),
        }
    }
    let d = IdentityDecoder::new(methods);
    assert_eq!(d.identify("no_auth", "bob"), Ok("no_auth_bob".to_string()));
    assert_eq!(d.identify("google", "t"), Err(ExtractAuthErr::UnsupportedMethod));
    match storage {
        StorageBackend::Mem(m) => {
            assert_eq!(m.enumerate_circuits("bob".into()), Ok(vec![]));
            assert_eq!(m.load_circuit("1".into()), Err(Error::CircuitIdNotFound("1".into())));
        }
        _ => panic!("the default configuration keeps circuits in memory"),
    }
}

#[test]
fn empty_decoder_supports_nothing() {
    let d: IdentityDecoder<dyn Method> = IdentityDecoder::new(vec![]);
    assert_eq!(d.identify("no_auth", "bob"), Err(ExtractAuthErr::UnsupportedMethod));
}

#[test]
fn first_method_decides_even_when_it_refuses() {
    let methods: Vec<Box<dyn Method>> = vec![Box::new(Refuses), Box::new(NoLoginAuthProvider::new())];
    let d = IdentityDecoder::new(methods);
    assert_eq!(d.identify("no_auth", "bob"), Err(ExtractAuthErr::Failed("no")));
}

#[test]
fn update_and_delete_leave_foreign_circuits_alone() {
    let mut s = MemInterface::new();
    let alice = UserToken("alice".to_string());
    let bob = UserToken("bob".to_string());
    create(&mut s, &alice, circuit("", "mine")).unwrap();
    let before = s.load_circuit("1".to_string()).unwrap();
    assert_eq!(update(&mut s, &bob, "1".to_string(), circuit("bob", "x")), Err(NotFound));
    assert_eq!(delete(&mut s, &bob, "1".to_string()), Err(NotFound));
    assert_eq!(s.load_circuit("1".to_string()).unwrap(), before);
    assert_eq!(s.enumerate_circuits("alice".to_string()).unwrap(), vec![before.metadata]);
}

#[test]
fn configuration_for_the_environment() {
    let c = Config {
        storage_type: StorageType::Sqlite { path: "db".into() },
        auth_types: vec![AuthType::NoAuth],
        address: "127.0.0.1".into(),
        port: 9000,
    };
    let local = Config { storage_type: StorageType::Sqlite { path: "db".into() }, auth_types: vec![AuthType::NoAuth], address: "127.0.0.1".into(), port: 9000 };
    assert_eq!(c.for_environment(false), local);
    let prod = local.for_environment(true);
    assert_eq!(prod.storage_type, StorageType::Gcp);
    assert_eq!(prod.auth_types, vec![AuthType::GoogleOAuth("credentials.json".into())]);
    assert_eq!(prod.address, "127.0.0.1");
    assert_eq!(prod.port, 9000);
}

#[test]
fn owners_changes_touch_only_their_circuit() {
    let mut s = MemInterface::new();
    let alice = UserToken("alice".to_string());
    let bob = UserToken("bob".to_string());
    create(&mut s, &alice, circuit("", "a1")).unwrap();
    create(&mut s, &bob, circuit("", "b1")).unwrap();
    create(&mut s, &alice, circuit("", "a3")).unwrap();
    let two = s.load_circuit("2".to_string()).unwrap();
    let three = s.load_circuit("3".to_string()).unwrap();
    update(&mut s, &alice, "1".to_string(), circuit("", "a1 v2")).unwrap();
    assert_eq!(s.load_circuit("1".to_string()).unwrap().metadata.name, "a1 v2");
    assert_eq!(s.load_circuit("2".to_string()).unwrap(), two);
    assert_eq!(s.load_circuit("3".to_string()).unwrap(), three);
    delete(&mut s, &alice, "1".to_string()).unwrap();
    assert_eq!(s.load_circuit("1".to_string()), Err(Error::CircuitIdNotFound("1".to_string())));
    assert_eq!(s.load_circuit("2".to_string()).unwrap(), two);
    assert_eq!(s.load_circuit("3".to_string()).unwrap(), three);
}
