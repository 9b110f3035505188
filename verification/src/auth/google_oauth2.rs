//! Authentication by Google sign-in tokens.
use vstd::prelude::*;

verus! {

/// The user id of the Google account with subject `sub`.
pub open spec fn google_identity(sub: Seq<char>) -> Seq<char> {
    "google_"@ + sub
}

/// Distinct Google accounts are distinct users.
pub proof fn lemma_google_identity_injective(a: Seq<char>, b: Seq<char>)
    requires
        google_identity(a) == google_identity(b),
    ensures
        a == b,
{
    let p = "google_"@;
    assert((p + a).skip(p.len() as int) =~= a);
    assert((p + b).skip(p.len() as int) =~= b);
}

/// Every account that Google verifies is a user: its id is `google_`
/// followed by the account's subject, nothing added or dropped.
pub proof fn lemma_google_identity_is_prefixed_subject(sub: Seq<char>)
    ensures
        google_identity(sub).len() == sub.len() + 7,
        google_identity(sub).take(7) == "google_"@,
        google_identity(sub).skip(7) == sub,
{
    reveal_strlit("google_");
    assert("google_"@.len() == 7);
    assert(google_identity(sub).take(7) =~= "google_"@);
    assert(google_identity(sub).skip(7) =~= sub);
}

/// The OAuth client of this server at Google; tokens must be issued for it.
#[derive(Debug, PartialEq, Eq)]
pub struct LoginProvider {
    pub client_id: String,
    pub client_secret: String,
}

impl LoginProvider {
    /// The `authType` header value that selects Google sign-in.
    pub fn auth_header_prefix(&self) -> (r: &'static str)
        ensures
            r@ == "google"@,
    {
        "google"
    }

    /// The user id from the outcome of verifying a token with Google: the
    /// verified account's subject, or the refusal.
    pub fn identity_from_subject(&self, verified: Result<String, ()>) -> (r: Result<String, &'static str>)
        ensures
            match verified {
                Ok(sub) => (r matches Ok(id) && id@ == google_identity(sub@)),
                Err(_) => (r matches Err(m) && m@ == "Failed to validate token"@),
            },
    {
        match verified {
            Ok(sub) => Ok(String::from_str("google_").concat(sub.as_str())),
            Err(_) => Err("Failed to validate token"),
        }
    }
}

} // verus!
