//! Authentication that trusts the user id the request names.
use vstd::prelude::*;

use crate::auth::{first_match_at, identity_view, ExtractAuthErrView, IdentityDecoder, Method};

verus! {

/// What the method without login answers for `token`: the user `no_auth_<token>`,
/// unless the token is empty.
pub open spec fn no_auth_identity(token: Seq<char>) -> Result<Seq<char>, Seq<char>> {
    if token.len() == 0 {
        Err("User id cannot be blank in no_auth"@)
    } else {
        Ok("no_auth_"@ + token)
    }
}

/// Distinct tokens name distinct users.
pub proof fn lemma_no_auth_identity_injective(a: Seq<char>, b: Seq<char>)
    requires
        no_auth_identity(a) is Ok,
        no_auth_identity(a) == no_auth_identity(b),
    ensures
        a == b,
{
    let p = "no_auth_"@;
    assert((p + a).skip(p.len() as int) =~= a);
    assert((p + b).skip(p.len() as int) =~= b);
}

/// The method without login: the token is taken as the user's name.
#[derive(Debug)]
pub struct NoLoginAuthProvider {}

impl NoLoginAuthProvider {
    pub fn new() -> (r: NoLoginAuthProvider) {
        NoLoginAuthProvider {}
    }
}

impl Method for NoLoginAuthProvider {
    /// The method's prefix is `no_auth`.
    open spec fn prefixed(&self, p: Seq<char>) -> bool {
        p == "no_auth"@
    }

    /// The method answers with `no_auth_identity`.
    open spec fn answers(&self, token: Seq<char>, outcome: Result<Seq<char>, Seq<char>>) -> bool {
        outcome == no_auth_identity(token)
    }

    fn extract_identity(&self, token: &str) -> (r: Result<String, &'static str>)
        ensures
            identity_view(r) == no_auth_identity(token@),
    {
        if token.is_empty() {
            Err("User id cannot be blank in no_auth")
        } else {
            Ok(String::from_str("no_auth_").concat(token))
        }
    }

    fn auth_header_prefix(&self) -> (r: &'static str)
        ensures
            r@ == "no_auth"@,
    {
        "no_auth"
    }
}

/// The method without login refuses only the empty token: every other token
/// is accepted, as the user whose id is `no_auth_` followed by the token.
pub proof fn lemma_no_auth_accepts_every_nonempty_token(
    p: NoLoginAuthProvider,
    token: Seq<char>,
    outcome: Result<Seq<char>, Seq<char>>,
)
    ensures
        token.len() > 0 ==> (p.answers(token, outcome) <==> outcome == Ok::<Seq<char>, Seq<char>>(
            "no_auth_"@ + token,
        )),
        token.len() > 0 && p.answers(token, outcome) ==> (outcome matches Ok(id) && id.len()
            == token.len() + 8 && id.take(8) == "no_auth_"@ && id.skip(8) == token),
        token.len() == 0 ==> (p.answers(token, outcome) <==> outcome == Err::<Seq<char>, Seq<char>>(
            "User id cannot be blank in no_auth"@,
        )),
{
    reveal_strlit("no_auth_");
    assert("no_auth_"@.len() == 8);
    if token.len() > 0 && p.answers(token, outcome) {
        let id = "no_auth_"@ + token;
        assert(id.take(8) =~= "no_auth_"@);
        assert(id.skip(8) =~= token);
    }
}

/// A decoder made of no-login methods identifies every non-empty token sent
/// under `no_auth` as the user `no_auth_` followed by the token.
pub proof fn lemma_no_auth_decoder_accepts_every_nonempty_token(
    d: IdentityDecoder<NoLoginAuthProvider>,
    token: Seq<char>,
    r: Result<Seq<char>, ExtractAuthErrView>,
)
    requires
        d.methods().len() > 0,
        d.prefixes().len() == d.methods().len(),
        forall|i: int| 0 <= i < d.methods().len() ==> d.methods()[i].prefixed(#[trigger] d.prefixes()[i]),
        token.len() > 0,
        d.identifies("no_auth"@, token, r),
    ensures
        r == Ok::<Seq<char>, ExtractAuthErrView>("no_auth_"@ + token),
{
    assert(d.methods()[0].prefixed(d.prefixes()[0]));
    assert(first_match_at(d.prefixes(), "no_auth"@, 0));
}

} // verus!
