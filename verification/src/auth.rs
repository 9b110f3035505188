//! Identifying the user of a request from its authentication headers.
use vstd::prelude::*;

pub mod google_oauth2;
pub mod no_auth;

verus! {

/// The view of the outcome of identifying a user.
pub open spec fn identity_view(r: Result<String, &'static str>) -> Result<Seq<char>, Seq<char>> {
    match r {
        Ok(id) => Ok(id@),
        Err(e) => Err(e@),
    }
}

/// A way of authenticating users. A request names the method by its header
/// prefix (the `authType` header) and carries a token for it (the `authId` header).
///
/// A method may say which header prefix it has (`prefixed`) and which answers
/// it gives to a token (`answers`). A method that says nothing of them allows
/// every prefix and every answer.
pub trait Method: Send + Sync {
    /// Whether `p` is a header prefix that this method may report.
    open spec fn prefixed(&self, p: Seq<char>) -> bool {
        true
    }

    /// Whether `outcome` (a user id, or the reason for refusal) is an answer
    /// this method may give for `token`.
    open spec fn answers(&self, token: Seq<char>, outcome: Result<Seq<char>, Seq<char>>) -> bool {
        true
    }

    /// The user id that `token` proves, or why it proves none.
    fn extract_identity(&self, token: &str) -> (r: Result<String, &'static str>)
        ensures
            self.answers(token@, identity_view(r)),
    ;

    /// The `authType` header value that selects this method.
    fn auth_header_prefix(&self) -> (r: &'static str)
        ensures
            self.prefixed(r@),
    ;
}

/// Why a request's user could not be identified.
#[derive(Debug, PartialEq, Eq)]
pub enum ExtractAuthErr {
    /// No configured method has the requested header prefix.
    UnsupportedMethod,
    /// The request or the method refused, for the given reason.
    Failed(&'static str),
}

pub enum ExtractAuthErrView {
    UnsupportedMethod,
    Failed(Seq<char>),
}

impl View for ExtractAuthErr {
    type V = ExtractAuthErrView;

    open spec fn view(&self) -> ExtractAuthErrView {
        match self {
            ExtractAuthErr::UnsupportedMethod => ExtractAuthErrView::UnsupportedMethod,
            ExtractAuthErr::Failed(m) => ExtractAuthErrView::Failed(m@),
        }
    }
}

/// `i` is the first position of `prefixes` that holds `t`.
pub open spec fn first_match_at(prefixes: Seq<Seq<char>>, t: Seq<char>, i: int) -> bool {
    &&& 0 <= i < prefixes.len()
    &&& prefixes[i] == t
    &&& forall|j: int| 0 <= j < i ==> prefixes[j] != t
}

/// The outcome of identifying a user, from the answer of the method asked.
pub open spec fn decoded(outcome: Result<Seq<char>, Seq<char>>) -> Result<Seq<char>, ExtractAuthErrView> {
    match outcome {
        Ok(id) => Ok(id),
        Err(e) => Err(ExtractAuthErrView::Failed(e)),
    }
}

/// The view of the outcome of `identify`.
pub open spec fn identify_view(r: Result<String, ExtractAuthErr>) -> Result<Seq<char>, ExtractAuthErrView> {
    match r {
        Ok(id) => Ok(id@),
        Err(e) => Err(e@),
    }
}

/// The answer to an identification from the answer of the method asked: its
/// user id, or its refusal.
pub fn decode_outcome(extracted: Result<String, &'static str>) -> (r: Result<String, ExtractAuthErr>)
    ensures
        identify_view(r) == decoded(identity_view(extracted)),
{
    match extracted {
        Ok(id) => Ok(id),
        Err(e) => Err(ExtractAuthErr::Failed(e)),
    }
}

/// Identifies users by the first of its methods whose header prefix a request
/// names. The prefixes are those the methods gave when the decoder was made.
pub struct IdentityDecoder<M: Method + ?Sized> {
    auth_methods: Vec<Box<M>>,
    prefixes: Vec<&'static str>,
}

impl<M: Method + ?Sized> IdentityDecoder<M> {
    #[verifier::type_invariant]
    spec fn inv(self) -> bool {
        self.auth_methods.len() == self.prefixes.len()
    }

    /// The methods, in the order in which they are tried.
    pub closed spec fn methods(&self) -> Seq<Box<M>> {
        self.auth_methods@
    }

    /// The header prefixes of the methods, in order.
    pub closed spec fn prefixes(&self) -> Seq<Seq<char>> {
        self.prefixes@.map_values(|p: &'static str| p@)
    }

    /// What identifying the user of token `auth_id` by the method `auth_type`
    /// may give: where some method has the prefix `auth_type`, the first such
    /// method is asked with `auth_id`, and its answer is returned (a refusal as
    /// `Failed`); where none has it, the method is unsupported.
    pub open spec fn identifies(
        &self,
        auth_type: Seq<char>,
        auth_id: Seq<char>,
        r: Result<Seq<char>, ExtractAuthErrView>,
    ) -> bool {
        &&& forall|i: int|
            #[trigger] first_match_at(self.prefixes(), auth_type, i) ==> exists|
                raw: Result<Seq<char>, Seq<char>>,
            | self.methods()[i].answers(auth_id, raw) && r == decoded(raw)
        &&& (forall|i: int| 0 <= i < self.prefixes().len() ==> self.prefixes()[i] != auth_type)
            ==> r == Err::<Seq<char>, ExtractAuthErrView>(ExtractAuthErrView::UnsupportedMethod)
    }

    /// A decoder that tries `methods` in this order, each under the header
    /// prefix it reports.
    pub fn new(methods: Vec<Box<M>>) -> (r: IdentityDecoder<M>)
        ensures
            r.methods() == methods@,
            r.prefixes().len() == methods.len(),
            forall|i: int| 0 <= i < methods.len() ==> methods@[i].prefixed(#[trigger] r.prefixes()[i]),
    {
        let mut prefixes: Vec<&'static str> = Vec::new();
        let mut i: usize = 0;
        while i < methods.len()
            invariant
                0 <= i <= methods.len(),
                prefixes.len() == i,
                forall|j: int| 0 <= j < i ==> methods@[j].prefixed((#[trigger] prefixes@[j])@),
            decreases methods.len() - i,
        {
            let p = methods[i].auth_header_prefix();
            prefixes.push(p);
            i += 1;
        }
        let r = IdentityDecoder { auth_methods: methods, prefixes };
        assert forall|i: int| 0 <= i < methods.len() implies methods@[i].prefixed(
            #[trigger] r.prefixes()[i],
        ) by {
            assert(r.prefixes()[i] == r.prefixes@[i]@);
        }
        r
    }

    /// The position of the first method whose header prefix is `auth_type`.
    pub fn select_method(&self, auth_type: &str) -> (r: Option<usize>)
        ensures
            match r {
                Some(i) => first_match_at(self.prefixes(), auth_type@, i as int) && i
                    < self.methods().len(),
                None => forall|j: int|
                    0 <= j < self.prefixes().len() ==> self.prefixes()[j] != auth_type@,
            },
    {
        proof {
            use_type_invariant(self);
        }
        let wanted = String::from_str(auth_type);
        let mut i: usize = 0;
        while i < self.prefixes.len()
            invariant
                0 <= i <= self.prefixes@.len(),
                self.prefixes@.len() == self.auth_methods@.len(),
                wanted@ == auth_type@,
                forall|j: int| 0 <= j < i ==> self.prefixes()[j] != auth_type@,
            decreases self.prefixes@.len() - i,
        {
            let prefix = String::from_str(self.prefixes[i]);
            assert(self.prefixes()[i as int] == self.prefixes@[i as int]@);
            if prefix == wanted {
                return Some(i);
            }
            i += 1;
        }
        None
    }

    /// The user id that token `auth_id` proves by the method `auth_type`.
    pub fn identify(&self, auth_type: &str, auth_id: &str) -> (r: Result<String, ExtractAuthErr>)
        ensures
            self.identifies(auth_type@, auth_id@, identify_view(r)),
    {
        match self.select_method(auth_type) {
            Some(i) => {
                let extracted = self.auth_methods[i].extract_identity(auth_id);
                let ghost raw = identity_view(extracted);
                let r = decode_outcome(extracted);
                proof {
                    assert(self.methods()[i as int] == self.auth_methods@[i as int]);
                    assert forall|j: int|
                        #[trigger] first_match_at(self.prefixes(), auth_type@, j) implies exists|
                            raw: Result<Seq<char>, Seq<char>>,
                        | self.methods()[j].answers(auth_id@, raw) && identify_view(r) == decoded(
                            raw,
                        ) by {
                        if j < i {
                            assert(self.prefixes()[j] != auth_type@);
                        } else if j > i {
                            assert(self.prefixes()[i as int] == auth_type@);
                        }
                        assert(self.methods()[j].answers(auth_id@, raw));
                    }
                    assert(self.prefixes()[i as int] == auth_type@);
                }
                r
            },
            None => Err(ExtractAuthErr::UnsupportedMethod),
        }
    }
}

/// The identified user of a request.
#[derive(Debug, PartialEq, Eq)]
pub struct UserToken(pub String);

impl UserToken {
    /// The user of a request with the given `authType` and `authId` header
    /// values: the request must carry exactly one of each.
    pub fn from_headers<M: Method + ?Sized>(
        decoder: &IdentityDecoder<M>,
        auth_type: &Vec<&str>,
        auth_id: &Vec<&str>,
    ) -> (r: Result<UserToken, ExtractAuthErr>)
        ensures
            auth_type.len() != 1 || auth_id.len() != 1 ==> (r matches Err(ExtractAuthErr::Failed(m))
                && m@ == "Single authType/authId required"@),
            auth_type.len() == 1 && auth_id.len() == 1 ==> decoder.identifies(
                auth_type[0]@,
                auth_id[0]@,
                match r {
                    Ok(t) => Ok(t.0@),
                    Err(e) => Err(e@),
                },
            ),
    {
        if auth_type.len() != 1 || auth_id.len() != 1 {
            Err(ExtractAuthErr::Failed("Single authType/authId required"))
        } else {
            match decoder.identify(auth_type[0], auth_id[0]) {
                Ok(ident) => Ok(UserToken(ident)),
                Err(e) => Err(e),
            }
        }
    }
}

/// The first method whose prefix a request names decides the answer, whatever
/// the methods after it would say; where no method has that prefix, the method
/// is unsupported.
pub proof fn lemma_first_method_decides<M: Method + ?Sized>(
    d: IdentityDecoder<M>,
    auth_type: Seq<char>,
    auth_id: Seq<char>,
    r: Result<Seq<char>, ExtractAuthErrView>,
    i: int,
)
    requires
        d.identifies(auth_type, auth_id, r),
    ensures
        0 <= i < d.prefixes().len() && d.prefixes()[i] == auth_type && (forall|j: int|
            0 <= j < i ==> d.prefixes()[j] != auth_type) ==> exists|
            raw: Result<Seq<char>, Seq<char>>,
        | d.methods()[i].answers(auth_id, raw) && r == decoded(raw),
        (forall|j: int| 0 <= j < d.prefixes().len() ==> d.prefixes()[j] != auth_type) ==> r
            == Err::<Seq<char>, ExtractAuthErrView>(ExtractAuthErrView::UnsupportedMethod),
{
    if 0 <= i < d.prefixes().len() && d.prefixes()[i] == auth_type && (forall|j: int|
        0 <= j < i ==> d.prefixes()[j] != auth_type) {
        assert(first_match_at(d.prefixes(), auth_type, i));
    }
}

} // verus!
