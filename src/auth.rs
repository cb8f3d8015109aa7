use vstd::prelude::*;
use vstd::string::*;

use crate::entities::{Claims, ClaimsView};
use crate::token::{
    claims_result_view, decode_outcome, is_token_for, jwt_claims, validate_jwt, JwtConfig, TokenError,
};

verus! {

/// The scheme prefix that introduces a token in an `Authorization` header.
pub open spec fn bearer_prefix() -> Seq<char> {
    seq!['B', 'e', 'a', 'r', 'e', 'r', ' ']
}

/// The token that an `Authorization` header value presents: what follows the
/// `Bearer ` prefix, or `None` where the value does not start with it.
pub open spec fn bearer_token_of(header: Seq<char>) -> Option<Seq<char>> {
    if header.len() >= 7 && header.subrange(0, 7) == bearer_prefix() {
        Some(header.subrange(7, header.len() as int))
    } else {
        None
    }
}

/// An optional string, seen through its characters.
pub open spec fn text_view(s: Option<String>) -> Option<Seq<char>> {
    match s {
        Some(t) => Some(t@),
        None => None,
    }
}

/// The interceptor's verdict on a request whose `Authorization` header is
/// `header`, under `secret`, at time `now`: the claims to attach on success,
/// or why it is refused.
pub open spec fn authorization_outcome(secret: Seq<u8>, header: Option<Seq<char>>, now: u64) -> Result<ClaimsView, TokenError> {
    match header {
        None => Err(TokenError::MissingCredential),
        Some(h) => match bearer_token_of(h) {
            None => Err(TokenError::MissingCredential),
            Some(token) => decode_outcome(token, secret, now),
        },
    }
}

/// The token presented in an `Authorization` header value, if the value uses
/// the bearer scheme.
pub fn bearer_token(header: &str) -> (r: Option<String>)
    ensures
        text_view(r) == bearer_token_of(header@),
{
    let n = header.unicode_len();
    if n < 7 {
        return None;
    }
    let prefix = "Bearer ";
    proof {
        reveal_strlit("Bearer ");
    }
    let mut i: usize = 0;
    while i < 7
        invariant
            i <= 7,
            n == header@.len(),
            7 <= n,
            prefix@ == bearer_prefix(),
            forall|j: int| 0 <= j < i ==> header@[j] == bearer_prefix()[j],
        decreases 7 - i,
    {
        if header.get_char(i) != prefix.get_char(i) {
            assert(header@.subrange(0, 7)[i as int] != bearer_prefix()[i as int]);
            return None;
        }
        i = i + 1;
    }
    assert(header@.subrange(0, 7) =~= bearer_prefix());
    Some(header.substring_char(7, n).to_owned())
}

/// Decides whether a request with the `Authorization` header `authorization`
/// may proceed at time `now`, and with which claims.
pub fn authorize(config: &JwtConfig, authorization: Option<&str>, now: u64) -> (r: Result<Claims, TokenError>)
    ensures
        claims_result_view(r) == authorization_outcome(
            config.secret(),
            match authorization {
                Some(h) => Some(h@),
                None => None,
            },
            now,
        ),
{
    match authorization {
        None => Err(TokenError::MissingCredential),
        Some(header) => match bearer_token(header) {
            None => Err(TokenError::MissingCredential),
            Some(token) => validate_jwt(config, token.as_str(), now),
        },
    }
}

/// An inbound request as the interceptor and the protected handlers see it.
pub struct Request {
    /// The value of the `Authorization` header, if the request has one.
    pub authorization: Option<String>,
    /// The verified identity, attached only once the interceptor admits the
    /// request.
    pub identity: Option<Claims>,
}

impl Request {
    /// A request with the given `Authorization` header and no identity yet.
    pub fn new(authorization: Option<String>) -> (r: Request)
        ensures
            r.authorization == authorization,
            r.identity is None,
    {
        Request { authorization, identity: None }
    }
}

/// A response: its status code and body.
pub struct Response {
    pub status: u16,
    pub body: Vec<u8>,
}

impl Response {
    /// Whether this is the one response every refused request gets: status
    /// 401 and an empty body.
    pub open spec fn is_unauthorized(&self) -> bool {
        &&& self.status == 401
        &&& self.body@.len() == 0
    }

    /// The response to a refused request.
    pub fn unauthorized() -> (r: Response)
        ensures
            r.is_unauthorized(),
    {
        Response { status: 401, body: Vec::new() }
    }
}

/// The factory that puts the interceptor in front of a protected handler.
pub struct Auth {
    config: JwtConfig,
}

impl Auth {
    /// The secret under which tokens are checked.
    pub closed spec fn secret(&self) -> Seq<u8> {
        self.config.secret()
    }

    /// A factory checking tokens under `config`.
    pub fn new(config: JwtConfig) -> (r: Auth)
        ensures
            r.secret() == config.secret(),
    {
        Auth { config }
    }

    /// The interceptor guarding `service`.
    pub fn new_transform<S>(&self, service: S) -> (r: AuthMiddleware<S>)
        ensures
            r.secret() == self.secret(),
            r.service() == service,
    {
        AuthMiddleware { config: self.config.duplicate(), service }
    }
}

/// The interceptor in front of one protected handler: it admits a request
/// with a valid bearer token, attaching the token's claims, and refuses any
/// other with the same 401 response, without calling the handler.
pub struct AuthMiddleware<S> {
    config: JwtConfig,
    service: S,
}

impl<S> AuthMiddleware<S> {
    /// The secret under which tokens are checked.
    pub closed spec fn secret(&self) -> Seq<u8> {
        self.config.secret()
    }

    /// The protected handler.
    pub closed spec fn service(&self) -> S {
        self.service
    }
}

impl<S: Fn(Request) -> Response> AuthMiddleware<S> {
    /// Runs one request through the interceptor at time `now`. A refused
    /// request gets the 401 response and the handler is not called; an
    /// admitted one is handed, with its claims attached, to the handler, whose
    /// response is returned unchanged.
    pub fn call(&self, req: Request, now: u64) -> (r: Response)
        requires
            forall|q: Request| #[trigger] self.service().requires((q,)),
        ensures
            authorization_outcome(self.secret(), text_view(req.authorization), now) is Err
                ==> r.is_unauthorized(),
            authorization_outcome(self.secret(), text_view(req.authorization), now) matches Ok(c)
                ==> exists|q: Request|
                #![trigger self.service().ensures((q,), r)]
                {
                    &&& q.authorization == req.authorization
                    &&& q.identity matches Some(id) && id@ == c
                    &&& self.service().ensures((q,), r)
                },
    {
        let outcome = match &req.authorization {
            Some(h) => authorize(&self.config, Some(h.as_str()), now),
            None => authorize(&self.config, None, now),
        };
        match outcome {
            Ok(claims) => {
                let mut admitted = req;
                admitted.identity = Some(claims);
                let ghost q = admitted;
                assert(self.service().requires((q,)));
                let r = (self.service)(admitted);
                assert(self.service().ensures((q,), r));
                r
            },
            Err(_) => Response::unauthorized(),
        }
    }
}

/// A request without an `Authorization` header is refused, so the protected
/// handler is never reached.
pub proof fn lemma_missing_header_refused(secret: Seq<u8>, now: u64)
    ensures
        authorization_outcome(secret, None, now) == Err::<ClaimsView, TokenError>(TokenError::MissingCredential),
{
}

/// A request presenting, in the bearer scheme, a token issued for `subject`
/// that has not yet lapsed is admitted with exactly that subject.
pub proof fn lemma_valid_bearer_admitted(secret: Seq<u8>, token: Seq<char>, subject: Seq<char>, expires_at: u64, now: u64)
    requires
        is_token_for(token, secret, subject, expires_at),
        now < expires_at,
    ensures
        authorization_outcome(secret, Some(bearer_prefix() + token), now) == Ok::<ClaimsView, TokenError>(
            ClaimsView { subject, expires_at },
        ),
{
    let header = bearer_prefix() + token;
    assert(header.subrange(0, 7) =~= bearer_prefix());
    assert(header.subrange(7, header.len() as int) =~= token);
}

/// A request presenting a well-formed but expired token is refused just as one
/// without any `Authorization` header is, so both get the same 401 response.
pub proof fn lemma_expired_refused_like_missing(secret: Seq<u8>, token: Seq<char>, now: u64)
    requires
        jwt_claims(token, secret, false) matches Some(c) && c.1 <= now,
    ensures
        authorization_outcome(secret, Some(bearer_prefix() + token), now) is Err,
        authorization_outcome(secret, None, now) is Err,
{
    let header = bearer_prefix() + token;
    assert(header.subrange(0, 7) =~= bearer_prefix());
    assert(header.subrange(7, header.len() as int) =~= token);
}

} // verus!
