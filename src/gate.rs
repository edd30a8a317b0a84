use vstd::prelude::*;
use vstd::utf8::*;

use crate::error::ServiceError;
use crate::token::{
    decodes_to, is_token_char, jwt_claims_of, refused, token_shaped, utf8_text, validate, verdict,
    TokenFault,
};

verus! {

/// The path that every gate built by [`Authorization::for_api`] lets through
/// without a credential.
pub const LOGIN_PATH: &'static str = "/api/login";

/// Whether a header byte is ASCII whitespace (space, tab, line feed, vertical
/// tab, form feed or carriage return).
pub open spec fn is_blank(b: u8) -> bool {
    b == 32 || (9 <= b && b <= 13)
}

/// `s` without its leading whitespace.
pub open spec fn trim_front(s: Seq<u8>) -> Seq<u8>
    decreases s.len(),
{
    if s.len() > 0 && is_blank(s[0]) {
        trim_front(s.drop_first())
    } else {
        s
    }
}

/// `s` without its trailing whitespace.
pub open spec fn trim_back(s: Seq<u8>) -> Seq<u8>
    decreases s.len(),
{
    if s.len() > 0 && is_blank(s.last()) {
        trim_back(s.drop_last())
    } else {
        s
    }
}

/// The bytes of the scheme word `Bearer`.
pub open spec fn bearer_scheme() -> Seq<u8> {
    seq![66u8, 101u8, 97u8, 114u8, 101u8, 114u8]
}

/// The credential in an `Authorization` header value: what follows the
/// `Bearer` prefix, with surrounding whitespace removed. `None` when the
/// prefix is absent or nothing is left.
pub open spec fn bearer_token_of(h: Seq<u8>) -> Option<Seq<u8>> {
    if h.len() >= 6 && h.subrange(0, 6) == bearer_scheme() {
        let t = trim_back(trim_front(h.subrange(6, h.len() as int)));
        if t.len() > 0 {
            Some(t)
        } else {
            None
        }
    } else {
        None
    }
}

/// Extracts the credential from an `Authorization` header value.
pub fn bearer_token(h: &[u8]) -> (r: Option<&[u8]>)
    ensures
        match r {
            Some(t) => bearer_token_of(h@) == Some(t@),
            None => bearer_token_of(h@) is None,
        },
{
    let n = h.len();
    if n < 6 || h[0] != 66 || h[1] != 101 || h[2] != 97 || h[3] != 114 || h[4] != 101 || h[5]
        != 114 {
        proof {
            if n >= 6 && h@.subrange(0, 6) == bearer_scheme() {
                assert(h@.subrange(0, 6)[0] == h@[0]);
                assert(h@.subrange(0, 6)[1] == h@[1]);
                assert(h@.subrange(0, 6)[2] == h@[2]);
                assert(h@.subrange(0, 6)[3] == h@[3]);
                assert(h@.subrange(0, 6)[4] == h@[4]);
                assert(h@.subrange(0, 6)[5] == h@[5]);
            }
        }
        return None;
    }
    assert(h@.subrange(0, 6) =~= bearer_scheme());
    let mut i: usize = 6;
    while i < n && (h[i] == 32 || (9 <= h[i] && h[i] <= 13))
        invariant
            6 <= i <= n,
            n == h@.len(),
            trim_front(h@.subrange(6, n as int)) == trim_front(h@.subrange(i as int, n as int)),
        decreases n - i,
    {
        assert(h@.subrange(i as int, n as int).drop_first() =~= h@.subrange(
            i as int + 1,
            n as int,
        ));
        i = i + 1;
    }
    let mut j: usize = n;
    while j > i && (h[j - 1] == 32 || (9 <= h[j - 1] && h[j - 1] <= 13))
        invariant
            6 <= i <= j <= n,
            n == h@.len(),
            trim_front(h@.subrange(6, n as int)) == h@.subrange(i as int, n as int),
            trim_back(h@.subrange(i as int, n as int)) == trim_back(
                h@.subrange(i as int, j as int),
            ),
        decreases j,
    {
        assert(h@.subrange(i as int, j as int).drop_last() =~= h@.subrange(
            i as int,
            j as int - 1,
        ));
        j = j - 1;
    }
    if j == i {
        None
    } else {
        Some(&h[i..j])
    }
}

/// What the guard does with a request.
#[derive(Clone, Copy, Debug, PartialEq, Eq, Structural)]
pub enum GateDecision {
    /// The request goes on, unchanged, to the handlers.
    Forward,
    /// The request is answered at once with this error.
    Reject(ServiceError),
}

/// The header value of a request, if it has one.
pub open spec fn header_view(header: Option<&[u8]>) -> Option<Seq<u8>> {
    match header {
        Some(h) => Some(h@),
        None => None,
    }
}

/// The guard's configuration: the secret that tokens are signed with, and the
/// paths that need no credential.
pub struct Authorization {
    pub secret: Vec<u8>,
    pub open_paths: Vec<String>,
}

impl Authorization {
    /// Whether `path` is one of the paths that bypass the credential check.
    pub open spec fn bypasses(&self, path: Seq<char>) -> bool {
        exists|i: int| 0 <= i < self.open_paths@.len() && (#[trigger] self.open_paths@[i])@ == path
    }

    /// The guard's decision on a request for `path` carrying `header` as its
    /// `Authorization` value, at time `now`.
    pub open spec fn outcome(&self, path: Seq<char>, header: Option<Seq<u8>>, now: u64) -> GateDecision {
        if self.bypasses(path) {
            GateDecision::Forward
        } else {
            match header {
                None => GateDecision::Reject(ServiceError::AuthMissing),
                Some(h) => match bearer_token_of(h) {
                    None => GateDecision::Reject(ServiceError::AuthMalformed),
                    Some(t) => if !valid_utf8(t) {
                        GateDecision::Reject(ServiceError::AuthMalformed)
                    } else {
                        match verdict(jwt_claims_of(decode_utf8(t), self.secret@), now) {
                            Ok(_) => GateDecision::Forward,
                            Err(e) => GateDecision::Reject(e),
                        }
                    },
                },
            }
        }
    }

    pub fn new(secret: Vec<u8>, open_paths: Vec<String>) -> (r: Authorization)
        ensures
            r.secret@ == secret@,
            r.open_paths@ == open_paths@,
    {
        Authorization { secret, open_paths }
    }

    /// A gate over `secret` whose only open path is the login route.
    pub fn for_api(secret: Vec<u8>) -> (r: Authorization)
        ensures
            r.secret@ == secret@,
            r.open_paths@.len() == 1,
            r.open_paths@[0]@ == LOGIN_PATH@,
    {
        let login = LOGIN_PATH.to_owned();
        let open_paths = vec![login];
        Authorization { secret, open_paths }
    }

    /// Whether `path` bypasses the credential check.
    pub fn is_open(&self, path: &str) -> (r: bool)
        ensures
            r == self.bypasses(path@),
    {
        let p = path.to_owned();
        let mut k: usize = 0;
        while k < self.open_paths.len()
            invariant
                k <= self.open_paths@.len(),
                p@ == path@,
                forall|m: int| 0 <= m < k ==> (#[trigger] self.open_paths@[m])@ != path@,
            decreases self.open_paths@.len() - k,
        {
            if self.open_paths[k] == p {
                return true;
            }
            k = k + 1;
        }
        false
    }

    /// Decides a request for `path`, with `header` as its `Authorization`
    /// value, at time `now` (milliseconds since the epoch).
    pub fn check(&self, path: &str, header: Option<&[u8]>, now: u64) -> (r: GateDecision)
        ensures
            r == self.outcome(path@, header_view(header), now),
    {
        if self.is_open(path) {
            return GateDecision::Forward;
        }
        match header {
            None => GateDecision::Reject(ServiceError::AuthMissing),
            Some(h) => match bearer_token(h) {
                None => GateDecision::Reject(ServiceError::AuthMalformed),
                Some(t) => match utf8_text(t) {
                    None => GateDecision::Reject(ServiceError::AuthMalformed),
                    Some(text) => match validate(text, self.secret.as_slice(), now) {
                        Ok(_) => GateDecision::Forward,
                        Err(e) => GateDecision::Reject(e),
                    },
                },
            },
        }
    }

    /// Puts the guard in front of `service`.
    pub fn new_transform<S>(&self, service: S) -> (r: AuthorizationMiddleware<S>)
        ensures
            r.service == service,
            r.gate.secret@ == self.secret@,
            r.gate.open_paths@ == self.open_paths@,
    {
        let secret = self.secret.clone();
        let mut open_paths: Vec<String> = Vec::new();
        let mut k: usize = 0;
        while k < self.open_paths.len()
            invariant
                k <= self.open_paths@.len(),
                open_paths@ == self.open_paths@.subrange(0, k as int),
            decreases self.open_paths@.len() - k,
        {
            open_paths.push(self.open_paths[k].clone());
            k = k + 1;
        }
        assert(open_paths@ =~= self.open_paths@);
        assert(secret@ =~= self.secret@);
        AuthorizationMiddleware { service, gate: Authorization { secret, open_paths } }
    }
}

/// A service behind the guard: requests reach `service` only when `gate`
/// forwards them.
pub struct AuthorizationMiddleware<S> {
    pub service: S,
    pub gate: Authorization,
}

impl<S> AuthorizationMiddleware<S> {
    /// The guard's decision on a request; the service is not touched.
    pub fn call(&self, path: &str, header: Option<&[u8]>, now: u64) -> (r: GateDecision)
        ensures
            r == self.gate.outcome(path@, header_view(header), now),
    {
        self.gate.check(path, header, now)
    }
}

/// A header made of the scheme, one space and a token with no whitespace at
/// either end carries exactly that token.
pub proof fn lemma_bearer_header(token: Seq<u8>)
    requires
        token.len() > 0,
        !is_blank(token[0]),
        !is_blank(token.last()),
    ensures
        bearer_token_of(bearer_scheme() + seq![32u8] + token) == Some(token),
{
    let h = bearer_scheme() + seq![32u8] + token;
    assert(h.subrange(0, 6) =~= bearer_scheme());
    let rest = h.subrange(6, h.len() as int);
    assert(rest.drop_first() =~= token);
    assert(trim_front(rest) == trim_front(token));
    assert(trim_front(token) == token);
    assert(trim_back(token) == token);
}

/// The `Authorization` value a client sends with token `t`: `Bearer <t>`.
pub open spec fn bearer_header(t: Seq<char>) -> Seq<u8> {
    bearer_scheme() + seq![32u8] + encode_utf8(t)
}

/// From a header built around a token of the shape that signing produces,
/// the guard reads back exactly that token.
pub proof fn lemma_token_header(t: Seq<char>)
    requires
        token_shaped(t),
    ensures
        bearer_token_of(bearer_header(t)) == Some(encode_utf8(t)),
        valid_utf8(encode_utf8(t)),
        decode_utf8(encode_utf8(t)) == t,
{
    assert(is_ascii_chars(t)) by {
        assert forall|i: int| 0 <= i < t.len() implies '\0' <= #[trigger] t[i] <= '\u{7f}' by {
            assert(is_token_char(t[i]));
        }
    }
    is_ascii_chars_encode_utf8(t);
    encode_utf8_valid_utf8(t);
    encode_utf8_decode_utf8(t);
    let b = encode_utf8(t);
    assert(is_token_char(t[0]));
    assert(is_token_char(t[t.len() - 1]));
    assert(b[0] == t[0] as u8);
    assert(b.last() == t[t.len() - 1] as u8);
    lemma_bearer_header(b);
}

/// On a protected path, a token signed under the guard's secret whose expiry
/// lies after `now`, sent as `Bearer <token>`, lets the request through.
pub proof fn lemma_valid_token_forwards(gate: Authorization, path: Seq<char>, t: Seq<char>, now: u64)
    requires
        !gate.bypasses(path),
        token_shaped(t),
        jwt_claims_of(t, gate.secret@) matches Ok((_, exp)) && now < exp,
    ensures
        gate.outcome(path, Some(bearer_header(t)), now) == GateDecision::Forward,
{
    lemma_token_header(t);
}

/// On a protected path, a token whose signature does not verify under the
/// guard's secret is rejected as such, whatever its payload.
pub proof fn lemma_bad_signature_rejected(gate: Authorization, path: Seq<char>, t: Seq<char>, now: u64)
    requires
        !gate.bypasses(path),
        token_shaped(t),
        jwt_claims_of(t, gate.secret@) == refused(TokenFault::BadSignature),
    ensures
        gate.outcome(path, Some(bearer_header(t)), now) == GateDecision::Reject(
            ServiceError::AuthInvalidSignature,
        ),
{
    lemma_token_header(t);
}

/// On a protected path, a token signed under the guard's secret whose expiry
/// has been reached is rejected as expired.
pub proof fn lemma_expired_token_rejected(gate: Authorization, path: Seq<char>, t: Seq<char>, now: u64)
    requires
        !gate.bypasses(path),
        token_shaped(t),
        jwt_claims_of(t, gate.secret@) matches Ok((_, exp)) && exp <= now,
    ensures
        gate.outcome(path, Some(bearer_header(t)), now) == GateDecision::Reject(
            ServiceError::AuthExpired,
        ),
{
    lemma_token_header(t);
}

/// A token minted at `issued` with lifetime `ttl` under the guard's secret,
/// sent as `Bearer <token>` on a protected path, is let through before
/// `issued + ttl` and rejected as expired from then on.
pub proof fn lemma_minted_token_lifetime(
    gate: Authorization,
    path: Seq<char>,
    t: Seq<char>,
    subject: Seq<char>,
    issued: u64,
    ttl: u64,
    now: u64,
)
    requires
        !gate.bypasses(path),
        issued + ttl <= u64::MAX,
        token_shaped(t),
        jwt_claims_of(t, gate.secret@) == decodes_to(subject, (issued + ttl) as u64),
    ensures
        now < issued + ttl ==> gate.outcome(path, Some(bearer_header(t)), now)
            == GateDecision::Forward,
        issued + ttl <= now ==> gate.outcome(path, Some(bearer_header(t)), now)
            == GateDecision::Reject(ServiceError::AuthExpired),
{
    lemma_token_header(t);
}

/// Without an `Authorization` header a protected path is always refused,
/// while an open path is always let through, with or without a header.
pub proof fn lemma_missing_header(
    gate: Authorization,
    path: Seq<char>,
    header: Option<Seq<u8>>,
    now: u64,
)
    ensures
        !gate.bypasses(path) ==> gate.outcome(path, None, now) == GateDecision::Reject(
            ServiceError::AuthMissing,
        ),
        gate.bypasses(path) ==> gate.outcome(path, header, now) == GateDecision::Forward,
{
}

/// The guard built by [`Authorization::for_api`] lets the login route through.
pub proof fn lemma_login_path_open(gate: Authorization)
    requires
        gate.open_paths@.len() == 1,
        gate.open_paths@[0]@ == LOGIN_PATH@,
    ensures
        gate.bypasses(LOGIN_PATH@),
{
    assert((gate.open_paths@[0])@ == LOGIN_PATH@);
}

/// A header whose scheme is not `Bearer` is rejected as malformed on a
/// protected path, before any signature is looked at.
pub proof fn lemma_wrong_scheme_rejected(
    gate: Authorization,
    path: Seq<char>,
    header: Seq<u8>,
    now: u64,
)
    requires
        !gate.bypasses(path),
        header.len() < 6 || header.subrange(0, 6) != bearer_scheme(),
    ensures
        bearer_token_of(header) is None,
        gate.outcome(path, Some(header), now) == GateDecision::Reject(ServiceError::AuthMalformed),
{
}

} // verus!
