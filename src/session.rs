use vstd::prelude::*;

use crate::error::ServiceError;
use crate::gate::{bearer_header, lemma_minted_token_lifetime, Authorization, GateDecision};
use crate::models::{LoginFormData, LoginResponse, User};
use crate::password::{password_matches, verify_password};
use crate::token::{decodes_to, jwt_claims_of, mint, token_shaped, verdict};

verus! {

/// How long an issued session token stays valid: thirty days, in milliseconds.
pub const THIRTY_DAYS_IN_MS: u64 = 2592000000;

/// Whether a login with `email` and `password` succeeds against the account
/// that the lookup by `email` found, if any. The account's email must be the
/// submitted one and the password must match its hash.
pub open spec fn accepts(email: Seq<char>, password: Seq<char>, user: Option<User>) -> bool {
    match user {
        Some(u) => u.email@ == email && password_matches(password, u.password@),
        None => false,
    }
}

/// The error a login ends in, if any: `CredentialsInvalid` whenever the
/// credentials are not accepted, whether the email has no account or the
/// password is wrong.
pub open spec fn login_refusal(email: Seq<char>, password: Seq<char>, user: Option<User>) -> Option<
    ServiceError,
> {
    if accepts(email, password, user) {
        None
    } else {
        Some(ServiceError::CredentialsInvalid)
    }
}

/// Issues a session for a login at time `now` (milliseconds since the epoch),
/// given the account that the lookup by the submitted email found, if any.
/// An unknown email and a wrong password fail alike; on success the token
/// carries the submitted email and expires thirty days after `now`. Accepted
/// credentials always yield a session.
pub fn login(form: &LoginFormData, user: Option<User>, secret: &[u8], now: u64) -> (r: Result<
    LoginResponse,
    ServiceError,
>)
    requires
        now + THIRTY_DAYS_IN_MS <= u64::MAX,
    ensures
        r is Ok <==> login_refusal(form.email@, form.password@, user) is None,
        r matches Err(e) ==> login_refusal(form.email@, form.password@, user) == Some(e),
        r matches Ok(resp) ==> resp.email@ == form.email@ && token_shaped(resp.token@)
            && jwt_claims_of(resp.token@, secret@) == decodes_to(
            form.email@,
            (now + THIRTY_DAYS_IN_MS) as u64,
        ),
{
    let u = match user {
        Some(u) => u,
        None => return Err(ServiceError::CredentialsInvalid),
    };
    if u.email != form.email || !verify_password(form.password.as_str(), u.password.as_str()) {
        return Err(ServiceError::CredentialsInvalid);
    }
    match mint(form.email.as_str(), THIRTY_DAYS_IN_MS, now, secret) {
        Ok(token) => Ok(LoginResponse { token, email: u.email }),
        Err(e) => Err(e),
    }
}

/// The status a login outcome is answered with: 200 on success, else the
/// error's own status.
pub open spec fn login_status_code(r: Result<LoginResponse, ServiceError>) -> u16 {
    match r {
        Ok(_) => 200,
        Err(e) => e.status_code(),
    }
}

/// The HTTP status of a login outcome.
pub fn login_status(r: &Result<LoginResponse, ServiceError>) -> (s: u16)
    ensures
        s == login_status_code(*r),
{
    match r {
        Ok(_) => 200,
        Err(e) => e.status(),
    }
}

/// A successful login's token validates, at any time before thirty days have
/// passed since the login, to the email that was submitted.
pub proof fn lemma_login_token_validates(
    email: Seq<char>,
    token: Seq<char>,
    secret: Seq<u8>,
    issued: u64,
    now: u64,
)
    requires
        issued + THIRTY_DAYS_IN_MS <= u64::MAX,
        jwt_claims_of(token, secret) == decodes_to(email, (issued + THIRTY_DAYS_IN_MS) as u64),
        now < issued + THIRTY_DAYS_IN_MS,
    ensures
        verdict(jwt_claims_of(token, secret), now) matches Ok((sub, _)) && sub == email,
{
}

/// A wrong password for an existing account and an email with no account
/// end in the same error, and so in the same status: a failed login does not
/// tell whether the email has an account.
pub proof fn lemma_login_failures_alike(email: Seq<char>, password: Seq<char>, account: User)
    requires
        account.email@ == email,
        !password_matches(password, account.password@),
    ensures
        login_refusal(email, password, Some(account)) == login_refusal(email, password, None),
        login_refusal(email, password, None) == Some(ServiceError::CredentialsInvalid),
        login_status_code(Err(ServiceError::CredentialsInvalid)) == 401,
{
}

/// The token of a successful login, sent as `Bearer <token>` on a protected
/// path to a guard over the same secret, is let through until thirty days
/// after the login.
pub proof fn lemma_login_token_admitted(
    gate: Authorization,
    path: Seq<char>,
    email: Seq<char>,
    token: Seq<char>,
    issued: u64,
    now: u64,
)
    requires
        !gate.bypasses(path),
        issued + THIRTY_DAYS_IN_MS <= u64::MAX,
        token_shaped(token),
        jwt_claims_of(token, gate.secret@) == decodes_to(
            email,
            (issued + THIRTY_DAYS_IN_MS) as u64,
        ),
        now < issued + THIRTY_DAYS_IN_MS,
    ensures
        gate.outcome(path, Some(bearer_header(token)), now) == GateDecision::Forward,
{
    lemma_minted_token_lifetime(gate, path, token, email, issued, THIRTY_DAYS_IN_MS, now);
}

} // verus!
