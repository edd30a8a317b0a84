use vstd::prelude::*;

verus! {

/// Every way a request can fail in the authentication core and the data
/// layer behind it.
#[derive(Clone, Copy, Debug, PartialEq, Eq, Structural)]
pub enum ServiceError {
    /// No credential was presented on a protected path.
    AuthMissing,
    /// The credential has the wrong scheme or cannot be parsed.
    AuthMalformed,
    /// The credential is correctly signed but its expiry has passed.
    AuthExpired,
    /// The credential's signature does not verify under the current secret.
    AuthInvalidSignature,
    /// Login with an unknown email or a wrong password.
    CredentialsInvalid,
    /// No pooled connection became free within the wait bound.
    PoolExhausted,
    /// The data store could not be reached.
    StoreUnavailable,
    /// The requested resource does not exist.
    NotFound,
    /// Signing or serialisation failed.
    Internal,
}

impl ServiceError {
    /// The HTTP status with which the error is answered.
    pub open spec fn status_code(self) -> u16 {
        match self {
            ServiceError::AuthMissing => 401,
            ServiceError::AuthMalformed => 401,
            ServiceError::AuthExpired => 401,
            ServiceError::AuthInvalidSignature => 401,
            ServiceError::CredentialsInvalid => 401,
            ServiceError::PoolExhausted => 500,
            ServiceError::StoreUnavailable => 500,
            ServiceError::NotFound => 404,
            ServiceError::Internal => 500,
        }
    }

    pub fn status(&self) -> (r: u16)
        ensures
            r == self.status_code(),
    {
        match self {
            ServiceError::AuthMissing => 401,
            ServiceError::AuthMalformed => 401,
            ServiceError::AuthExpired => 401,
            ServiceError::AuthInvalidSignature => 401,
            ServiceError::CredentialsInvalid => 401,
            ServiceError::PoolExhausted => 500,
            ServiceError::StoreUnavailable => 500,
            ServiceError::NotFound => 404,
            ServiceError::Internal => 500,
        }
    }
}

} // verus!
