use vstd::prelude::*;

verus! {

/// A stored word pair with its optional tags.
#[derive(Clone, Debug)]
pub struct Entry {
    pub id: i32,
    pub creek: String,
    pub english: String,
    pub tags: Option<String>,
}

/// A user account; `password` holds the salted bcrypt hash, never the plaintext.
#[derive(Clone, Debug)]
pub struct User {
    pub id: i32,
    pub email: String,
    pub password: String,
}

/// The credentials a client submits to log in.
#[derive(Clone, Debug)]
pub struct LoginFormData {
    pub email: String,
    pub password: String,
}

/// The payload of a session token: who it was issued to, and the instant
/// (milliseconds since the epoch) from which it is no longer accepted.
#[derive(Clone, Debug)]
pub struct Claims {
    pub sub: String,
    pub exp: u64,
}

impl View for Claims {
    type V = (Seq<char>, u64);

    open spec fn view(&self) -> (Seq<char>, u64) {
        (self.sub@, self.exp)
    }
}

/// What a successful login hands back to the client.
#[derive(Clone, Debug)]
pub struct LoginResponse {
    pub token: String,
    pub email: String,
}

/// The fields of an entry that a client creates or changes.
#[derive(Clone, Debug)]
pub struct EntryFormData {
    pub creek: String,
    pub english: String,
    pub tags: Option<String>,
}

} // verus!
