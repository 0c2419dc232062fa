//! The server side of the user-creation endpoint: the request payload and
//! the record it maps to.  Deserialization, the connection pool and the
//! insert itself live in the unverified shell; the mapping between payload
//! and record is the part worth pinning down.

use vstd::prelude::*;

verus! {

/// The payload of the user-creation endpoint.
pub struct CreateUserRequest {
    name: String,
    email: String,
    pwd_hash: String,
}

/// The database record a creation request maps to.
pub struct NewUser {
    pub name: String,
    pub email: String,
    pub pwd_hash: String,
}

impl CreateUserRequest {
    /// The requested display name.
    pub closed spec fn spec_name(&self) -> String {
        self.name
    }

    /// The requested email.
    pub closed spec fn spec_email(&self) -> String {
        self.email
    }

    /// The hash of the requested password.
    pub closed spec fn spec_pwd_hash(&self) -> String {
        self.pwd_hash
    }

    /// A request from its parts, as the shell builds it after deserializing.
    pub fn new(name: String, email: String, pwd_hash: String) -> (r: CreateUserRequest)
        ensures
            r.spec_name() == name,
            r.spec_email() == email,
            r.spec_pwd_hash() == pwd_hash,
    {
        CreateUserRequest { name, email, pwd_hash }
    }

    /// The record to insert for this request: every field carried over
    /// unchanged.
    pub fn to_new_user(&self) -> (r: NewUser)
        ensures
            r.name == self.spec_name(),
            r.email == self.spec_email(),
            r.pwd_hash == self.spec_pwd_hash(),
    {
        NewUser {
            name: self.name.clone(),
            email: self.email.clone(),
            pwd_hash: self.pwd_hash.clone(),
        }
    }
}

} // verus!
