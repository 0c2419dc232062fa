//! Data carried through the session and credential flows: the current user
//! and the request payloads that the forms build field by field.

use vstd::prelude::*;

verus! {

/// The resolved user of a session: identity plus the token that proves it.
///
/// The all-empty value stands for "anonymous"; a context holding it cannot by
/// itself distinguish "definitely logged out" from "not checked yet" — callers
/// consult the bootstrap phase for that.
#[derive(Clone, Debug, PartialEq, Eq)]
pub struct UserInfo {
    pub id: u64,
    pub name: String,
    pub email: String,
    pub token: String,
}

/// The mathematical value of a [`UserInfo`]: the id and the character
/// sequences of its fields.
#[verifier::ext_equal]
pub struct UserView {
    pub id: u64,
    pub name: Seq<char>,
    pub email: Seq<char>,
    pub token: Seq<char>,
}

impl View for UserInfo {
    type V = UserView;

    open spec fn view(&self) -> UserView {
        UserView { id: self.id, name: self.name@, email: self.email@, token: self.token@ }
    }
}

/// The anonymous user value: id zero and every field empty.
pub open spec fn anonymous_user() -> UserView {
    UserView {
        id: 0,
        name: Seq::<char>::empty(),
        email: Seq::<char>::empty(),
        token: Seq::<char>::empty(),
    }
}

/// Whether a user value is the anonymous one.
pub open spec fn is_anonymous_user(u: UserView) -> bool {
    u.id == 0 && u.name.len() == 0 && u.email.len() == 0 && u.token.len() == 0
}

impl UserInfo {
    /// The anonymous user.
    pub fn anonymous() -> (u: UserInfo)
        ensures
            u@ =~= anonymous_user(),
            is_anonymous_user(u@),
    {
        UserInfo { id: 0, name: String::new(), email: String::new(), token: String::new() }
    }

    /// An equal copy; a fresh one is sent whenever a value leaves the library.
    pub fn snapshot(&self) -> (c: UserInfo)
        ensures
            c == *self,
    {
        UserInfo {
            id: self.id,
            name: self.name.clone(),
            email: self.email.clone(),
            token: self.token.clone(),
        }
    }
}

impl Default for UserInfo {
    /// The anonymous user.
    fn default() -> (u: UserInfo)
        ensures
            is_anonymous_user(u@),
    {
        UserInfo::anonymous()
    }
}

/// The login form: credentials built field by field, sent as one fresh copy.
#[derive(Clone, Debug, PartialEq, Eq)]
pub struct LoginInfo {
    pub email: String,
    pub password: String,
}

impl LoginInfo {
    /// The empty form.
    pub fn new() -> (f: LoginInfo)
        ensures
            f.email@.len() == 0,
            f.password@.len() == 0,
    {
        LoginInfo { email: String::new(), password: String::new() }
    }

    /// An equal copy; a fresh one is sent per request.
    pub fn snapshot(&self) -> (c: LoginInfo)
        ensures
            c == *self,
    {
        LoginInfo { email: self.email.clone(), password: self.password.clone() }
    }
}

/// The registration form.  `confirmation_id` stays empty unless the form was
/// seeded from a resolved confirmation link.
#[derive(Clone, Debug, PartialEq, Eq)]
pub struct RegisterInfo {
    pub name: String,
    pub email: String,
    pub password: String,
    pub confirmation_id: String,
}

impl RegisterInfo {
    /// The empty form.
    pub fn new() -> (f: RegisterInfo)
        ensures
            f.name@.len() == 0,
            f.email@.len() == 0,
            f.password@.len() == 0,
            f.confirmation_id@.len() == 0,
    {
        RegisterInfo {
            name: String::new(),
            email: String::new(),
            password: String::new(),
            confirmation_id: String::new(),
        }
    }

    /// An equal copy; a fresh one is sent per request.
    pub fn snapshot(&self) -> (c: RegisterInfo)
        ensures
            c == *self,
    {
        RegisterInfo {
            name: self.name.clone(),
            email: self.email.clone(),
            password: self.password.clone(),
            confirmation_id: self.confirmation_id.clone(),
        }
    }
}

/// The profile-update payload: the new display name.
#[derive(Clone, Debug, PartialEq, Eq)]
pub struct UpdateUser {
    pub name: String,
}

impl UpdateUser {
    /// A payload holding the given name.
    pub fn new(name: &String) -> (u: UpdateUser)
        ensures
            u.name == *name,
    {
        UpdateUser { name: name.clone() }
    }
}

/// The two account flows a confirmation link can drive.
#[derive(Clone, Copy, Debug, PartialEq, Eq, Structural)]
pub enum ConfirmationType {
    Registration,
    PasswordReset,
}

/// The request for a confirmation link to be mailed to `email`.
#[derive(Clone, Debug, PartialEq, Eq)]
pub struct SendConfirmationLink {
    pub email: String,
    pub confirmation_type: ConfirmationType,
}

/// A server-issued confirmation link, resolved from its opaque id.  The
/// client never constructs one; it only receives one from a lookup, and
/// treats the email as display-only pre-fill, never as proof of ownership.
#[derive(Clone, Debug, PartialEq, Eq)]
pub struct ConfirmationLink {
    pub id: String,
    pub email: String,
    pub confirmation_type: ConfirmationType,
}

} // verus!
