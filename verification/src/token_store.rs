//! Durable persistence of the session token.

use vstd::prelude::*;

verus! {

/// The characters of an optionally present token.
pub open spec fn chars_of(t: Option<String>) -> Option<Seq<char>> {
    match t {
        Some(s) => Some(s@),
        None => None,
    }
}

/// The session token's home: a single key-value entry that outlives one page
/// or process lifetime.  `None` means "anonymous", and writing `None` is the
/// only way to end a session.  The store does no expiry checking of its own —
/// the server is the source of truth for validity, and stale tokens surface
/// through error classification.
///
/// The surrounding shell mirrors this value into durable storage whenever a
/// transition emits [`crate::command::Command::PersistToken`].
pub struct TokenStore {
    token: Option<String>,
}

impl TokenStore {
    /// The stored token, `None` when the session is anonymous.
    pub closed spec fn stored(&self) -> Option<String> {
        self.token
    }

    /// The stored token's characters.
    pub open spec fn stored_chars(&self) -> Option<Seq<char>> {
        chars_of(self.stored())
    }

    /// The store as it stands after a write of `t`.
    pub closed spec fn with_token(self, t: Option<String>) -> TokenStore {
        TokenStore { token: t }
    }

    /// A store holding what durable storage yielded at startup.
    pub fn new(token: Option<String>) -> (s: TokenStore)
        ensures
            s.stored() == token,
    {
        TokenStore { token }
    }

    /// Read the current token.
    pub fn get(&self) -> (t: Option<String>)
        ensures
            t == self.stored(),
    {
        match &self.token {
            Some(t) => Some(t.clone()),
            None => None,
        }
    }

    /// Replace the stored token.
    pub fn set(&mut self, token: Option<String>)
        ensures
            *final(self) == old(self).with_token(token),
            final(self).stored() == token,
    {
        self.token = token;
    }

    /// Whether a token is present.
    pub fn has_token(&self) -> (b: bool)
        ensures
            b == (self.stored() is Some),
    {
        self.token.is_some()
    }
}

/// Law: a write is read back exactly as it was written, repeating a write
/// changes nothing further, and whatever was written before, only the last
/// write counts.
pub proof fn lemma_store_last_write_wins(s: TokenStore, t: Option<String>)
    ensures
        s.with_token(t).stored() == t,
        s.with_token(t).with_token(t) == s.with_token(t),
        forall|u: Option<String>| s.with_token(u).with_token(t) == s.with_token(t),
{
}

} // verus!
