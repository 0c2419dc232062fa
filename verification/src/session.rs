//! The single shared "current user" cell.

use crate::command::Command;
use crate::model::UserInfo;
use crate::model::UserView;
use crate::model::anonymous_user;
use crate::model::is_anonymous_user;
use crate::token_store::TokenStore;
use vstd::prelude::*;

verus! {

/// The one reactive cell holding the current user, readable synchronously by
/// the whole application.  Only the credential flows and the bootstrapper
/// write it, and only through [`SessionContext::login`] and
/// [`SessionContext::logout`].
pub struct SessionContext {
    user: UserInfo,
}

impl View for SessionContext {
    type V = UserView;

    closed spec fn view(&self) -> UserView {
        self.user@
    }
}

impl SessionContext {
    /// A fresh, anonymous context.
    pub fn new() -> (c: SessionContext)
        ensures
            is_anonymous_user(c@),
            c@ =~= anonymous_user(),
    {
        SessionContext { user: UserInfo::anonymous() }
    }

    /// Overwrite the current user.
    pub fn login(&mut self, user: UserInfo)
        ensures
            final(self)@ == user@,
    {
        self.user = user;
    }

    /// Read the current user.
    pub fn current(&self) -> (u: &UserInfo)
        ensures
            u@ == self@,
    {
        &self.user
    }

    /// Whether the context holds the anonymous user.
    pub fn is_anonymous(&self) -> (b: bool)
        ensures
            b == is_anonymous_user(self@),
    {
        self.user.id == 0 && self.user.name.as_str().is_empty()
            && self.user.email.as_str().is_empty() && self.user.token.as_str().is_empty()
    }

    /// The logout step: already-anonymous with no stored token is a no-op;
    /// otherwise the context resets to anonymous, the store is cleared, and
    /// the commands clear durable storage strictly before navigating, so a
    /// reload mid-transition never resurrects a stale session.
    pub open spec fn spec_logout(user: UserView, stored: Option<Seq<char>>) -> (
        UserView,
        Option<Seq<char>>,
        Seq<Command>,
    ) {
        if is_anonymous_user(user) && stored is None {
            (user, stored, Seq::<Command>::empty())
        } else {
            (
                anonymous_user(),
                None,
                seq![Command::PersistToken, Command::NavigateToLogin],
            )
        }
    }

    /// End the session: reset to anonymous, clear the stored token, then
    /// navigate to login — in that order.  A logout while already anonymous
    /// is a no-op, not an error.
    pub fn logout(&mut self, store: &mut TokenStore) -> (cmds: Vec<Command>)
        ensures
            ({
                let (u2, s2, cs) = Self::spec_logout(old(self)@, old(store).stored_chars());
                &&& final(self)@ =~= u2
                &&& final(store).stored_chars() == s2
                &&& cmds@ =~= cs
            }),
            is_anonymous_user(final(self)@),
            final(store).stored() is None,
    {
        if self.is_anonymous() && !store.has_token() {
            Vec::new()
        } else {
            self.user = UserInfo::anonymous();
            store.set(None);
            let mut cmds: Vec<Command> = Vec::new();
            cmds.push(Command::PersistToken);
            cmds.push(Command::NavigateToLogin);
            cmds
        }
    }
}

/// Law: logging out twice in succession leaves exactly the end state of
/// logging out once, and the second logout performs nothing.
pub proof fn lemma_logout_idempotent(user: UserView, stored: Option<Seq<char>>)
    ensures
        ({
            let (u1, s1, c1) = SessionContext::spec_logout(user, stored);
            let (u2, s2, c2) = SessionContext::spec_logout(u1, s1);
            &&& u2 == u1
            &&& s2 == s1
            &&& c2 =~= Seq::<Command>::empty()
        }),
{
}

} // verus!
