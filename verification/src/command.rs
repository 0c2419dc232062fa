//! The externally visible effects of a transition.

use crate::model::LoginInfo;
use crate::model::RegisterInfo;
use crate::model::SendConfirmationLink;
use crate::model::UpdateUser;
use vstd::prelude::*;

verus! {

/// One effect for the unverified shell to carry out, in list order: a storage
/// write-through, a navigation, or a network request.  The shell performs the
/// command and hands the outcome back to the flow that emitted it.
#[derive(Clone, Debug, PartialEq, Eq)]
pub enum Command {
    /// Write the token store's current value through to durable storage.
    PersistToken,
    /// Navigate to the login page.
    NavigateToLogin,
    /// Issue the authenticated current-user request; the token is read from
    /// the token store.
    FetchCurrentUser,
    /// Send the login request.
    SubmitLogin(LoginInfo),
    /// Send the registration request.
    SubmitRegistration(RegisterInfo),
    /// Ask the server to mail a confirmation link.
    RequestConfirmationLink(SendConfirmationLink),
    /// Look up the details behind a confirmation link id.
    LookupConfirmation(String),
    /// Send the profile update.
    SubmitProfileUpdate(UpdateUser),
    /// Send the password update.
    SubmitPasswordUpdate(String),
}

/// How many commands of a list navigate to the login page.
pub open spec fn count_navigations(cs: Seq<Command>) -> nat
    decreases cs.len(),
{
    if cs.len() == 0 {
        0
    } else {
        count_navigations(cs.drop_last()) + if cs.last() is NavigateToLogin {
            1nat
        } else {
            0nat
        }
    }
}

/// How many commands of a list issue the current-user request.
pub open spec fn count_fetches(cs: Seq<Command>) -> nat
    decreases cs.len(),
{
    if cs.len() == 0 {
        0
    } else {
        count_fetches(cs.drop_last()) + if cs.last() is FetchCurrentUser {
            1nat
        } else {
            0nat
        }
    }
}

} // verus!
