//! Classification of failed calls into recovery actions.

use crate::error::AppError;
use crate::error::AppErrorView;
use vstd::prelude::*;
use vstd::string::StrSliceExecFns;

verus! {

/// The semantic role of the call that failed.
#[derive(Clone, Copy, Debug, PartialEq, Eq, Structural)]
pub enum Role {
    /// The bootstrap fetch of the current user.
    SessionFetch,
    /// A login attempt.
    Login,
    /// A registration attempt, with or without a confirmation link.
    Register,
    /// A profile or password update.
    ProfileUpdate,
    /// The lookup of a confirmation link id.
    ConfirmationLookup,
}

/// The closed set of recovery actions a failed call maps to.  Localized
/// message text is the presentation layer's affair; the variants carry the
/// decision only, and the raw message list stays readable on the failed task.
#[derive(Clone, Copy, Debug, PartialEq, Eq, Structural)]
pub enum Classification {
    /// The token is stale or invalid: clear the store, then navigate to login.
    ClearSessionAndRedirect,
    /// The token could not be validated: navigate to login, keep the token.
    RedirectOnly,
    /// No account matches the submitted email: surface it at the field.
    FieldError,
    /// The entity already exists: surface the conflict.
    DuplicateEntity,
    /// The confirmation link is invalid or expired.
    InvalidLink,
    /// Anything unmatched: display the raw error list.
    Generic,
}

/// The suffix by which the server marks a duplicate-entity message.
pub open spec fn duplicate_marker() -> Seq<char> {
    "already exists."@
}

/// Whether `s` ends with `suffix`.
pub open spec fn ends_with(s: Seq<char>, suffix: Seq<char>) -> bool {
    s.len() >= suffix.len() && forall|j: int|
        0 <= j < suffix.len() ==> s[s.len() - suffix.len() + j] == suffix[j]
}

/// Whether some message of the list carries the duplicate marker.
pub open spec fn has_duplicate_marker(msgs: Seq<Seq<char>>) -> bool {
    exists|i: int| 0 <= i < msgs.len() && ends_with(msgs[i], duplicate_marker())
}

/// What a failed call's role and kind amount to:
/// - a failed session fetch clears the session on `Unauthorized`/`Forbidden`
///   (the token is stale) and otherwise only redirects;
/// - a login rejected with `NotFound` is a field error;
/// - a registration rejected as unprocessable with a message ending in the
///   duplicate marker is a duplicate entity;
/// - a confirmation lookup answered `NotFound` is an invalid link;
/// - everything else is generic.
pub open spec fn spec_classify(role: Role, err: AppErrorView) -> Classification {
    match role {
        Role::SessionFetch => if err is Unauthorized || err is Forbidden {
            Classification::ClearSessionAndRedirect
        } else {
            Classification::RedirectOnly
        },
        Role::Login => if err is NotFound {
            Classification::FieldError
        } else {
            Classification::Generic
        },
        Role::Register => if err matches AppErrorView::UnprocessableEntity(msgs)
            && has_duplicate_marker(msgs) {
            Classification::DuplicateEntity
        } else {
            Classification::Generic
        },
        Role::ProfileUpdate => Classification::Generic,
        Role::ConfirmationLookup => if err is NotFound {
            Classification::InvalidLink
        } else {
            Classification::Generic
        },
    }
}

/// Whether `s` ends with `suffix`, by characters.
fn str_ends_with(s: &str, suffix: &str) -> (b: bool)
    ensures
        b == ends_with(s@, suffix@),
{
    let n: usize = s.unicode_len();
    let m: usize = suffix.unicode_len();
    if m > n {
        return false;
    }
    let mut i: usize = 0;
    while i < m
        invariant
            m <= n,
            n == s@.len(),
            m == suffix@.len(),
            i <= m,
            forall|j: int| 0 <= j < i ==> s@[n - m + j] == suffix@[j],
        decreases m - i,
    {
        if s.get_char(n - m + i) != suffix.get_char(i) {
            return false;
        }
        i += 1;
    }
    true
}

/// Whether some message of the list ends with the duplicate marker.
fn has_marker(msgs: &Vec<String>) -> (b: bool)
    ensures
        b == has_duplicate_marker(msgs.deep_view()),
{
    let ghost model = msgs.deep_view();
    let mut i: usize = 0;
    while i < msgs.len()
        invariant
            i <= msgs@.len(),
            model == msgs.deep_view(),
            forall|k: int| 0 <= k < msgs@.len() ==> model[k] == msgs@[k]@,
            forall|k: int| 0 <= k < i ==> !ends_with(model[k], duplicate_marker()),
        decreases msgs@.len() - i,
    {
        if str_ends_with(msgs[i].as_str(), "already exists.") {
            assert(ends_with(model[i as int], duplicate_marker()));
            return true;
        }
        i += 1;
    }
    false
}

/// Map a failed call's semantic role and error kind to the recovery action.
/// A pure function of its two arguments; no hidden state.
pub fn classify(role: Role, err: &AppError) -> (c: Classification)
    ensures
        c == spec_classify(role, err@),
{
    match role {
        Role::SessionFetch => match err {
            AppError::Unauthorized | AppError::Forbidden => Classification::ClearSessionAndRedirect,
            _ => Classification::RedirectOnly,
        },
        Role::Login => match err {
            AppError::NotFound => Classification::FieldError,
            _ => Classification::Generic,
        },
        Role::Register => match err {
            AppError::UnprocessableEntity(msgs) => if has_marker(msgs) {
                Classification::DuplicateEntity
            } else {
                Classification::Generic
            },
            _ => Classification::Generic,
        },
        Role::ProfileUpdate => Classification::Generic,
        Role::ConfirmationLookup => match err {
            AppError::NotFound => Classification::InvalidLink,
            _ => Classification::Generic,
        },
    }
}

} // verus!
