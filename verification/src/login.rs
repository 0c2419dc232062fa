//! The login flow: form state, one submission task, and the effects of the
//! outcome on the session.

use crate::async_task::AsyncTask;
use crate::async_task::TaskState;
use crate::classify::Classification;
use crate::classify::Role;
use crate::classify::classify;
use crate::classify::spec_classify;
use crate::command::Command;
use crate::error::AppError;
use crate::model::LoginInfo;
use crate::model::UserInfo;
use crate::session::SessionContext;
use crate::token_store::TokenStore;
use vstd::prelude::*;

verus! {

/// One user-facing login: a [`LoginInfo`] built field by field, and the
/// task wrapping the request.  A successful login writes the user into the
/// session context and the token into the store; a failure is classified —
/// an unknown account surfaces as a field error, nothing navigates.
pub struct LoginFlow {
    info: LoginInfo,
    task: AsyncTask<UserInfo>,
}

impl LoginFlow {
    /// The form as currently edited.
    pub closed spec fn form(&self) -> LoginInfo {
        self.info
    }

    /// The state of the login request.
    pub closed spec fn task_state(&self) -> TaskState<UserInfo> {
        self.task@
    }

    /// A fresh flow: empty form, no request yet.
    pub fn new() -> (f: LoginFlow)
        ensures
            f.form().email@.len() == 0,
            f.form().password@.len() == 0,
            f.task_state() is Idle,
    {
        LoginFlow { info: LoginInfo::new(), task: AsyncTask::new() }
    }

    /// Edit the email field.
    pub fn set_email(&mut self, email: String)
        ensures
            final(self).form().email == email,
            final(self).form().password == old(self).form().password,
            final(self).task_state() == old(self).task_state(),
    {
        self.info.email = email;
    }

    /// Edit the password field.
    pub fn set_password(&mut self, password: String)
        ensures
            final(self).form().password == password,
            final(self).form().email == old(self).form().email,
            final(self).task_state() == old(self).task_state(),
    {
        self.info.password = password;
    }

    /// The form, for rendering.
    pub fn form_data(&self) -> (f: &LoginInfo)
        ensures
            *f == self.form(),
    {
        &self.info
    }

    /// Whether the login request is in flight.
    pub fn loading(&self) -> (b: bool)
        ensures
            b == (self.task_state() is Loading),
    {
        self.task.loading()
    }

    /// Submit the form.  While a request is in flight the submission is
    /// ignored — a double submit never launches a second request; otherwise
    /// a fresh copy of the form goes out.
    pub fn submit(&mut self) -> (cmds: Vec<Command>)
        ensures
            old(self).task_state() is Loading ==> *final(self) == *old(self) && cmds@
                =~= Seq::<Command>::empty(),
            !(old(self).task_state() is Loading) ==> {
                &&& final(self).task_state() is Loading
                &&& final(self).form() == old(self).form()
                &&& cmds@ =~= seq![Command::SubmitLogin(old(self).form())]
            },
    {
        if self.task.loading() {
            Vec::new()
        } else {
            let _ = self.task.trigger();
            let mut cmds: Vec<Command> = Vec::new();
            cmds.push(Command::SubmitLogin(self.info.snapshot()));
            cmds
        }
    }

    /// Apply a successful login: the user enters the session context and the
    /// session token enters the store, whose new value is persisted.
    pub fn on_success(
        &mut self,
        ctx: &mut SessionContext,
        store: &mut TokenStore,
        user: UserInfo,
    ) -> (cmds: Vec<Command>)
        requires
            old(self).task_state() is Loading,
        ensures
            final(ctx)@ == user@,
            final(store).stored() == Some(user.token),
            final(self).task_state() == TaskState::Success(user),
            final(self).form() == old(self).form(),
            cmds@ =~= seq![Command::PersistToken],
    {
        store.set(Some(user.token.clone()));
        let copy = user.snapshot();
        self.task.complete(Ok(copy));
        ctx.login(user);
        let mut cmds: Vec<Command> = Vec::new();
        cmds.push(Command::PersistToken);
        cmds
    }

    /// Record a failed login and classify it in the login role: `NotFound`
    /// (no matching account — a password mismatch reports the same way) is a
    /// field error; anything else renders generically.  The session context
    /// and token store are untouched and nothing navigates.
    pub fn on_error(&mut self, err: AppError) -> (c: Classification)
        requires
            old(self).task_state() is Loading,
        ensures
            c == spec_classify(Role::Login, err@),
            final(self).task_state() == TaskState::<UserInfo>::Error(err),
            final(self).form() == old(self).form(),
    {
        let c = classify(Role::Login, &err);
        self.task.complete(Err(err));
        c
    }

    /// The error of a failed login, for display.
    pub fn error(&self) -> (e: Option<&AppError>)
        ensures
            match self.task_state() {
                TaskState::Error(err) => e matches Some(p) && *p == err,
                _ => e is None,
            },
    {
        self.task.error()
    }
}

} // verus!
