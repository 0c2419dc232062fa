//! The registration flow: form state, one submission task, auto-login on
//! success.

use crate::async_task::AsyncTask;
use crate::async_task::TaskState;
use crate::classify::Classification;
use crate::classify::Role;
use crate::classify::classify;
use crate::classify::spec_classify;
use crate::command::Command;
use crate::error::AppError;
use crate::model::RegisterInfo;
use crate::model::UserInfo;
use crate::session::SessionContext;
use crate::token_store::TokenStore;
use vstd::prelude::*;

verus! {

/// One user-facing registration: a [`RegisterInfo`] built field by field,
/// and the task wrapping the request.  A successful registration logs the
/// new user in, exactly as a login would; a duplicate email surfaces as a
/// duplicate-entity conflict.
pub struct RegisterFlow {
    info: RegisterInfo,
    task: AsyncTask<UserInfo>,
}

impl RegisterFlow {
    /// The form as currently edited.
    pub closed spec fn form(&self) -> RegisterInfo {
        self.info
    }

    /// The state of the registration request.
    pub closed spec fn task_state(&self) -> TaskState<UserInfo> {
        self.task@
    }

    /// A fresh flow: empty form, no request yet.
    pub fn new() -> (f: RegisterFlow)
        ensures
            f.form().name@.len() == 0,
            f.form().email@.len() == 0,
            f.form().password@.len() == 0,
            f.form().confirmation_id@.len() == 0,
            f.task_state() is Idle,
    {
        RegisterFlow { info: RegisterInfo::new(), task: AsyncTask::new() }
    }

    /// Edit the name field.
    pub fn set_name(&mut self, name: String)
        ensures
            final(self).form() == (RegisterInfo { name, ..old(self).form() }),
            final(self).task_state() == old(self).task_state(),
    {
        self.info.name = name;
    }

    /// Edit the email field.
    pub fn set_email(&mut self, email: String)
        ensures
            final(self).form() == (RegisterInfo { email, ..old(self).form() }),
            final(self).task_state() == old(self).task_state(),
    {
        self.info.email = email;
    }

    /// Edit the password field.
    pub fn set_password(&mut self, password: String)
        ensures
            final(self).form() == (RegisterInfo { password, ..old(self).form() }),
            final(self).task_state() == old(self).task_state(),
    {
        self.info.password = password;
    }

    /// The form, for rendering.
    pub fn form_data(&self) -> (f: &RegisterInfo)
        ensures
            *f == self.form(),
    {
        &self.info
    }

    /// Whether the registration request is in flight.
    pub fn loading(&self) -> (b: bool)
        ensures
            b == (self.task_state() is Loading),
    {
        self.task.loading()
    }

    /// Submit the form.  While a request is in flight the submission is
    /// ignored — a double submit never launches a second request; otherwise
    /// a fresh copy of the form goes out.
    pub fn submit(&mut self) -> (cmds: Vec<Command>)
        ensures
            old(self).task_state() is Loading ==> *final(self) == *old(self) && cmds@
                =~= Seq::<Command>::empty(),
            !(old(self).task_state() is Loading) ==> {
                &&& final(self).task_state() is Loading
                &&& final(self).form() == old(self).form()
                &&& cmds@ =~= seq![Command::SubmitRegistration(old(self).form())]
            },
    {
        if self.task.loading() {
            Vec::new()
        } else {
            let _ = self.task.trigger();
            let mut cmds: Vec<Command> = Vec::new();
            cmds.push(Command::SubmitRegistration(self.info.snapshot()));
            cmds
        }
    }

    /// Apply a successful registration: the new user is logged in — written
    /// into the session context, the token into the store, and the store's
    /// new value persisted.
    pub fn on_success(
        &mut self,
        ctx: &mut SessionContext,
        store: &mut TokenStore,
        user: UserInfo,
    ) -> (cmds: Vec<Command>)
        requires
            old(self).task_state() is Loading,
        ensures
            final(ctx)@ == user@,
            final(store).stored() == Some(user.token),
            final(self).task_state() == TaskState::Success(user),
            final(self).form() == old(self).form(),
            cmds@ =~= seq![Command::PersistToken],
    {
        store.set(Some(user.token.clone()));
        let copy = user.snapshot();
        self.task.complete(Ok(copy));
        ctx.login(user);
        let mut cmds: Vec<Command> = Vec::new();
        cmds.push(Command::PersistToken);
        cmds
    }

    /// Record a failed registration and classify it in the register role: an
    /// unprocessable entity whose message list carries the duplicate marker
    /// is a duplicate entity; anything else renders generically.  The
    /// session context and token store are untouched.
    pub fn on_error(&mut self, err: AppError) -> (c: Classification)
        requires
            old(self).task_state() is Loading,
        ensures
            c == spec_classify(Role::Register, err@),
            final(self).task_state() == TaskState::<UserInfo>::Error(err),
            final(self).form() == old(self).form(),
    {
        let c = classify(Role::Register, &err);
        self.task.complete(Err(err));
        c
    }

    /// The error of a failed registration, for display.
    pub fn error(&self) -> (e: Option<&AppError>)
        ensures
            match self.task_state() {
                TaskState::Error(err) => e matches Some(p) && *p == err,
                _ => e is None,
            },
    {
        self.task.error()
    }
}

} // verus!
