//! Registration through a confirmation link: the link id is resolved first,
//! the resolved email and id seed the form read-only, and a failed
//! resolution suppresses the form entirely — an unconfirmed registration can
//! never be submitted.

use crate::async_task::AsyncTask;
use crate::async_task::TaskState;
use crate::classify::Classification;
use crate::classify::Role;
use crate::classify::classify;
use crate::classify::spec_classify;
use crate::command::Command;
use crate::confirmation::ConfirmationLinkFlow;
use crate::error::AppError;
use crate::model::ConfirmationLink;
use crate::model::RegisterInfo;
use crate::model::UserInfo;
use crate::session::SessionContext;
use crate::text::trim;
use crate::text::trimmed;
use crate::token_store::TokenStore;
use vstd::prelude::*;

verus! {

/// The magic-link registration: one [`ConfirmationLinkFlow`] resolving the
/// link, one registration form whose email and confirmation id come from
/// the resolved link and are immutable in the form — only name and password
/// are editable — and the task wrapping the registration request.  Success
/// logs the new user in, as a plain registration would.
pub struct RegisterWithConfirmationFlow {
    lookup: ConfirmationLinkFlow,
    info: RegisterInfo,
    task: AsyncTask<UserInfo>,
}

impl RegisterWithConfirmationFlow {
    /// The form as currently seeded and edited.
    pub closed spec fn form(&self) -> RegisterInfo {
        self.info
    }

    /// The state of the link resolution.
    pub closed spec fn lookup_outcome(&self) -> TaskState<ConfirmationLink> {
        self.lookup.outcome()
    }

    /// The state of the registration request.
    pub closed spec fn task_state(&self) -> TaskState<UserInfo> {
        self.task@
    }

    /// The id the flow was mounted with.
    pub closed spec fn link_id(&self) -> String {
        self.lookup.link_id()
    }

    /// A fresh flow for the given link id: empty form, nothing resolved.
    pub fn new(id: String) -> (f: RegisterWithConfirmationFlow)
        ensures
            f.link_id() == id,
            f.lookup_outcome() is Idle,
            f.task_state() is Idle,
            f.form().name@.len() == 0,
            f.form().email@.len() == 0,
            f.form().password@.len() == 0,
            f.form().confirmation_id@.len() == 0,
    {
        RegisterWithConfirmationFlow {
            lookup: ConfirmationLinkFlow::new(id),
            info: RegisterInfo::new(),
            task: AsyncTask::new(),
        }
    }

    /// Start resolving the link — run once on mount.
    pub fn start(&mut self) -> (cmds: Vec<Command>)
        requires
            old(self).lookup_outcome() is Idle,
        ensures
            final(self).lookup_outcome() is Loading,
            final(self).form() == old(self).form(),
            final(self).task_state() == old(self).task_state(),
            cmds@ =~= seq![Command::LookupConfirmation(old(self).link_id())],
    {
        self.lookup.resolve()
    }

    /// Seed the form from the resolved link: its email and id enter the
    /// form and stay read-only there; name and password are untouched.
    pub fn on_link_resolved(&mut self, link: ConfirmationLink)
        requires
            old(self).lookup_outcome() is Loading,
        ensures
            final(self).lookup_outcome() == TaskState::Success(link),
            final(self).form().email == link.email,
            final(self).form().confirmation_id == link.id,
            final(self).form().name == old(self).form().name,
            final(self).form().password == old(self).form().password,
            final(self).task_state() == old(self).task_state(),
            Self::spec_submittable(final(self).lookup_outcome()),
    {
        self.info.email = link.email.clone();
        self.info.confirmation_id = link.id.clone();
        self.lookup.on_success(link);
    }

    /// Record a failed resolution: `NotFound` classifies as an invalid link,
    /// the form is suppressed, and nothing can be submitted any more.
    pub fn on_link_error(&mut self, err: AppError) -> (c: Classification)
        requires
            old(self).lookup_outcome() is Loading,
        ensures
            c == spec_classify(Role::ConfirmationLookup, err@),
            final(self).lookup_outcome() == TaskState::<ConfirmationLink>::Error(err),
            final(self).form() == old(self).form(),
            final(self).task_state() == old(self).task_state(),
            !Self::spec_submittable(final(self).lookup_outcome()),
    {
        self.lookup.on_error(err)
    }

    /// Whether the form may be rendered at all: a pure function of the
    /// link-resolution outcome, false exactly when the lookup failed.
    pub open spec fn spec_submittable(outcome: TaskState<ConfirmationLink>) -> bool {
        ConfirmationLinkFlow::spec_form_visible(outcome)
    }

    /// Whether the form is rendered.
    pub fn form_visible(&self) -> (b: bool)
        ensures
            b == Self::spec_submittable(self.lookup_outcome()),
    {
        self.lookup.form_visible()
    }

    /// Edit the name field; surrounding whitespace is stripped from the
    /// input, so the form never holds a name with leading or trailing
    /// whitespace.
    pub fn set_name(&mut self, name: String)
        ensures
            final(self).form().name@ == trimmed(name@),
            final(self).form().email == old(self).form().email,
            final(self).form().password == old(self).form().password,
            final(self).form().confirmation_id == old(self).form().confirmation_id,
            final(self).task_state() == old(self).task_state(),
            final(self).lookup_outcome() == old(self).lookup_outcome(),
    {
        self.info.name = trim(name.as_str());
    }

    /// Edit the password field.
    pub fn set_password(&mut self, password: String)
        ensures
            final(self).form() == (RegisterInfo { password, ..old(self).form() }),
            final(self).task_state() == old(self).task_state(),
            final(self).lookup_outcome() == old(self).lookup_outcome(),
    {
        self.info.password = password;
    }

    /// The form, for rendering.
    pub fn form_data(&self) -> (f: &RegisterInfo)
        ensures
            *f == self.form(),
    {
        &self.info
    }

    /// Submit the form.  Blocked entirely while the link resolution has
    /// failed — a failed lookup never lets a registration out — and ignored
    /// while a registration request is already in flight.
    pub fn submit(&mut self) -> (cmds: Vec<Command>)
        ensures
            !Self::spec_submittable(old(self).lookup_outcome()) ==> *final(self) == *old(self)
                && cmds@ =~= Seq::<Command>::empty(),
            old(self).task_state() is Loading ==> *final(self) == *old(self) && cmds@
                =~= Seq::<Command>::empty(),
            Self::spec_submittable(old(self).lookup_outcome()) && !(old(self).task_state()
                is Loading) ==> {
                &&& final(self).task_state() is Loading
                &&& final(self).form() == old(self).form()
                &&& final(self).lookup_outcome() == old(self).lookup_outcome()
                &&& cmds@ =~= seq![Command::SubmitRegistration(old(self).form())]
            },
    {
        if !self.form_visible() {
            Vec::new()
        } else if self.task.loading() {
            Vec::new()
        } else {
            let _ = self.task.trigger();
            let mut cmds: Vec<Command> = Vec::new();
            cmds.push(Command::SubmitRegistration(self.info.snapshot()));
            cmds
        }
    }

    /// Apply a successful registration: the new user is logged in — written
    /// into the session context, the token into the store, and the store's
    /// new value persisted.
    pub fn on_success(
        &mut self,
        ctx: &mut SessionContext,
        store: &mut TokenStore,
        user: UserInfo,
    ) -> (cmds: Vec<Command>)
        requires
            old(self).task_state() is Loading,
        ensures
            final(ctx)@ == user@,
            final(store).stored() == Some(user.token),
            final(self).task_state() == TaskState::Success(user),
            final(self).form() == old(self).form(),
            final(self).lookup_outcome() == old(self).lookup_outcome(),
            cmds@ =~= seq![Command::PersistToken],
    {
        store.set(Some(user.token.clone()));
        let copy = user.snapshot();
        self.task.complete(Ok(copy));
        ctx.login(user);
        let mut cmds: Vec<Command> = Vec::new();
        cmds.push(Command::PersistToken);
        cmds
    }

    /// Record a failed registration and classify it in the register role.
    /// The session context and token store are untouched.
    pub fn on_error(&mut self, err: AppError) -> (c: Classification)
        requires
            old(self).task_state() is Loading,
        ensures
            c == spec_classify(Role::Register, err@),
            final(self).task_state() == TaskState::<UserInfo>::Error(err),
            final(self).form() == old(self).form(),
            final(self).lookup_outcome() == old(self).lookup_outcome(),
    {
        let c = classify(Role::Register, &err);
        self.task.complete(Err(err));
        c
    }
}

} // verus!
