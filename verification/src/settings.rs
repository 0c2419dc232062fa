//! The settings flow: editing the profile name and the password, with the
//! guarantee that nothing goes over the network unless it would change
//! something.

use crate::async_task::AsyncTask;
use crate::async_task::TaskState;
use crate::classify::Classification;
use crate::classify::Role;
use crate::classify::classify;
use crate::classify::spec_classify;
use crate::command::Command;
use crate::error::AppError;
use crate::model::UpdateUser;
use crate::model::UserInfo;
use crate::session::SessionContext;
use vstd::prelude::*;

verus! {

/// The settings page's state: the profile form seeded from the session
/// context, the pending new password, whether the page is in editing mode,
/// and one task per update request.  A submission sends the profile update
/// only when the name is non-empty and differs from the current session
/// name, and the password update only when a new password was entered.
pub struct SettingsFlow {
    info: UpdateUser,
    password: String,
    editing: bool,
    update_user: AsyncTask<UserInfo>,
    update_password: AsyncTask<()>,
}

impl SettingsFlow {
    /// The profile form as currently edited.
    pub closed spec fn form(&self) -> UpdateUser {
        self.info
    }

    /// The pending new password; empty means none.
    pub closed spec fn pending_password(&self) -> String {
        self.password
    }

    /// Whether the page is in editing mode.
    pub closed spec fn is_editing(&self) -> bool {
        self.editing
    }

    /// The state of the profile-update request.
    pub closed spec fn profile_task(&self) -> TaskState<UserInfo> {
        self.update_user@
    }

    /// The state of the password-update request.
    pub closed spec fn password_task(&self) -> TaskState<()> {
        self.update_password@
    }

    /// Whether a submission from this state sends the profile update: the
    /// edited name is non-empty, differs from the current session name, and
    /// no profile update is already in flight.
    pub open spec fn spec_sends_profile(&self, ctx: SessionContext) -> bool {
        &&& self.form().name@.len() > 0
        &&& self.form().name@ != ctx@.name
        &&& !(self.profile_task() is Loading)
    }

    /// Whether a submission from this state sends the password update: a
    /// new password was entered and none is already in flight.
    pub open spec fn spec_sends_password(&self) -> bool {
        self.pending_password()@.len() > 0 && !(self.password_task() is Loading)
    }

    /// A fresh flow, its name seeded from the session context, not editing.
    pub fn new(ctx: &SessionContext) -> (f: SettingsFlow)
        ensures
            f.form().name@ == ctx@.name,
            f.pending_password()@.len() == 0,
            !f.is_editing(),
            f.profile_task() is Idle,
            f.password_task() is Idle,
    {
        SettingsFlow {
            info: UpdateUser::new(&ctx.current().name),
            password: String::new(),
            editing: false,
            update_user: AsyncTask::new(),
            update_password: AsyncTask::new(),
        }
    }

    /// Re-seed the name from the session context, as when the context value
    /// changes under the page.
    pub fn sync_with_context(&mut self, ctx: &SessionContext)
        ensures
            final(self).form().name@ == ctx@.name,
            final(self).pending_password() == old(self).pending_password(),
            final(self).is_editing() == old(self).is_editing(),
            final(self).profile_task() == old(self).profile_task(),
            final(self).password_task() == old(self).password_task(),
    {
        self.info = UpdateUser::new(&ctx.current().name);
    }

    /// Edit the name field.
    pub fn set_name(&mut self, name: String)
        ensures
            final(self).form().name == name,
            final(self).pending_password() == old(self).pending_password(),
            final(self).is_editing() == old(self).is_editing(),
            final(self).profile_task() == old(self).profile_task(),
            final(self).password_task() == old(self).password_task(),
    {
        self.info.name = name;
    }

    /// Edit the new-password field.
    pub fn set_password(&mut self, password: String)
        ensures
            final(self).pending_password() == password,
            final(self).form() == old(self).form(),
            final(self).is_editing() == old(self).is_editing(),
            final(self).profile_task() == old(self).profile_task(),
            final(self).password_task() == old(self).password_task(),
    {
        self.password = password;
    }

    /// Enter or leave editing mode.
    pub fn toggle_editing(&mut self)
        ensures
            final(self).is_editing() == !old(self).is_editing(),
            final(self).form() == old(self).form(),
            final(self).pending_password() == old(self).pending_password(),
            final(self).profile_task() == old(self).profile_task(),
            final(self).password_task() == old(self).password_task(),
    {
        self.editing = !self.editing;
    }

    /// Abandon the edits: the name goes back to the session context's, the
    /// pending password is dropped, and editing mode flips.
    pub fn cancel(&mut self, ctx: &SessionContext)
        ensures
            final(self).form().name@ == ctx@.name,
            final(self).pending_password()@.len() == 0,
            final(self).is_editing() == !old(self).is_editing(),
            final(self).profile_task() == old(self).profile_task(),
            final(self).password_task() == old(self).password_task(),
    {
        self.info = UpdateUser::new(&ctx.current().name);
        self.password = String::new();
        self.editing = !self.editing;
    }

    /// The profile form, for rendering.
    pub fn form_data(&self) -> (f: &UpdateUser)
        ensures
            *f == self.form(),
    {
        &self.info
    }

    /// Whether the page is in editing mode.
    pub fn editing_now(&self) -> (b: bool)
        ensures
            b == self.is_editing(),
    {
        self.editing
    }

    /// Whether either update request is in flight.
    pub fn loading(&self) -> (b: bool)
        ensures
            b == (self.profile_task() is Loading || self.password_task() is Loading),
    {
        self.update_user.loading() || self.update_password.loading()
    }

    /// Submit the page.  The profile update goes out only when the name is
    /// non-empty and actually differs from the current session name — an
    /// empty or unchanged name issues no network call — and the password
    /// update only when a new password was entered; in-flight requests are
    /// never doubled.  Editing mode flips either way.
    pub fn submit(&mut self, ctx: &SessionContext) -> (cmds: Vec<Command>)
        ensures
            cmds@ =~= (if old(self).spec_sends_profile(*ctx) {
                seq![Command::SubmitProfileUpdate(old(self).form())]
            } else {
                Seq::<Command>::empty()
            }) + (if old(self).spec_sends_password() {
                seq![Command::SubmitPasswordUpdate(old(self).pending_password())]
            } else {
                Seq::<Command>::empty()
            }),
            (old(self).form().name@ == ctx@.name || old(self).form().name@.len() == 0)
                ==> (forall|i: int|
                0 <= i < cmds@.len() ==> !(cmds@[i] is SubmitProfileUpdate)),
            final(self).is_editing() == !old(self).is_editing(),
            final(self).form() == old(self).form(),
            final(self).pending_password() == old(self).pending_password(),
            final(self).profile_task() == (if old(self).spec_sends_profile(*ctx) {
                TaskState::<UserInfo>::Loading
            } else {
                old(self).profile_task()
            }),
            final(self).password_task() == (if old(self).spec_sends_password() {
                TaskState::<()>::Loading
            } else {
                old(self).password_task()
            }),
    {
        let mut cmds: Vec<Command> = Vec::new();
        let name_given = !self.info.name.as_str().is_empty();
        let name_changed = !(self.info.name == ctx.current().name);
        if name_given && name_changed && !self.update_user.loading() {
            let _ = self.update_user.trigger();
            cmds.push(Command::SubmitProfileUpdate(UpdateUser::new(&self.info.name)));
        }
        if !self.password.as_str().is_empty() && !self.update_password.loading() {
            let _ = self.update_password.trigger();
            cmds.push(Command::SubmitPasswordUpdate(self.password.clone()));
        }
        self.editing = !self.editing;
        cmds
    }

    /// Apply a successful profile update: the session context takes the
    /// returned user.
    pub fn on_profile_success(&mut self, ctx: &mut SessionContext, user: UserInfo)
        requires
            old(self).profile_task() is Loading,
        ensures
            final(ctx)@ == user@,
            final(self).profile_task() == TaskState::Success(user),
            final(self).form() == old(self).form(),
            final(self).pending_password() == old(self).pending_password(),
            final(self).is_editing() == old(self).is_editing(),
            final(self).password_task() == old(self).password_task(),
    {
        let copy = user.snapshot();
        self.update_user.complete(Ok(copy));
        ctx.login(user);
    }

    /// Record a failed profile update; it renders generically and touches
    /// neither the session context nor the token store.
    pub fn on_profile_error(&mut self, err: AppError) -> (c: Classification)
        requires
            old(self).profile_task() is Loading,
        ensures
            c == spec_classify(Role::ProfileUpdate, err@),
            final(self).profile_task() == TaskState::<UserInfo>::Error(err),
            final(self).form() == old(self).form(),
            final(self).pending_password() == old(self).pending_password(),
            final(self).is_editing() == old(self).is_editing(),
            final(self).password_task() == old(self).password_task(),
    {
        let c = classify(Role::ProfileUpdate, &err);
        self.update_user.complete(Err(err));
        c
    }

    /// Apply a successful password update; the password is not held in
    /// session state, so nothing else changes.
    pub fn on_password_success(&mut self)
        requires
            old(self).password_task() is Loading,
        ensures
            final(self).password_task() == TaskState::<()>::Success(()),
            final(self).form() == old(self).form(),
            final(self).pending_password() == old(self).pending_password(),
            final(self).is_editing() == old(self).is_editing(),
            final(self).profile_task() == old(self).profile_task(),
    {
        self.update_password.complete(Ok(()));
    }

    /// Record a failed password update; it renders generically.
    pub fn on_password_error(&mut self, err: AppError) -> (c: Classification)
        requires
            old(self).password_task() is Loading,
        ensures
            c == spec_classify(Role::ProfileUpdate, err@),
            final(self).password_task() == TaskState::<()>::Error(err),
            final(self).form() == old(self).form(),
            final(self).pending_password() == old(self).pending_password(),
            final(self).is_editing() == old(self).is_editing(),
            final(self).profile_task() == old(self).profile_task(),
    {
        let c = classify(Role::ProfileUpdate, &err);
        self.update_password.complete(Err(err));
        c
    }
}

} // verus!
