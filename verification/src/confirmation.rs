//! The confirmation-link flows: resolving an opaque link id to the email and
//! registration id it encodes, and asking the server to mail such a link.

use crate::async_task::AsyncTask;
use crate::async_task::TaskState;
use crate::classify::Classification;
use crate::classify::Role;
use crate::classify::classify;
use crate::classify::spec_classify;
use crate::command::Command;
use crate::error::AppError;
use crate::model::ConfirmationLink;
use crate::model::ConfirmationType;
use crate::model::SendConfirmationLink;
use vstd::prelude::*;

verus! {

/// Resolution of one opaque confirmation id, triggered once on mount.  On
/// success the resolved link seeds a registration form; a `NotFound` answer
/// classifies as an invalid link, and whether a form may be rendered at all
/// is a pure function of the resolution outcome.
pub struct ConfirmationLinkFlow {
    id: String,
    task: AsyncTask<ConfirmationLink>,
}

impl ConfirmationLinkFlow {
    /// The id being resolved.
    pub closed spec fn link_id(&self) -> String {
        self.id
    }

    /// The state of the lookup.
    pub closed spec fn outcome(&self) -> TaskState<ConfirmationLink> {
        self.task@
    }

    /// Whether the registration form behind the link may be shown: a pure
    /// function of the resolution outcome — false exactly when the lookup
    /// failed, so a failed lookup never yields a submittable form.
    pub open spec fn spec_form_visible(outcome: TaskState<ConfirmationLink>) -> bool {
        !(outcome is Error)
    }

    /// A flow for the given link id; nothing resolved yet.
    pub fn new(id: String) -> (f: ConfirmationLinkFlow)
        ensures
            f.link_id() == id,
            f.outcome() is Idle,
    {
        ConfirmationLinkFlow { id, task: AsyncTask::new() }
    }

    /// Start resolving the id.  Ignored while a lookup is in flight.
    pub fn resolve(&mut self) -> (cmds: Vec<Command>)
        ensures
            final(self).link_id() == old(self).link_id(),
            old(self).outcome() is Loading ==> *final(self) == *old(self) && cmds@
                =~= Seq::<Command>::empty(),
            !(old(self).outcome() is Loading) ==> final(self).outcome() is Loading && cmds@
                =~= seq![Command::LookupConfirmation(old(self).link_id())],
    {
        if self.task.loading() {
            Vec::new()
        } else {
            let _ = self.task.trigger();
            let mut cmds: Vec<Command> = Vec::new();
            cmds.push(Command::LookupConfirmation(self.id.clone()));
            cmds
        }
    }

    /// Record a resolved link.
    pub fn on_success(&mut self, link: ConfirmationLink)
        requires
            old(self).outcome() is Loading,
        ensures
            final(self).outcome() == TaskState::Success(link),
            final(self).link_id() == old(self).link_id(),
            Self::spec_form_visible(final(self).outcome()),
    {
        self.task.complete(Ok(link));
    }

    /// Record a failed lookup and classify it: `NotFound` means the link is
    /// invalid or expired.  Afterwards no form is visible.
    pub fn on_error(&mut self, err: AppError) -> (c: Classification)
        requires
            old(self).outcome() is Loading,
        ensures
            c == spec_classify(Role::ConfirmationLookup, err@),
            final(self).outcome() == TaskState::<ConfirmationLink>::Error(err),
            final(self).link_id() == old(self).link_id(),
            !Self::spec_form_visible(final(self).outcome()),
    {
        let c = classify(Role::ConfirmationLookup, &err);
        self.task.complete(Err(err));
        c
    }

    /// Whether the form behind the link may be shown.
    pub fn form_visible(&self) -> (b: bool)
        ensures
            b == Self::spec_form_visible(self.outcome()),
    {
        match self.task.error() {
            Some(_) => false,
            None => true,
        }
    }

    /// The resolved link, once the lookup succeeded.
    pub fn resolved(&self) -> (r: Option<&ConfirmationLink>)
        ensures
            match self.outcome() {
                TaskState::Success(link) => r matches Some(p) && *p == link,
                _ => r is None,
            },
    {
        self.task.data()
    }
}

/// Asking the server to mail a confirmation link — the entry into magic-link
/// signup and password reset.  The page switches to an acknowledgement as
/// soon as the request goes out; the server answers the same way whether or
/// not the email exists, and the link itself is never shown to the
/// requester, so nothing here can enumerate accounts.
pub struct RequestLinkFlow {
    email: String,
    confirmation_type: ConfirmationType,
    email_sent: bool,
    task: AsyncTask<()>,
}

impl RequestLinkFlow {
    /// The email as currently edited.
    pub closed spec fn email(&self) -> String {
        self.email
    }

    /// Which account flow the link will drive.
    pub closed spec fn confirmation_type(&self) -> ConfirmationType {
        self.confirmation_type
    }

    /// Whether a request was sent in this flow's lifetime.
    pub closed spec fn sent(&self) -> bool {
        self.email_sent
    }

    /// The state of the request.
    pub closed spec fn task_state(&self) -> TaskState<()> {
        self.task@
    }

    /// A fresh flow for the given account flow kind.
    pub fn new(confirmation_type: ConfirmationType) -> (f: RequestLinkFlow)
        ensures
            f.email()@.len() == 0,
            f.confirmation_type() == confirmation_type,
            !f.sent(),
            f.task_state() is Idle,
    {
        RequestLinkFlow {
            email: String::new(),
            confirmation_type,
            email_sent: false,
            task: AsyncTask::new(),
        }
    }

    /// Edit the email field.
    pub fn set_email(&mut self, email: String)
        ensures
            final(self).email() == email,
            final(self).confirmation_type() == old(self).confirmation_type(),
            final(self).sent() == old(self).sent(),
            final(self).task_state() == old(self).task_state(),
    {
        self.email = email;
    }

    /// Submit the email.  While a request is in flight the submission is
    /// ignored; otherwise the request goes out and the flow records that an
    /// email was sent.
    pub fn submit(&mut self) -> (cmds: Vec<Command>)
        ensures
            old(self).task_state() is Loading ==> *final(self) == *old(self) && cmds@
                =~= Seq::<Command>::empty(),
            !(old(self).task_state() is Loading) ==> {
                &&& final(self).task_state() is Loading
                &&& final(self).sent()
                &&& final(self).email() == old(self).email()
                &&& final(self).confirmation_type() == old(self).confirmation_type()
                &&& cmds@ =~= seq![
                    Command::RequestConfirmationLink(
                        SendConfirmationLink {
                            email: old(self).email(),
                            confirmation_type: old(self).confirmation_type(),
                        },
                    ),
                ]
            },
    {
        if self.task.loading() {
            Vec::new()
        } else {
            self.email_sent = true;
            let _ = self.task.trigger();
            let mut cmds: Vec<Command> = Vec::new();
            cmds.push(
                Command::RequestConfirmationLink(
                    SendConfirmationLink {
                        email: self.email.clone(),
                        confirmation_type: self.confirmation_type,
                    },
                ),
            );
            cmds
        }
    }

    /// Record the server's acknowledgement.
    pub fn on_success(&mut self)
        requires
            old(self).task_state() is Loading,
        ensures
            final(self).task_state() == TaskState::<()>::Success(()),
            final(self).sent() == old(self).sent(),
            final(self).email() == old(self).email(),
            final(self).confirmation_type() == old(self).confirmation_type(),
    {
        self.task.complete(Ok(()));
    }

    /// Record a failure and classify it in the register role: a duplicate
    /// marker in an unprocessable entity surfaces as a conflict.
    pub fn on_error(&mut self, err: AppError) -> (c: Classification)
        requires
            old(self).task_state() is Loading,
        ensures
            c == spec_classify(Role::Register, err@),
            final(self).task_state() == TaskState::<()>::Error(err),
            final(self).sent() == old(self).sent(),
            final(self).email() == old(self).email(),
            final(self).confirmation_type() == old(self).confirmation_type(),
    {
        let c = classify(Role::Register, &err);
        self.task.complete(Err(err));
        c
    }

    /// Whether the "email sent" acknowledgement is shown: a request was sent
    /// and no error came back.
    pub fn shows_acknowledgement(&self) -> (b: bool)
        ensures
            b == (self.sent() && !(self.task_state() is Error)),
    {
        if self.email_sent {
            match self.task.error() {
                Some(_) => false,
                None => true,
            }
        } else {
            false
        }
    }
}

} // verus!
