//! The startup state machine: decide from the stored token whether to fetch
//! the current user or go anonymous, and route the fetch outcome into the
//! session context and the classifier.

use crate::async_task::AsyncTask;
use crate::async_task::TaskState;
use crate::classify::Classification;
use crate::classify::Role;
use crate::classify::classify;
use crate::classify::spec_classify;
use crate::command::Command;
use crate::command::count_fetches;
use crate::command::count_navigations;
use crate::error::AppError;
use crate::error::AppErrorView;
use crate::model::UserInfo;
use crate::model::UserView;
use crate::model::is_anonymous_user;
use crate::session::SessionContext;
use crate::token_store::TokenStore;
use vstd::prelude::*;

verus! {

/// Where the bootstrap run stands.  `Authenticated` and `Anonymous` are
/// terminal: there is no re-entry to `FetchingUser` without a full restart.
#[derive(Clone, Copy, Debug, PartialEq, Eq, Structural)]
pub enum Phase {
    NotStarted,
    FetchingUser,
    Authenticated,
    Anonymous,
}

/// The abstract state a bootstrap run works on: its phase, the session
/// context's user, and the stored token's characters.
#[verifier::ext_equal]
pub struct BootstrapState {
    pub phase: Phase,
    pub user: UserView,
    pub stored: Option<Seq<char>>,
}

/// Whether a failed session fetch clears the session: exactly when the
/// classifier maps it to [`Classification::ClearSessionAndRedirect`], that
/// is on `Unauthorized` and `Forbidden`.
pub open spec fn clears_session(err: AppErrorView) -> bool {
    spec_classify(Role::SessionFetch, err) is ClearSessionAndRedirect
}

/// The commands a failed fetch emits: the cleared store is persisted before
/// the navigation when the token was stale, otherwise only the navigation.
pub open spec fn fetch_error_commands(err: AppErrorView) -> Seq<Command> {
    if clears_session(err) {
        seq![Command::PersistToken, Command::NavigateToLogin]
    } else {
        seq![Command::NavigateToLogin]
    }
}

/// Runs once per process lifetime: with a token stored the current user is
/// fetched; without one the run goes straight to `Anonymous` and navigates
/// to login.  A successful fetch logs the user into the session context; a
/// failed one goes through the classifier, which may clear the token store.
pub struct SessionBootstrapper {
    phase: Phase,
    fetch: AsyncTask<UserInfo>,
}

impl SessionBootstrapper {
    /// The current phase.
    pub closed spec fn phase(&self) -> Phase {
        self.phase
    }

    /// The state of the current-user fetch.
    pub closed spec fn fetch_state(&self) -> TaskState<UserInfo> {
        self.fetch@
    }

    /// The fetch task is loading exactly while the run is fetching.
    pub open spec fn wf(&self) -> bool {
        &&& self.phase() is NotStarted ==> self.fetch_state() is Idle
        &&& self.phase() is FetchingUser ==> self.fetch_state() is Loading
    }

    /// The abstract state of a run standing next to `store` and `ctx`.
    pub open spec fn abs(&self, store: TokenStore, ctx: SessionContext) -> BootstrapState {
        BootstrapState { phase: self.phase(), user: ctx@, stored: store.stored_chars() }
    }

    /// The start step: fetch the current user when a token is stored, go
    /// anonymous and navigate to login when none is.
    pub open spec fn spec_start(s: BootstrapState) -> (BootstrapState, Seq<Command>)
        recommends
            s.phase is NotStarted,
    {
        if s.stored is Some {
            (
                BootstrapState { phase: Phase::FetchingUser, ..s },
                seq![Command::FetchCurrentUser],
            )
        } else {
            (BootstrapState { phase: Phase::Anonymous, ..s }, seq![Command::NavigateToLogin])
        }
    }

    /// The step taken when the fetch succeeds: the user enters the context,
    /// nothing navigates.
    pub open spec fn spec_fetch_success(s: BootstrapState, user: UserView) -> (
        BootstrapState,
        Seq<Command>,
    )
        recommends
            s.phase is FetchingUser,
    {
        (BootstrapState { phase: Phase::Authenticated, user, ..s }, Seq::<Command>::empty())
    }

    /// The step taken when the fetch fails: the run goes anonymous; a stale
    /// token (`Unauthorized`/`Forbidden`) is cleared and the cleared store
    /// persisted before the navigation.
    pub open spec fn spec_fetch_error(s: BootstrapState, err: AppErrorView) -> (
        BootstrapState,
        Seq<Command>,
    )
        recommends
            s.phase is FetchingUser,
    {
        (
            BootstrapState {
                phase: Phase::Anonymous,
                stored: if clears_session(err) {
                    None
                } else {
                    s.stored
                },
                ..s
            },
            fetch_error_commands(err),
        )
    }

    /// A run that has not started.
    pub fn new() -> (b: SessionBootstrapper)
        ensures
            b.phase() is NotStarted,
            b.wf(),
    {
        SessionBootstrapper { phase: Phase::NotStarted, fetch: AsyncTask::new() }
    }

    /// Where the run stands.
    pub fn current_phase(&self) -> (p: Phase)
        ensures
            p == self.phase(),
    {
        self.phase
    }

    /// Run the start step against the stored token.  With no token stored,
    /// no current-user request is issued and the run reaches `Anonymous`.
    pub fn start(&mut self, store: &TokenStore, ctx: &SessionContext) -> (cmds: Vec<Command>)
        requires
            old(self).phase() is NotStarted,
            old(self).wf(),
        ensures
            final(self).wf(),
            ({
                let (m, cs) = Self::spec_start(old(self).abs(*store, *ctx));
                &&& final(self).abs(*store, *ctx) =~= m
                &&& cmds@ =~= cs
            }),
            store.stored() is None ==> final(self).phase() is Anonymous && cmds@ =~= seq![
                Command::NavigateToLogin,
            ],
    {
        if store.has_token() {
            let _ = self.fetch.trigger();
            self.phase = Phase::FetchingUser;
            let mut cmds: Vec<Command> = Vec::new();
            cmds.push(Command::FetchCurrentUser);
            cmds
        } else {
            self.phase = Phase::Anonymous;
            let mut cmds: Vec<Command> = Vec::new();
            cmds.push(Command::NavigateToLogin);
            cmds
        }
    }

    /// Apply a successful fetch: the user enters the session context and the
    /// run is `Authenticated`; nothing navigates and the store is untouched.
    pub fn on_fetch_success(
        &mut self,
        ctx: &mut SessionContext,
        store: &TokenStore,
        user: UserInfo,
    ) -> (cmds: Vec<Command>)
        requires
            old(self).phase() is FetchingUser,
            old(self).wf(),
        ensures
            final(self).wf(),
            ({
                let (m, cs) = Self::spec_fetch_success(old(self).abs(*store, *old(ctx)), user@);
                &&& final(self).abs(*store, *final(ctx)) =~= m
                &&& cmds@ =~= cs
            }),
            final(ctx)@ == user@,
            final(self).phase() is Authenticated,
            cmds@.len() == 0,
    {
        let copy = user.snapshot();
        self.fetch.complete(Ok(copy));
        self.phase = Phase::Authenticated;
        ctx.login(user);
        Vec::new()
    }

    /// Apply a failed fetch: classify it as a session fetch, clear the store
    /// when the token was stale, and go anonymous.  The commands persist the
    /// cleared store strictly before the navigation.
    pub fn on_fetch_error(&mut self, store: &mut TokenStore, err: AppError) -> (cmds: Vec<
        Command,
    >)
        requires
            old(self).phase() is FetchingUser,
            old(self).wf(),
        ensures
            final(self).wf(),
            final(self).phase() is Anonymous,
            final(store).stored() == if clears_session(err@) {
                None::<String>
            } else {
                old(store).stored()
            },
            cmds@ =~= fetch_error_commands(err@),
            (err@ is Unauthorized || err@ is Forbidden) ==> final(store).stored() is None,
    {
        let classification = classify(Role::SessionFetch, &err);
        self.fetch.complete(Err(err));
        self.phase = Phase::Anonymous;
        let mut cmds: Vec<Command> = Vec::new();
        match classification {
            Classification::ClearSessionAndRedirect => {
                store.set(None);
                cmds.push(Command::PersistToken);
                cmds.push(Command::NavigateToLogin);
            },
            _ => {
                cmds.push(Command::NavigateToLogin);
            },
        }
        cmds
    }
}

/// Law: bootstrapping with no stored token never issues a current-user
/// request and always reaches `Anonymous`.
pub proof fn lemma_bootstrap_without_token(s: BootstrapState)
    requires
        s.phase is NotStarted,
        s.stored is None,
    ensures
        ({
            let (m, cs) = SessionBootstrapper::spec_start(s);
            &&& m.phase is Anonymous
            &&& count_fetches(cs) == 0
            &&& cs =~= seq![Command::NavigateToLogin]
        }),
{
    let (m, cs) = SessionBootstrapper::spec_start(s);
    assert(cs.drop_last() =~= Seq::<Command>::empty());
    assert(count_fetches(Seq::<Command>::empty()) == 0);
    assert(count_fetches(cs) == 0);
}

/// Law: bootstrapping with a stored token that the server accepts ends
/// `Authenticated` with that user in the session context, the token still
/// stored, and no navigation anywhere on the way.
pub proof fn lemma_bootstrap_valid_token(s: BootstrapState, user: UserView)
    requires
        s.phase is NotStarted,
        s.stored is Some,
    ensures
        ({
            let (m1, c1) = SessionBootstrapper::spec_start(s);
            let (m2, c2) = SessionBootstrapper::spec_fetch_success(m1, user);
            &&& m1.phase is FetchingUser
            &&& m2.phase is Authenticated
            &&& m2.user == user
            &&& m2.stored == s.stored
            &&& count_navigations(c1 + c2) == 0
        }),
{
    let (m1, c1) = SessionBootstrapper::spec_start(s);
    let (m2, c2) = SessionBootstrapper::spec_fetch_success(m1, user);
    let all = c1 + c2;
    assert(all =~= seq![Command::FetchCurrentUser]);
    assert(all.drop_last() =~= Seq::<Command>::empty());
    assert(count_navigations(Seq::<Command>::empty()) == 0);
    assert(count_navigations(all) == 0);
}

/// Law: bootstrapping with a stored token that the server rejects as stale
/// (`Unauthorized` or `Forbidden`) ends with the token store empty, the
/// session context still anonymous, and exactly one navigation to login —
/// and the cleared store is persisted before that navigation.
pub proof fn lemma_bootstrap_stale_token(s: BootstrapState, err: AppErrorView)
    requires
        s.phase is NotStarted,
        is_anonymous_user(s.user),
        s.stored is Some,
        err is Unauthorized || err is Forbidden,
    ensures
        ({
            let (m1, c1) = SessionBootstrapper::spec_start(s);
            let (m2, c2) = SessionBootstrapper::spec_fetch_error(m1, err);
            &&& m1.phase is FetchingUser
            &&& m2.phase is Anonymous
            &&& m2.stored is None
            &&& is_anonymous_user(m2.user)
            &&& count_navigations(c1 + c2) == 1
            &&& c2 =~= seq![Command::PersistToken, Command::NavigateToLogin]
        }),
{
    let (m1, c1) = SessionBootstrapper::spec_start(s);
    let (m2, c2) = SessionBootstrapper::spec_fetch_error(m1, err);
    let all = c1 + c2;
    assert(all =~= seq![
        Command::FetchCurrentUser,
        Command::PersistToken,
        Command::NavigateToLogin,
    ]);
    assert(all.drop_last() =~= seq![Command::FetchCurrentUser, Command::PersistToken]);
    assert(all.drop_last().drop_last() =~= seq![Command::FetchCurrentUser]);
    assert(all.drop_last().drop_last().drop_last() =~= Seq::<Command>::empty());
    assert(count_navigations(all.drop_last().drop_last().drop_last()) == 0);
    assert(count_navigations(all.drop_last().drop_last()) == 0);
    assert(count_navigations(all.drop_last()) == 0);
    assert(count_navigations(all) == 1);
}

} // verus!
