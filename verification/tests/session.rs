//! Scenario tests for the token store, the session context, and the
//! bootstrap state machine.

use session_core::AppError;
use session_core::Command;
use session_core::Phase;
use session_core::SessionBootstrapper;
use session_core::SessionContext;
use session_core::TokenStore;
use session_core::UserInfo;

fn user(id: u64, name: &str, email: &str, token: &str) -> UserInfo {
    UserInfo {
        id,
        name: name.to_string(),
        email: email.to_string(),
        token: token.to_string(),
    }
}

#[test]
fn token_store_set_then_get_returns_it() {
    let mut store = TokenStore::new(None);
    store.set(Some("tok-1".to_string()));
    assert_eq!(store.get(), Some("tok-1".to_string()));
    store.set(None);
    assert_eq!(store.get(), None);
}

#[test]
fn token_store_repeats_and_order_do_not_matter() {
    let mut store = TokenStore::new(Some("initial".to_string()));
    store.set(Some("a".to_string()));
    store.set(Some("a".to_string()));
    assert_eq!(store.get(), Some("a".to_string()));
    store.set(Some("b".to_string()));
    assert_eq!(store.get(), Some("b".to_string()));
    store.set(None);
    store.set(None);
    assert_eq!(store.get(), None);
    assert!(!store.has_token());
}

#[test]
fn logout_clears_storage_before_navigating() {
    let mut store = TokenStore::new(Some("tok".to_string()));
    let mut ctx = SessionContext::new();
    ctx.login(user(7, "Kim", "k@x.com", "tok"));
    let cmds = ctx.logout(&mut store);
    assert_eq!(cmds, vec![Command::PersistToken, Command::NavigateToLogin]);
    assert!(ctx.is_anonymous());
    assert_eq!(store.get(), None);
}

#[test]
fn logout_twice_is_idempotent() {
    let mut store = TokenStore::new(Some("tok".to_string()));
    let mut ctx = SessionContext::new();
    ctx.login(user(7, "Kim", "k@x.com", "tok"));
    let first = ctx.logout(&mut store);
    assert_eq!(first.len(), 2);
    let user_after_once = ctx.current().clone();
    let token_after_once = store.get();
    let second = ctx.logout(&mut store);
    assert_eq!(second, Vec::<Command>::new());
    assert_eq!(ctx.current(), &user_after_once);
    assert_eq!(store.get(), token_after_once);
    assert!(ctx.is_anonymous());
}

#[test]
fn bootstrap_without_token_goes_anonymous() {
    let store = TokenStore::new(None);
    let ctx = SessionContext::new();
    let mut boot = SessionBootstrapper::new();
    let cmds = boot.start(&store, &ctx);
    assert_eq!(cmds, vec![Command::NavigateToLogin]);
    assert!(!cmds.contains(&Command::FetchCurrentUser));
    assert_eq!(boot.current_phase(), Phase::Anonymous);
    assert!(ctx.is_anonymous());
}

#[test]
fn bootstrap_stale_token_clears_session_and_redirects_once() {
    let mut store = TokenStore::new(Some("abc".to_string()));
    let ctx = SessionContext::new();
    let mut boot = SessionBootstrapper::new();
    let start_cmds = boot.start(&store, &ctx);
    assert_eq!(start_cmds, vec![Command::FetchCurrentUser]);
    assert_eq!(boot.current_phase(), Phase::FetchingUser);
    let error_cmds = boot.on_fetch_error(&mut store, AppError::Unauthorized);
    assert_eq!(
        error_cmds,
        vec![Command::PersistToken, Command::NavigateToLogin]
    );
    let navigations: usize = start_cmds
        .iter()
        .chain(error_cmds.iter())
        .filter(|c| **c == Command::NavigateToLogin)
        .count();
    assert_eq!(navigations, 1);
    assert_eq!(store.get(), None);
    assert!(ctx.is_anonymous());
    assert_eq!(boot.current_phase(), Phase::Anonymous);
}

#[test]
fn bootstrap_forbidden_token_ends_anonymous() {
    let mut store = TokenStore::new(Some("abc".to_string()));
    let ctx = SessionContext::new();
    let mut boot = SessionBootstrapper::new();
    let _ = boot.start(&store, &ctx);
    let cmds = boot.on_fetch_error(&mut store, AppError::Forbidden);
    assert_eq!(cmds, vec![Command::PersistToken, Command::NavigateToLogin]);
    assert_eq!(store.get(), None);
    assert!(ctx.is_anonymous());
    assert_eq!(boot.current_phase(), Phase::Anonymous);
}

#[test]
fn bootstrap_network_error_redirects_but_keeps_token() {
    let mut store = TokenStore::new(Some("abc".to_string()));
    let ctx = SessionContext::new();
    let mut boot = SessionBootstrapper::new();
    let _ = boot.start(&store, &ctx);
    let cmds = boot.on_fetch_error(&mut store, AppError::Unknown);
    assert_eq!(cmds, vec![Command::NavigateToLogin]);
    assert_eq!(store.get(), Some("abc".to_string()));
    assert_eq!(boot.current_phase(), Phase::Anonymous);
}

#[test]
fn bootstrap_success_logs_user_in_without_redirect() {
    let store = TokenStore::new(Some("abc".to_string()));
    let mut ctx = SessionContext::new();
    let mut boot = SessionBootstrapper::new();
    let start_cmds = boot.start(&store, &ctx);
    assert_eq!(start_cmds, vec![Command::FetchCurrentUser]);
    let ann = user(1, "Ann", "a@x.com", "abc");
    let cmds = boot.on_fetch_success(&mut ctx, &store, ann.clone());
    assert_eq!(cmds, Vec::<Command>::new());
    assert_eq!(ctx.current().name, "Ann");
    assert_eq!(ctx.current(), &ann);
    assert_eq!(boot.current_phase(), Phase::Authenticated);
    assert_eq!(store.get(), Some("abc".to_string()));
}
