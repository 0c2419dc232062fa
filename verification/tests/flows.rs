//! Scenario tests for the credential and confirmation-link flows and the
//! error classifier.

use session_core::AppError;
use session_core::AsyncTask;
use session_core::ButtonType;
use session_core::Classification;
use session_core::Command;
use session_core::ConfirmationLink;
use session_core::ConfirmationType;
use session_core::CreateUserRequest;
use session_core::HeaderButtonProps;
use session_core::LoginFlow;
use session_core::RegisterFlow;
use session_core::RegisterWithConfirmationFlow;
use session_core::RequestLinkFlow;
use session_core::Role;
use session_core::SessionContext;
use session_core::SettingsFlow;
use session_core::TokenStore;
use session_core::UserInfo;
use session_core::classify;
use session_core::flag_enabled;
use session_core::parse_port;
use session_core::trim;

fn user(id: u64, name: &str, email: &str, token: &str) -> UserInfo {
    UserInfo {
        id,
        name: name.to_string(),
        email: email.to_string(),
        token: token.to_string(),
    }
}

#[test]
fn retrigger_while_loading_launches_nothing() {
    let mut task: AsyncTask<u64> = AsyncTask::new();
    assert!(!task.loading());
    assert!(task.trigger());
    assert!(task.loading());
    assert!(!task.trigger());
    assert!(!task.trigger());
    assert!(task.loading());
    task.complete(Ok(5));
    assert_eq!(task.data(), Some(&5));
    assert!(task.trigger());
}

#[test]
fn double_submit_sends_one_login_request() {
    let mut flow = LoginFlow::new();
    flow.set_email("a@x.com".to_string());
    flow.set_password("pw".to_string());
    let first = flow.submit();
    assert_eq!(first.len(), 1);
    let second = flow.submit();
    assert_eq!(second, Vec::<Command>::new());
}

#[test]
fn login_success_sets_context_and_persists_token() {
    let mut flow = LoginFlow::new();
    let mut ctx = SessionContext::new();
    let mut store = TokenStore::new(None);
    flow.set_email("a@x.com".to_string());
    flow.set_password("pw".to_string());
    let cmds = flow.submit();
    match &cmds[0] {
        Command::SubmitLogin(info) => {
            assert_eq!(info.email, "a@x.com");
            assert_eq!(info.password, "pw");
        }
        other => panic!("expected a login submission, got {:?}", other),
    }
    let ann = user(1, "Ann", "a@x.com", "tok-9");
    let effect = flow.on_success(&mut ctx, &mut store, ann.clone());
    assert_eq!(effect, vec![Command::PersistToken]);
    assert_eq!(ctx.current(), &ann);
    assert_eq!(store.get(), Some("tok-9".to_string()));
}

#[test]
fn login_unknown_account_is_field_error() {
    let mut flow = LoginFlow::new();
    flow.set_email("who@x.com".to_string());
    let _ = flow.submit();
    let c = flow.on_error(AppError::NotFound);
    assert_eq!(c, Classification::FieldError);
    assert_eq!(flow.error(), Some(&AppError::NotFound));
}

#[test]
fn register_duplicate_email_is_conflict_and_context_untouched() {
    let mut flow = RegisterFlow::new();
    let ctx = SessionContext::new();
    flow.set_name("Ann".to_string());
    flow.set_email("a@x.com".to_string());
    flow.set_password("pw".to_string());
    let _ = flow.submit();
    let c = flow.on_error(AppError::UnprocessableEntity(vec![
        "email already exists.".to_string(),
    ]));
    assert_eq!(c, Classification::DuplicateEntity);
    assert!(ctx.is_anonymous());
}

#[test]
fn register_success_logs_new_user_in() {
    let mut flow = RegisterFlow::new();
    let mut ctx = SessionContext::new();
    let mut store = TokenStore::new(None);
    flow.set_name("Bea".to_string());
    flow.set_email("b@x.com".to_string());
    flow.set_password("pw".to_string());
    let _ = flow.submit();
    let bea = user(2, "Bea", "b@x.com", "tok-2");
    let _ = flow.on_success(&mut ctx, &mut store, bea.clone());
    assert_eq!(ctx.current(), &bea);
    assert_eq!(store.get(), Some("tok-2".to_string()));
}

#[test]
fn classifier_maps_each_role_and_kind() {
    assert_eq!(
        classify(Role::SessionFetch, &AppError::Unauthorized),
        Classification::ClearSessionAndRedirect
    );
    assert_eq!(
        classify(Role::SessionFetch, &AppError::Forbidden),
        Classification::ClearSessionAndRedirect
    );
    assert_eq!(
        classify(Role::SessionFetch, &AppError::Unknown),
        Classification::RedirectOnly
    );
    assert_eq!(
        classify(Role::SessionFetch, &AppError::NotFound),
        Classification::RedirectOnly
    );
    assert_eq!(
        classify(Role::Login, &AppError::NotFound),
        Classification::FieldError
    );
    assert_eq!(
        classify(Role::Login, &AppError::Unauthorized),
        Classification::Generic
    );
    assert_eq!(
        classify(Role::ConfirmationLookup, &AppError::NotFound),
        Classification::InvalidLink
    );
    assert_eq!(
        classify(Role::ConfirmationLookup, &AppError::Unknown),
        Classification::Generic
    );
    assert_eq!(
        classify(Role::ProfileUpdate, &AppError::Unauthorized),
        Classification::Generic
    );
}

#[test]
fn classifier_matches_duplicate_marker_by_suffix() {
    let dup = AppError::UnprocessableEntity(vec![
        "something else".to_string(),
        "email already exists.".to_string(),
    ]);
    assert_eq!(classify(Role::Register, &dup), Classification::DuplicateEntity);
    let not_suffix = AppError::UnprocessableEntity(vec![
        "already exists. but then more".to_string(),
    ]);
    assert_eq!(classify(Role::Register, &not_suffix), Classification::Generic);
    let empty = AppError::UnprocessableEntity(Vec::new());
    assert_eq!(classify(Role::Register, &empty), Classification::Generic);
    assert_eq!(
        classify(Role::Register, &AppError::NotFound),
        Classification::Generic
    );
}

#[test]
fn invalid_link_suppresses_form_and_blocks_submission() {
    let mut flow = RegisterWithConfirmationFlow::new("xyz".to_string());
    let start = flow.start();
    assert_eq!(start, vec![Command::LookupConfirmation("xyz".to_string())]);
    let c = flow.on_link_error(AppError::NotFound);
    assert_eq!(c, Classification::InvalidLink);
    assert!(!flow.form_visible());
    flow.set_name("Ann".to_string());
    flow.set_password("pw".to_string());
    let cmds = flow.submit();
    assert_eq!(cmds, Vec::<Command>::new());
}

#[test]
fn resolved_link_seeds_form_and_registers() {
    let mut flow = RegisterWithConfirmationFlow::new("id-1".to_string());
    let mut ctx = SessionContext::new();
    let mut store = TokenStore::new(None);
    let _ = flow.start();
    flow.on_link_resolved(ConfirmationLink {
        id: "id-1".to_string(),
        email: "c@x.com".to_string(),
        confirmation_type: ConfirmationType::Registration,
    });
    assert!(flow.form_visible());
    assert_eq!(flow.form_data().email, "c@x.com");
    assert_eq!(flow.form_data().confirmation_id, "id-1");
    flow.set_name("Cal".to_string());
    flow.set_password("pw".to_string());
    let cmds = flow.submit();
    match &cmds[0] {
        Command::SubmitRegistration(info) => {
            assert_eq!(info.email, "c@x.com");
            assert_eq!(info.confirmation_id, "id-1");
            assert_eq!(info.name, "Cal");
        }
        other => panic!("expected a registration submission, got {:?}", other),
    }
    let cal = user(3, "Cal", "c@x.com", "tok-3");
    let _ = flow.on_success(&mut ctx, &mut store, cal.clone());
    assert_eq!(ctx.current(), &cal);
}

#[test]
fn unchanged_or_empty_name_issues_no_profile_call() {
    let mut ctx = SessionContext::new();
    ctx.login(user(4, "Dee", "d@x.com", "tok-4"));
    let mut flow = SettingsFlow::new(&ctx);
    assert_eq!(flow.form_data().name, "Dee");
    let cmds = flow.submit(&ctx);
    assert_eq!(cmds, Vec::<Command>::new());
    flow.set_name(String::new());
    let cmds = flow.submit(&ctx);
    assert_eq!(cmds, Vec::<Command>::new());
}

#[test]
fn changed_name_issues_exactly_one_profile_call() {
    let mut ctx = SessionContext::new();
    ctx.login(user(4, "Dee", "d@x.com", "tok-4"));
    let mut flow = SettingsFlow::new(&ctx);
    flow.set_name("Eve".to_string());
    let cmds = flow.submit(&ctx);
    assert_eq!(cmds.len(), 1);
    match &cmds[0] {
        Command::SubmitProfileUpdate(update) => assert_eq!(update.name, "Eve"),
        other => panic!("expected a profile update, got {:?}", other),
    }
    let second = flow.submit(&ctx);
    assert_eq!(second, Vec::<Command>::new());
    let eve = user(4, "Eve", "d@x.com", "tok-4");
    flow.on_profile_success(&mut ctx, eve.clone());
    assert_eq!(ctx.current(), &eve);
}

#[test]
fn password_update_sent_only_when_nonempty() {
    let mut ctx = SessionContext::new();
    ctx.login(user(4, "Dee", "d@x.com", "tok-4"));
    let mut flow = SettingsFlow::new(&ctx);
    let cmds = flow.submit(&ctx);
    assert_eq!(cmds, Vec::<Command>::new());
    flow.set_password("secret".to_string());
    let cmds = flow.submit(&ctx);
    assert_eq!(
        cmds,
        vec![Command::SubmitPasswordUpdate("secret".to_string())]
    );
    flow.on_password_success();
    assert_eq!(ctx.current().name, "Dee");
}

#[test]
fn settings_submit_toggles_editing_and_cancel_restores() {
    let mut ctx = SessionContext::new();
    ctx.login(user(4, "Dee", "d@x.com", "tok-4"));
    let mut flow = SettingsFlow::new(&ctx);
    assert!(!flow.editing_now());
    flow.toggle_editing();
    assert!(flow.editing_now());
    flow.set_name("Zed".to_string());
    flow.set_password("pw".to_string());
    flow.cancel(&ctx);
    assert!(!flow.editing_now());
    assert_eq!(flow.form_data().name, "Dee");
    let cmds = flow.submit(&ctx);
    assert_eq!(cmds, Vec::<Command>::new());
}

#[test]
fn request_link_flow_acknowledges_after_send() {
    let mut flow = RequestLinkFlow::new(ConfirmationType::Registration);
    assert!(!flow.shows_acknowledgement());
    flow.set_email("a@x.com".to_string());
    let cmds = flow.submit();
    assert_eq!(cmds.len(), 1);
    match &cmds[0] {
        Command::RequestConfirmationLink(req) => {
            assert_eq!(req.email, "a@x.com");
            assert_eq!(req.confirmation_type, ConfirmationType::Registration);
        }
        other => panic!("expected a link request, got {:?}", other),
    }
    let repeat = flow.submit();
    assert_eq!(repeat, Vec::<Command>::new());
    flow.on_success();
    assert!(flow.shows_acknowledgement());
}

#[test]
fn request_link_flow_error_hides_acknowledgement() {
    let mut flow = RequestLinkFlow::new(ConfirmationType::PasswordReset);
    flow.set_email("a@x.com".to_string());
    let _ = flow.submit();
    let c = flow.on_error(AppError::Unknown);
    assert_eq!(c, Classification::Generic);
    assert!(!flow.shows_acknowledgement());
}

#[test]
fn button_type_renders_its_attribute() {
    assert_eq!(ButtonType::Button.as_str(), "button");
    assert_eq!(ButtonType::Submit.as_str(), "submit");
    assert_eq!(ButtonType::Reset.as_str(), "reset");
}

#[test]
fn header_button_builders_fill_the_fields() {
    let b = HeaderButtonProps::new(
        "Go".to_string(),
        Some("icon-go".to_string()),
        ButtonType::Submit,
    );
    assert_eq!(b.label().as_str(), "Go");
    assert_eq!(b.icon_css(), &Some("icon-go".to_string()));
    assert_eq!(b.button_type(), ButtonType::Submit);
    assert_eq!(HeaderButtonProps::edit("Edit".to_string()).button_type(), ButtonType::Button);
    assert_eq!(HeaderButtonProps::submit("Save".to_string()).button_type(), ButtonType::Submit);
    assert_eq!(HeaderButtonProps::reset("Cancel".to_string()).button_type(), ButtonType::Reset);
    let blank = HeaderButtonProps::blank();
    assert_eq!(blank.label().as_str(), "");
    assert_eq!(blank.icon_css(), &None);
}

#[test]
fn create_user_request_maps_to_record_unchanged() {
    let req = CreateUserRequest::new(
        "X Yz".to_string(),
        "xyz@gmail.com".to_string(),
        "abcdef".to_string(),
    );
    let record = req.to_new_user();
    assert_eq!(record.name, "X Yz");
    assert_eq!(record.email, "xyz@gmail.com");
    assert_eq!(record.pwd_hash, "abcdef");
}

#[test]
fn confirmation_name_input_is_trimmed() {
    let mut flow = RegisterWithConfirmationFlow::new("id-1".to_string());
    let _ = flow.start();
    flow.on_link_resolved(ConfirmationLink {
        id: "id-1".to_string(),
        email: "c@x.com".to_string(),
        confirmation_type: ConfirmationType::Registration,
    });
    flow.set_name("  Ann \t".to_string());
    assert_eq!(flow.form_data().name, "Ann");
    flow.set_password("pw".to_string());
    let cmds = flow.submit();
    match &cmds[0] {
        Command::SubmitRegistration(info) => assert_eq!(info.name, "Ann"),
        other => panic!("expected a registration submission, got {:?}", other),
    }
    flow.set_name(" A nn ".to_string());
    assert_eq!(flow.form_data().name, "A nn");
    flow.set_name("   ".to_string());
    assert_eq!(flow.form_data().name, "");
}

#[test]
fn trim_strips_surrounding_whitespace_only() {
    assert_eq!(trim("  ab "), "ab");
    assert_eq!(trim("\t\n x y \r\n"), "x y");
    assert_eq!(trim("abc"), "abc");
    assert_eq!(trim(""), "");
    assert_eq!(trim(" \u{00A0}\u{3000} "), "");
    assert_eq!(trim("\u{2000}a\u{200A}"), "a");
}

#[test]
fn port_parses_decimal_digit_strings_exactly() {
    assert_eq!(parse_port("8025"), Some(8025));
    assert_eq!(parse_port("0"), Some(0));
    assert_eq!(parse_port("070"), Some(70));
    assert_eq!(parse_port("65535"), Some(65535));
    assert_eq!(parse_port("65536"), None);
    assert_eq!(parse_port("99999999999999999999"), None);
    assert_eq!(parse_port(""), None);
    assert_eq!(parse_port("80a"), None);
    assert_eq!(parse_port(" 25"), None);
    assert_eq!(parse_port("-1"), None);
}

#[test]
fn tls_flag_is_exactly_capital_y() {
    assert!(flag_enabled("Y"));
    assert!(!flag_enabled("y"));
    assert!(!flag_enabled("N"));
    assert!(!flag_enabled(""));
    assert!(!flag_enabled("YY"));
}
