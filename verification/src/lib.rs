//! Verified core of a client session subsystem.
//!
//! The library models the pieces that keep a client's session consistent
//! with asynchronous, possibly-failing network calls: durable token
//! persistence ([`TokenStore`]), a single shared "current user" cell
//! ([`SessionContext`]), a classifier turning failed calls into recovery
//! actions ([`classify`]), the startup bootstrapper
//! ([`SessionBootstrapper`]), and the credential and confirmation-link
//! flows ([`LoginFlow`], [`RegisterFlow`], [`RegisterWithConfirmationFlow`],
//! [`RequestLinkFlow`], [`SettingsFlow`]).
//!
//! Every state change is a verified function from the current state and an
//! incoming event to the next state plus an ordered list of [`Command`]s —
//! storage write-throughs, navigation, network requests — for an unverified
//! shell to carry out.  The shell performs a command, hands the outcome
//! back as an event, and the contracts here pin down what each transition
//! does with it.

mod async_task;
mod bootstrap;
mod classify;
mod command;
mod config;
mod confirmation;
mod error;
mod login;
mod model;
mod register;
mod register_with_id;
mod server_api;
mod session;
mod settings;
mod text;
mod token_store;
mod ui;

pub use async_task::AsyncTask;
pub use async_task::TaskState;
pub use bootstrap::BootstrapState;
pub use bootstrap::Phase;
pub use bootstrap::SessionBootstrapper;
pub use bootstrap::clears_session;
pub use bootstrap::fetch_error_commands;
pub use bootstrap::lemma_bootstrap_stale_token;
pub use bootstrap::lemma_bootstrap_valid_token;
pub use bootstrap::lemma_bootstrap_without_token;
pub use classify::Classification;
pub use classify::Role;
pub use classify::classify;
pub use classify::duplicate_marker;
pub use classify::ends_with;
pub use classify::has_duplicate_marker;
pub use classify::spec_classify;
pub use command::Command;
pub use command::count_fetches;
pub use command::count_navigations;
pub use config::all_digits;
pub use config::digit_val;
pub use config::digits_val;
pub use config::flag_enabled;
pub use config::is_digit;
pub use config::parse_port;
pub use confirmation::ConfirmationLinkFlow;
pub use confirmation::RequestLinkFlow;
pub use error::AppError;
pub use error::AppErrorView;
pub use login::LoginFlow;
pub use model::ConfirmationLink;
pub use model::ConfirmationType;
pub use model::LoginInfo;
pub use model::RegisterInfo;
pub use model::SendConfirmationLink;
pub use model::UpdateUser;
pub use model::UserInfo;
pub use model::UserView;
pub use model::anonymous_user;
pub use model::is_anonymous_user;
pub use register::RegisterFlow;
pub use register_with_id::RegisterWithConfirmationFlow;
pub use server_api::CreateUserRequest;
pub use server_api::NewUser;
pub use session::SessionContext;
pub use session::lemma_logout_idempotent;
pub use settings::SettingsFlow;
pub use text::is_space;
pub use text::trim;
pub use text::trim_back;
pub use text::trim_front;
pub use text::trimmed;
pub use token_store::TokenStore;
pub use token_store::chars_of;
pub use token_store::lemma_store_last_write_wins;
pub use ui::ButtonType;
pub use ui::HeaderButtonProps;
