//! Request handling, task bookkeeping and report rules of the local Overleaf
//! account service, with their contracts proved by Verus.

pub mod text;
pub mod json;
pub mod response;
pub mod errors;
pub mod errors_remote;
pub mod tasks;
pub mod errors_store;
pub mod target;
pub mod credential;
pub mod sessions;
pub mod credential_job;
pub mod browser_states;
pub mod imports;
pub mod routes;
pub mod task_summary;
pub mod task_api;
pub mod registration;
pub mod config;
pub mod ordering;
pub mod runtime;
pub mod skills;
pub mod registration_payment;
pub mod registration_flow;
pub mod import_post_actions;
pub mod registration_session;
pub mod import_batch;
pub mod credential_commit;
pub mod saved_cookie;
pub mod projects;
pub mod account_switch;
pub mod resources;
pub mod credential_batch;
pub mod task_end;
pub mod session_reconcile;
pub mod browser_window;
pub mod credential_wait;
pub mod registration_finish;
pub mod import_recovery;
pub mod trial_eligibility;
pub mod password_plans;
pub mod remote_cleanup;
pub mod existing_trial;
pub mod new_registration;
