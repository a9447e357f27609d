//! A trial on a saved account, step by step: the decisions between loading
//! the account, reading its cookies, checking its eligibility and opening
//! the browser. Each step takes what the previous action found and says
//! what to do next; the registration slot is held for the task and given
//! back whenever the task fails.

use vstd::prelude::*;
use crate::errors::{
    account_secret_store_error_message, account_secret_store_error_response,
    account_secret_store_error_status, account_secret_store_error_text, AccountSecretStoreError,
};
use crate::errors_remote::{
    account_session_error_message, account_session_error_response, account_session_error_text,
    is_account_session_error_response, AccountSessionError,
};
use crate::registration::{
    existing_trial_preflight, existing_trial_preflight_result, ExistingTrialContinuation,
    ExistingTrialEligibilityEvidence,
};
use crate::registration_flow::{
    existing_account_trial_not_eligible, existing_trial_email, existing_trial_session_cookie,
    existing_trial_starts_recovery, is_registration_busy_response, missing_record_email_text,
    not_eligible_text, setback_recoverable, slot_after_release, slot_after_reserve, slot_owner,
    ExistingTrialSetback, RegistrationSlot,
};
use crate::response::{error_response, is_error_response, is_typed_error_response, ApiResponse};
use crate::text::{owned, trimmed};

verus! {

/// Where a trial on a saved account stands.
#[derive(Debug, Clone, Copy, PartialEq, Eq, Structural)]
pub enum ExistingTrialStage {
    /// Waiting for the task to be started.
    StartingTask,
    /// Waiting for the saved account's record.
    LoadingAccount,
    /// Waiting for the account's saved cookies.
    ResolvingCookies,
    /// Waiting for the eligibility check.
    CheckingEligibility,
    /// Waiting for the browser login and its session check.
    OpeningBrowser,
    /// Nothing more to decide here.
    Finished,
}

/// What the eligibility check of the account gave.
pub enum EligibilityOutcome {
    /// The account's eligibility evidence.
    Checked(ExistingTrialEligibilityEvidence),
    /// Overleaf refused the session; whether a fresh login can mend it.
    Refused { error: AccountSessionError, requires_cookie_recovery: bool },
    /// The check could not run; the answer to give.
    Unavailable(ApiResponse),
}

/// What to do next.
pub enum ExistingTrialAction {
    /// Start the task under `task_name`, locking the alias.
    StartTask { task_name: String },
    /// Load the saved account's record.
    LoadAccount,
    /// Read the account's saved cookies.
    ResolveCookies,
    /// Check the account's trial eligibility with its session cookie.
    CheckEligibility { session_cookie: String },
    /// Log in in the browser with the session cookie, then check the session.
    OpenBrowser {
        email: String,
        session_cookie: String,
        continuation: Option<ExistingTrialContinuation>,
    },
    /// Hand the trial to a cookie recovery (a fresh login, then the trial).
    StartCookieRecovery,
    /// Fail the task with `message` and answer `response`.
    FailTask { message: String, response: ApiResponse },
    /// Answer `response`; the task is left as it is.
    Respond(ApiResponse),
    /// The browser session is ready: go on with the trial as `continuation`
    /// says (the purchase page decides when it is `None`).
    Continue { continuation: Option<ExistingTrialContinuation> },
}

/// A trial on the saved account `alias`, run as task `task_id`;
/// `initialize_task` says whether this request starts the task (and may
/// hand it to a cookie recovery) or resumes it.
pub struct ExistingTrialRun {
    pub task_id: String,
    pub alias: String,
    pub initialize_task: bool,
    pub stage: ExistingTrialStage,
    pub email: Option<String>,
    pub session_cookie: Option<String>,
    pub continuation: Option<ExistingTrialContinuation>,
}

/// The name of the task of a trial on a saved account.
pub open spec fn existing_trial_task_name() -> Seq<char> {
    "已有账号开通试用"@
}

/// The answer to a trial request without a task id.
pub open spec fn missing_task_id_text() -> Seq<char> {
    "existing account trial requires task_id"@
}

/// The answer when no browser automation is configured.
pub open spec fn browser_not_configured_text() -> Seq<char> {
    "browser automation is not configured"@
}

/// `after` is `before` moved on: the same task, alias and mode.
pub open spec fn same_trial(after: ExistingTrialRun, before: ExistingTrialRun) -> bool {
    &&& after.task_id == before.task_id
    &&& after.alias == before.alias
    &&& after.initialize_task == before.initialize_task
}

/// The step failed the task with `message`: the run is finished and the
/// slot released for the task.
pub open spec fn fails_with(
    after: ExistingTrialRun,
    before: ExistingTrialRun,
    slot_after: RegistrationSlot,
    slot_before: RegistrationSlot,
    a: ExistingTrialAction,
    message: Seq<char>,
) -> bool {
    &&& same_trial(after, before)
    &&& after.stage == ExistingTrialStage::Finished
    &&& slot_owner(slot_after) == slot_after_release(slot_owner(slot_before), before.task_id@)
    &&& (a matches ExistingTrialAction::FailTask { message: m, .. } && m@ == message)
}

/// The response a failing action answers with.
pub open spec fn failure_response(a: ExistingTrialAction) -> ApiResponse
    recommends
        a is FailTask,
{
    a->response
}

/// The step handed the trial to a cookie recovery: the slot stays held.
pub open spec fn hands_to_recovery(
    after: ExistingTrialRun,
    before: ExistingTrialRun,
    slot_after: RegistrationSlot,
    slot_before: RegistrationSlot,
    a: ExistingTrialAction,
) -> bool {
    &&& same_trial(after, before)
    &&& after.stage == ExistingTrialStage::Finished
    &&& slot_after == slot_before
    &&& a is StartCookieRecovery
}

/// The step moved on to `stage` without touching the slot.
pub open spec fn moves_to(
    after: ExistingTrialRun,
    before: ExistingTrialRun,
    slot_after: RegistrationSlot,
    slot_before: RegistrationSlot,
    stage: ExistingTrialStage,
) -> bool {
    &&& same_trial(after, before)
    &&& after.stage == stage
    &&& slot_after == slot_before
}

/// The setback of a failed secret read.
pub open spec fn secret_setback(e: AccountSecretStoreError) -> ExistingTrialSetback {
    if e is Missing {
        ExistingTrialSetback::SecretsMissing
    } else {
        ExistingTrialSetback::SecretsUnreadable
    }
}

/// The views of an optional text.
pub open spec fn opt_view(o: Option<String>) -> Option<Seq<char>> {
    match o {
        Some(s) => Some(s@),
        None => None,
    }
}

impl ExistingTrialRun {
    /// Starts a trial on the saved account `alias`. Without a task id it is
    /// refused with 400 and nothing changes. A request that starts the task
    /// takes the registration slot first (a busy slot refuses it with 409)
    /// and then starts the task; one that resumes its task loads the account
    /// at once.
    pub fn begin(slot: &mut RegistrationSlot, task_id: Option<String>, alias: &str, initialize_task: bool) -> (r: Result<
        (ExistingTrialRun, ExistingTrialAction),
        ApiResponse,
    >)
        ensures
            task_id is None ==> (r matches Err(e) && is_error_response(e, 400, missing_task_id_text())
                && *final(slot) == *old(slot)),
            (task_id is Some && initialize_task && slot_owner(*old(slot)) is Some) ==> (r matches Err(e)
                && is_registration_busy_response(e) && slot_owner(*final(slot)) == slot_owner(*old(slot))),
            (task_id is Some && initialize_task && slot_owner(*old(slot)) is None) ==> (r matches Ok((run, a))
                && Some(run.task_id) == task_id && run.alias@ == alias@ && run.initialize_task
                && run.stage == ExistingTrialStage::StartingTask && run.email is None
                && run.session_cookie is None && run.continuation is None
                && (a matches ExistingTrialAction::StartTask { task_name } && task_name@ == existing_trial_task_name())
                && slot_owner(*final(slot)) == slot_after_reserve(slot_owner(*old(slot)), run.task_id@)),
            (task_id is Some && !initialize_task) ==> (r matches Ok((run, a)) && Some(run.task_id) == task_id
                && run.alias@ == alias@ && !run.initialize_task
                && run.stage == ExistingTrialStage::LoadingAccount && run.email is None
                && run.session_cookie is None && run.continuation is None
                && a is LoadAccount && *final(slot) == *old(slot)),
    {
        let task_id = match task_id {
            Some(t) => t,
            None => return Err(error_response(400, "existing account trial requires task_id")),
        };
        let mut run = ExistingTrialRun {
            task_id,
            alias: owned(alias),
            initialize_task,
            stage: ExistingTrialStage::LoadingAccount,
            email: None,
            session_cookie: None,
            continuation: None,
        };
        if initialize_task {
            match slot.reserve(run.task_id.as_str()) {
                Ok(()) => {},
                Err(e) => return Err(e),
            }
            run.stage = ExistingTrialStage::StartingTask;
            Ok((run, ExistingTrialAction::StartTask { task_name: owned("已有账号开通试用") }))
        } else {
            Ok((run, ExistingTrialAction::LoadAccount))
        }
    }

    fn fail(&mut self, slot: &mut RegistrationSlot, message: String, response: ApiResponse) -> (r: ExistingTrialAction)
        ensures
            same_trial(*final(self), *old(self)),
            final(self).stage == ExistingTrialStage::Finished,
            final(self).email == old(self).email,
            final(self).session_cookie == old(self).session_cookie,
            slot_owner(*final(slot)) == slot_after_release(slot_owner(*old(slot)), old(self).task_id@),
            r == (ExistingTrialAction::FailTask { message, response }),
    {
        slot.release(self.task_id.as_str());
        self.stage = ExistingTrialStage::Finished;
        ExistingTrialAction::FailTask { message, response }
    }

    /// The task was started, or refused with `Err`: a refused start gives the
    /// slot back and answers the refusal, leaving the task alone.
    pub fn task_started(&mut self, slot: &mut RegistrationSlot, started: Result<(), ApiResponse>) -> (r: ExistingTrialAction)
        requires
            old(self).stage == ExistingTrialStage::StartingTask,
        ensures
            started is Ok ==> (moves_to(*final(self), *old(self), *final(slot), *old(slot), ExistingTrialStage::LoadingAccount)
                && r is LoadAccount),
            started matches Err(e) ==> (same_trial(*final(self), *old(self))
                && final(self).stage == ExistingTrialStage::Finished
                && slot_owner(*final(slot)) == slot_after_release(slot_owner(*old(slot)), old(self).task_id@)
                && r == ExistingTrialAction::Respond(e)),
    {
        match started {
            Ok(()) => {
                self.stage = ExistingTrialStage::LoadingAccount;
                ExistingTrialAction::LoadAccount
            },
            Err(e) => {
                slot.release(self.task_id.as_str());
                self.stage = ExistingTrialStage::Finished;
                ExistingTrialAction::Respond(e)
            },
        }
    }

    /// The account store was read: `Err` with the answer when it could not
    /// be, `Ok(None)` when the alias has no record, `Ok(Some(email))` with
    /// the record's e-mail. A failed read, a missing record and a record
    /// without e-mail fail the task; otherwise the cookies are read next.
    pub fn account_loaded(&mut self, slot: &mut RegistrationSlot, loaded: Result<Option<Option<String>>, ApiResponse>) -> (r: ExistingTrialAction)
        requires
            old(self).stage == ExistingTrialStage::LoadingAccount,
        ensures
            loaded matches Err(e) ==> (fails_with(*final(self), *old(self), *final(slot), *old(slot), r, e.body@)
                && failure_response(r) == e),
            loaded matches Ok(None) ==> ({
                let err = AccountSessionError::AccountAliasNotFound { alias: old(self).alias };
                fails_with(*final(self), *old(self), *final(slot), *old(slot), r, account_session_error_text(err))
                    && is_account_session_error_response(failure_response(r), err)
            }),
            loaded matches Ok(Some(email)) ==> (if email matches Some(e) && trimmed(e@).len() > 0 {
                moves_to(*final(self), *old(self), *final(slot), *old(slot), ExistingTrialStage::ResolvingCookies)
                    && (final(self).email matches Some(x) && x@ == trimmed(email->0@))
                    && r is ResolveCookies
            } else {
                fails_with(*final(self), *old(self), *final(slot), *old(slot), r, missing_record_email_text(old(self).alias@))
                    && is_error_response(failure_response(r), 400, missing_record_email_text(old(self).alias@))
            }),
    {
        match loaded {
            Err(e) => {
                let message = owned(e.body.as_str());
                self.fail(slot, message, e)
            },
            Ok(None) => {
                let err = AccountSessionError::AccountAliasNotFound { alias: owned(self.alias.as_str()) };
                let message = account_session_error_message(&err);
                let response = account_session_error_response(err);
                self.fail(slot, message, response)
            },
            Ok(Some(email)) => {
                let checked = match &email {
                    Some(e) => existing_trial_email(self.alias.as_str(), Some(e.as_str())),
                    None => existing_trial_email(self.alias.as_str(), None),
                };
                match checked {
                    Ok(x) => {
                        self.email = Some(x);
                        self.stage = ExistingTrialStage::ResolvingCookies;
                        ExistingTrialAction::ResolveCookies
                    },
                    Err(m) => {
                        let response = error_response(400, m.as_str());
                        self.fail(slot, m, response)
                    },
                }
            },
        }
    }

    /// The account's saved cookies were read: `Ok` with the session cookie's
    /// value where the saved cookies hold one, `Err` when the secret store
    /// failed. Missing secrets or a missing (or blank) session cookie hand
    /// the trial to a cookie recovery when this request started the task;
    /// every other failure fails the task. A session cookie moves on to the
    /// eligibility check with the cookie trimmed.
    pub fn cookies_resolved(&mut self, slot: &mut RegistrationSlot, resolved: Result<Option<String>, AccountSecretStoreError>) -> (r: ExistingTrialAction)
        requires
            old(self).stage == ExistingTrialStage::ResolvingCookies,
        ensures
            resolved matches Err(e) ==> (if old(self).initialize_task && setback_recoverable(secret_setback(e)) {
                hands_to_recovery(*final(self), *old(self), *final(slot), *old(slot), r)
            } else {
                fails_with(*final(self), *old(self), *final(slot), *old(slot), r, account_secret_store_error_text(e))
                    && is_error_response(failure_response(r), account_secret_store_error_status(e), account_secret_store_error_text(e))
            }),
            resolved matches Ok(value) ==> (if value matches Some(v) && trimmed(v@).len() > 0 {
                moves_to(*final(self), *old(self), *final(slot), *old(slot), ExistingTrialStage::CheckingEligibility)
                    && final(self).email == old(self).email
                    && (final(self).session_cookie matches Some(c) && c@ == trimmed(value->0@))
                    && (r matches ExistingTrialAction::CheckEligibility { session_cookie } && session_cookie@ == trimmed(value->0@))
            } else if old(self).initialize_task {
                hands_to_recovery(*final(self), *old(self), *final(slot), *old(slot), r)
            } else {
                let err = AccountSessionError::MissingCookies { alias: old(self).alias };
                fails_with(*final(self), *old(self), *final(slot), *old(slot), r, account_session_error_text(err))
                    && is_account_session_error_response(failure_response(r), err)
            }),
    {
        match resolved {
            Err(e) => {
                let setback = match &e {
                    AccountSecretStoreError::Missing { .. } => ExistingTrialSetback::SecretsMissing,
                    _ => ExistingTrialSetback::SecretsUnreadable,
                };
                if existing_trial_starts_recovery(self.initialize_task, setback) {
                    self.stage = ExistingTrialStage::Finished;
                    ExistingTrialAction::StartCookieRecovery
                } else {
                    let message = account_secret_store_error_message(&e);
                    let response = account_secret_store_error_response(e);
                    self.fail(slot, message, response)
                }
            },
            Ok(value) => {
                let cookie = match &value {
                    Some(v) => existing_trial_session_cookie(Some(v.as_str())),
                    None => existing_trial_session_cookie(None),
                };
                match cookie {
                    Some(c) => {
                        let sent = owned(c.as_str());
                        self.session_cookie = Some(c);
                        self.stage = ExistingTrialStage::CheckingEligibility;
                        ExistingTrialAction::CheckEligibility { session_cookie: sent }
                    },
                    None => {
                        if existing_trial_starts_recovery(self.initialize_task, ExistingTrialSetback::SessionCookieMissing) {
                            self.stage = ExistingTrialStage::Finished;
                            ExistingTrialAction::StartCookieRecovery
                        } else {
                            let err = AccountSessionError::MissingCookies { alias: owned(self.alias.as_str()) };
                            let message = account_session_error_message(&err);
                            let response = account_session_error_response(err);
                            self.fail(slot, message, response)
                        }
                    },
                }
            },
        }
    }

    /// The eligibility check answered. A check that could not run fails the
    /// task with its answer; a refused session goes to a cookie recovery
    /// where this request started the task and a fresh login can mend it,
    /// and fails the task otherwise. An account that the preflight refuses
    /// fails its task with 409 `trial_not_eligible` and no browser is
    /// opened; without browser automation the task fails with 503; otherwise
    /// the browser logs in with the saved e-mail and session cookie.
    pub fn eligibility_checked(&mut self, slot: &mut RegistrationSlot, outcome: EligibilityOutcome, browser_configured: bool) -> (r: ExistingTrialAction)
        requires
            old(self).stage == ExistingTrialStage::CheckingEligibility,
            old(self).email is Some,
            old(self).session_cookie is Some,
        ensures
            outcome matches EligibilityOutcome::Unavailable(e) ==> (fails_with(*final(self), *old(self), *final(slot), *old(slot), r, e.body@)
                && failure_response(r) == e),
            outcome matches EligibilityOutcome::Refused { error, requires_cookie_recovery } ==> (
                if old(self).initialize_task && requires_cookie_recovery {
                    hands_to_recovery(*final(self), *old(self), *final(slot), *old(slot), r)
                } else {
                    fails_with(*final(self), *old(self), *final(slot), *old(slot), r, account_session_error_text(error))
                        && is_account_session_error_response(failure_response(r), error)
                }),
            outcome matches EligibilityOutcome::Checked(ev) ==> (match existing_trial_preflight_result(ev) {
                Err(eligibility) => fails_with(*final(self), *old(self), *final(slot), *old(slot), r, not_eligible_text(old(self).alias@, eligibility))
                    && is_typed_error_response(failure_response(r), 409, not_eligible_text(old(self).alias@, eligibility), "trial_not_eligible"@)
                    && !(r is OpenBrowser),
                Ok(continuation) => if !browser_configured {
                    fails_with(*final(self), *old(self), *final(slot), *old(slot), r, browser_not_configured_text())
                        && is_error_response(failure_response(r), 503, browser_not_configured_text())
                } else {
                    moves_to(*final(self), *old(self), *final(slot), *old(slot), ExistingTrialStage::OpeningBrowser)
                        && final(self).email == old(self).email
                        && final(self).session_cookie == old(self).session_cookie
                        && final(self).continuation == continuation
                        && (r matches ExistingTrialAction::OpenBrowser { email, session_cookie, continuation: c }
                            && Some(email@) == opt_view(old(self).email)
                            && Some(session_cookie@) == opt_view(old(self).session_cookie)
                            && c == continuation)
                },
            }),
    {
        match outcome {
            EligibilityOutcome::Unavailable(e) => {
                let message = owned(e.body.as_str());
                self.fail(slot, message, e)
            },
            EligibilityOutcome::Refused { error, requires_cookie_recovery } => {
                if existing_trial_starts_recovery(
                    self.initialize_task,
                    ExistingTrialSetback::SessionRefused { requires_cookie_recovery },
                ) {
                    self.stage = ExistingTrialStage::Finished;
                    ExistingTrialAction::StartCookieRecovery
                } else {
                    let message = account_session_error_message(&error);
                    let response = account_session_error_response(error);
                    self.fail(slot, message, response)
                }
            },
            EligibilityOutcome::Checked(ev) => {
                match existing_trial_preflight(&ev) {
                    Err(eligibility) => {
                        let (message, response) = existing_account_trial_not_eligible(self.alias.as_str(), eligibility);
                        self.fail(slot, message, response)
                    },
                    Ok(continuation) => {
                        if !browser_configured {
                            let response = error_response(503, "browser automation is not configured");
                            self.fail(slot, owned("browser automation is not configured"), response)
                        } else {
                            let email = match &self.email {
                                Some(e) => owned(e.as_str()),
                                None => String::new(),
                            };
                            let session_cookie = match &self.session_cookie {
                                Some(c) => owned(c.as_str()),
                                None => String::new(),
                            };
                            self.continuation = continuation;
                            self.stage = ExistingTrialStage::OpeningBrowser;
                            ExistingTrialAction::OpenBrowser { email, session_cookie, continuation }
                        }
                    },
                }
            },
        }
    }

    /// The browser logged in and the session was checked; `Err` holds the
    /// refusal and whether a fresh login can mend it (the browser session is
    /// closed then). A mendable refusal goes to a cookie recovery where this
    /// request started the task; another fails the task; a checked session
    /// goes on with the trial.
    pub fn session_checked(&mut self, slot: &mut RegistrationSlot, checked: Result<(), (AccountSessionError, bool)>) -> (r: ExistingTrialAction)
        requires
            old(self).stage == ExistingTrialStage::OpeningBrowser,
        ensures
            checked is Ok ==> (moves_to(*final(self), *old(self), *final(slot), *old(slot), ExistingTrialStage::Finished)
                && r == ExistingTrialAction::Continue { continuation: old(self).continuation }),
            checked matches Err((error, recoverable)) ==> (if old(self).initialize_task && recoverable {
                hands_to_recovery(*final(self), *old(self), *final(slot), *old(slot), r)
            } else {
                fails_with(*final(self), *old(self), *final(slot), *old(slot), r, account_session_error_text(error))
                    && is_account_session_error_response(failure_response(r), error)
            }),
    {
        match checked {
            Ok(()) => {
                self.stage = ExistingTrialStage::Finished;
                ExistingTrialAction::Continue { continuation: self.continuation }
            },
            Err((error, recoverable)) => {
                if existing_trial_starts_recovery(
                    self.initialize_task,
                    ExistingTrialSetback::SessionRefused { requires_cookie_recovery: recoverable },
                ) {
                    self.stage = ExistingTrialStage::Finished;
                    ExistingTrialAction::StartCookieRecovery
                } else {
                    let message = account_session_error_message(&error);
                    let response = account_session_error_response(error);
                    self.fail(slot, message, response)
                }
            },
        }
    }
}

} // verus!
