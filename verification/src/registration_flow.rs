//! How a registration request is routed and checked before any browser is
//! opened, and the single slot that lets one registration run at a time.

use vstd::prelude::*;
use crate::errors_remote::{
    account_registration_error_response, account_registration_error_status,
    account_registration_error_text, AccountRegistrationError,
};
use crate::registration::{is_card_bin, normalize_registration_card_bin, TrialEligibility};
use crate::response::{
    error_response, is_error_response, is_typed_error_response, typed_error_response, ApiResponse,
};
use crate::task_api::{normalized_optional, normalized_optional_text};
use crate::text::{concat2, concat3, is_empty_text, owned, text_eq, trim, trimmed};

verus! {

// ---------------------------------------------------------------------------
// The registration slot

/// The task that holds the registration slot, if any.
pub struct RegistrationSlot {
    pub owner: Option<String>,
}

pub open spec fn slot_owner(s: RegistrationSlot) -> Option<Seq<char>> {
    match s.owner {
        Some(o) => Some(o@),
        None => None,
    }
}

/// The answer when another registration holds the slot.
pub open spec fn is_registration_busy_response(r: ApiResponse) -> bool {
    is_typed_error_response(r, 409, "已有注册任务正在运行，请等待其完成或取消"@, "registration_busy"@)
}

impl RegistrationSlot {
    pub fn new() -> (r: RegistrationSlot)
        ensures
            slot_owner(r) is None,
    {
        RegistrationSlot { owner: None }
    }

    /// Takes the slot for `task_id` when it is free; refuses with 409 when
    /// any task holds it, the same one included.
    pub fn reserve(&mut self, task_id: &str) -> (r: Result<(), ApiResponse>)
        ensures
            slot_owner(*final(self)) == slot_after_reserve(slot_owner(*old(self)), task_id@),
            slot_owner(*old(self)) is None <==> r is Ok,
            r matches Err(e) ==> is_registration_busy_response(e),
    {
        if self.owner.is_some() {
            return Err(typed_error_response(409, "已有注册任务正在运行，请等待其完成或取消", "registration_busy"));
        }
        self.owner = Some(owned(task_id));
        Ok(())
    }

    /// Frees the slot when `task_id` holds it; otherwise leaves it alone.
    pub fn release(&mut self, task_id: &str)
        ensures
            slot_owner(*final(self)) == slot_after_release(slot_owner(*old(self)), task_id@),
    {
        let held = match &self.owner {
            Some(o) => text_eq(o.as_str(), task_id),
            None => false,
        };
        if held {
            self.owner = None;
        }
    }
}

/// A registration that reserved the slot and then released it leaves the
/// slot free; one refused while another task holds the slot leaves that
/// task holding it, whatever the refused one then releases.
pub proof fn registration_slot_is_exclusive(owner: Option<Seq<char>>, task: Seq<char>, other: Seq<char>)
    requires
        task != other,
    ensures
        owner is None ==> slot_after_release(slot_after_reserve(owner, task), task) is None,
        owner == Some(other) ==> slot_after_release(slot_after_reserve(owner, task), task) == Some(other),
{
}

/// The slot's owner after a reservation by `task`.
pub open spec fn slot_after_reserve(owner: Option<Seq<char>>, task: Seq<char>) -> Option<Seq<char>> {
    if owner is None {
        Some(task)
    } else {
        owner
    }
}

/// The slot's owner after `task` releases it.
pub open spec fn slot_after_release(owner: Option<Seq<char>>, task: Seq<char>) -> Option<Seq<char>> {
    if owner == Some(task) {
        None
    } else {
        owner
    }
}

// ---------------------------------------------------------------------------
// Routing a registration request

/// How an existing account logs in to start its trial.
#[derive(Debug, Clone, Copy, PartialEq, Eq, Structural)]
pub enum ExistingTrialLoginSource {
    Alias,
    Credentials,
    Cookie,
}

/// What a registration request names, as the routing reads it.
pub struct RegistrationStartRequest {
    pub alias: Option<String>,
    pub existing_alias: Option<String>,
    pub existing_login_source: Option<ExistingTrialLoginSource>,
    pub trial_days: u32,
    pub card_bin: String,
    pub task_id: Option<String>,
}

/// Where a registration request goes.
pub enum RegistrationRoute {
    /// Start a trial on the saved account `alias`.
    ExistingAlias { alias: String },
    /// Start a trial on an account given by its session cookie.
    ExistingCookie,
    /// Start a trial on an account given by its e-mail and password.
    ExistingCredentials,
    /// Register a new account.
    NewAccount,
}

/// A routed request: its task id and card BIN, normalized, and its route.
pub struct RoutedRegistration {
    pub task_id: Option<String>,
    pub card_bin: Option<String>,
    pub route: RegistrationRoute,
}

/// The card BIN after trimming: `None` when empty, the digits when six.
pub open spec fn card_bin_of(value: Seq<char>) -> Option<Seq<char>> {
    if trimmed(value).len() == 0 {
        None
    } else {
        Some(trimmed(value))
    }
}

/// The route a valid request takes: the login source decides; without one,
/// a saved alias starts a trial on it, and anything else registers anew.
pub open spec fn route_of(req: RegistrationStartRequest) -> Option<RegistrationRouteKind> {
    match req.existing_login_source {
        Some(ExistingTrialLoginSource::Alias) => match normalized_optional(req.existing_alias) {
            Some(a) => Some(RegistrationRouteKind::ExistingAlias(a)),
            None => None,
        },
        Some(ExistingTrialLoginSource::Cookie) => Some(RegistrationRouteKind::ExistingCookie),
        Some(ExistingTrialLoginSource::Credentials) => Some(RegistrationRouteKind::ExistingCredentials),
        None => match normalized_optional(req.existing_alias) {
            Some(a) => Some(RegistrationRouteKind::ExistingAlias(a)),
            None => Some(RegistrationRouteKind::NewAccount),
        },
    }
}

pub enum RegistrationRouteKind {
    ExistingAlias(Seq<char>),
    ExistingCookie,
    ExistingCredentials,
    NewAccount,
}

pub open spec fn route_kind(r: RegistrationRoute) -> RegistrationRouteKind {
    match r {
        RegistrationRoute::ExistingAlias { alias } => RegistrationRouteKind::ExistingAlias(alias@),
        RegistrationRoute::ExistingCookie => RegistrationRouteKind::ExistingCookie,
        RegistrationRoute::ExistingCredentials => RegistrationRouteKind::ExistingCredentials,
        RegistrationRoute::NewAccount => RegistrationRouteKind::NewAccount,
    }
}

/// Checks a registration request and decides where it goes: the trial
/// length must be 7 or 21 days, the card BIN empty or six digits, and an
/// alias login must name the alias.
pub fn registration_route(req: RegistrationStartRequest) -> (r: Result<RoutedRegistration, ApiResponse>)
    ensures
        !(req.trial_days == 7 || req.trial_days == 21) ==> (r matches Err(e) && is_error_response(
            e,
            400,
            account_registration_error_text(AccountRegistrationError::InvalidTrialDays { trial_days: req.trial_days }),
        )),
        (req.trial_days == 7 || req.trial_days == 21) && trimmed(req.card_bin@).len() > 0 && !is_card_bin(trimmed(req.card_bin@))
            ==> (r matches Err(e) && is_typed_error_response(e, 400, "card_bin must be empty or exactly six digits"@, "invalid_card_bin"@)),
        (req.trial_days == 7 || req.trial_days == 21) && (trimmed(req.card_bin@).len() == 0 || is_card_bin(trimmed(req.card_bin@)))
            && route_of(req) is None ==> (r matches Err(e) && is_error_response(e, 400, "missing existing_alias"@)),
        (req.trial_days == 7 || req.trial_days == 21) && (trimmed(req.card_bin@).len() == 0 || is_card_bin(trimmed(req.card_bin@)))
            && route_of(req) is Some ==> (r matches Ok(x) && route_of(req) == Some(route_kind(x.route))
                && (match x.task_id { Some(t) => Some(t@), None => None }) == normalized_optional(req.task_id)
                && (match x.card_bin { Some(b) => Some(b@), None => None }) == card_bin_of(req.card_bin@)),
{
    let ghost initial = req;
    let RegistrationStartRequest { alias: _, existing_alias, existing_login_source, trial_days, card_bin, task_id } = req;
    let task_id = normalized_optional_text(task_id);
    if !(trial_days == 7 || trial_days == 21) {
        return Err(account_registration_error_response(AccountRegistrationError::InvalidTrialDays { trial_days }));
    }
    let card_bin = match normalize_registration_card_bin(card_bin.as_str()) {
        Ok(b) => b,
        Err(e) => {
            return Err(e);
        },
    };
    let existing = normalized_optional_text(existing_alias);
    let route = match existing_login_source {
        Some(ExistingTrialLoginSource::Alias) => match existing {
            Some(a) => RegistrationRoute::ExistingAlias { alias: a },
            None => {
                return Err(error_response(400, "missing existing_alias"));
            },
        },
        Some(ExistingTrialLoginSource::Cookie) => RegistrationRoute::ExistingCookie,
        Some(ExistingTrialLoginSource::Credentials) => RegistrationRoute::ExistingCredentials,
        None => match existing {
            Some(a) => RegistrationRoute::ExistingAlias { alias: a },
            None => RegistrationRoute::NewAccount,
        },
    };
    Ok(RoutedRegistration { task_id, card_bin, route })
}

// ---------------------------------------------------------------------------
// Checks of the trials on existing accounts

/// A trial on an existing account runs as a task: without a task id it is
/// refused with `message`.
pub fn require_task_id(task_id: Option<String>, message: &str) -> (r: Result<String, ApiResponse>)
    ensures
        task_id is None <==> r is Err,
        r matches Ok(t) ==> task_id == Some(t),
        r matches Err(e) ==> is_error_response(e, 400, message@),
{
    match task_id {
        Some(t) => Ok(t),
        None => Err(error_response(400, message)),
    }
}

/// What a trial with e-mail and password, or with a session cookie, starts
/// from once checked: the trimmed e-mail and secret and the alias hint.
pub struct ExistingTrialLogin {
    pub email: String,
    pub secret: String,
    pub alias_hint: Option<String>,
}

pub open spec fn login_fields_match(r: ExistingTrialLogin, email: Seq<char>, secret: Seq<char>, alias_hint: Option<String>) -> bool {
    &&& r.email@ == trimmed(email)
    &&& (match r.alias_hint { Some(a) => Some(a@), None => None }) == normalized_optional(alias_hint)
}

/// Checks a trial on an account given by e-mail and password: both must
/// be present after trimming; the password itself is kept as given.
pub fn check_existing_credentials_trial(alias_hint: Option<String>, email: &str, password: &str) -> (r: Result<
    ExistingTrialLogin,
    ApiResponse,
>)
    ensures
        trimmed(email@).len() == 0 ==> (r matches Err(e) && is_error_response(e, 400, "missing email"@)),
        trimmed(email@).len() > 0 && trimmed(password@).len() == 0 ==> (r matches Err(e) && is_error_response(e, 400, "missing password"@)),
        trimmed(email@).len() > 0 && trimmed(password@).len() > 0 ==> (r matches Ok(x)
            && login_fields_match(x, email@, password@, alias_hint) && x.secret@ == password@),
{
    let e = trim(email);
    if is_empty_text(e.as_str()) {
        let r = account_registration_error_response(AccountRegistrationError::MissingEmail);
        assert(account_registration_error_text(AccountRegistrationError::MissingEmail) == "missing email"@);
        return Err(r);
    }
    let p = trim(password);
    if is_empty_text(p.as_str()) {
        let r = account_registration_error_response(AccountRegistrationError::MissingPassword);
        assert(account_registration_error_text(AccountRegistrationError::MissingPassword) == "missing password"@);
        return Err(r);
    }
    Ok(ExistingTrialLogin { email: e, secret: owned(password), alias_hint: normalized_optional_text(alias_hint) })
}

/// Checks a trial on an account given by e-mail and session cookie: both
/// must be present after trimming, and the cookie is kept trimmed.
pub fn check_existing_cookie_trial(alias_hint: Option<String>, email: &str, session_cookie: &str) -> (r: Result<
    ExistingTrialLogin,
    ApiResponse,
>)
    ensures
        trimmed(email@).len() == 0 ==> (r matches Err(e) && is_error_response(e, 400, "missing email"@)),
        trimmed(email@).len() > 0 && trimmed(session_cookie@).len() == 0 ==> (r matches Err(e)
            && is_typed_error_response(e, 400, "missing overleaf_session2 Cookie"@, "invalid_session_cookie"@)),
        trimmed(email@).len() > 0 && trimmed(session_cookie@).len() > 0 ==> (r matches Ok(x)
            && login_fields_match(x, email@, session_cookie@, alias_hint) && x.secret@ == trimmed(session_cookie@)),
{
    let e = trim(email);
    let c = trim(session_cookie);
    if is_empty_text(e.as_str()) {
        let r = account_registration_error_response(AccountRegistrationError::MissingEmail);
        assert(account_registration_error_text(AccountRegistrationError::MissingEmail) == "missing email"@);
        return Err(r);
    }
    if is_empty_text(c.as_str()) {
        return Err(typed_error_response(400, "missing overleaf_session2 Cookie", "invalid_session_cookie"));
    }
    Ok(ExistingTrialLogin { email: e, secret: c, alias_hint: normalized_optional_text(alias_hint) })
}

/// The answer when the e-mail of a trial is saved already, as `existing`.
pub fn existing_account_already_saved_response(existing: &str) -> (r: ApiResponse)
    ensures
        is_typed_error_response(r, 409, "邮箱已保存为账号 "@ + existing@ + "，请改用账号别名来源"@, "existing_account_already_saved"@),
{
    let m = concat3("邮箱已保存为账号 ", existing, "，请改用账号别名来源");
    typed_error_response(409, m.as_str(), "existing_account_already_saved")
}

/// Why an account that cannot start a trial is refused.
pub open spec fn not_eligible_text(alias: Seq<char>, eligibility: TrialEligibility) -> Seq<char> {
    match eligibility {
        TrialEligibility::ActiveTrial => "账号 "@ + alias + " 已处于试用中"@,
        TrialEligibility::Ineligible => "账号 "@ + alias + " 没有可用试用资格"@,
        _ => "无法确认账号 "@ + alias + " 的试用资格，已停止购买"@,
    }
}

/// The message that fails the task and the 409 answer for an account that
/// cannot start a trial; an eligible account never gets here.
pub fn existing_account_trial_not_eligible(alias: &str, eligibility: TrialEligibility) -> (r: (String, ApiResponse))
    requires
        !(eligibility is Eligible),
    ensures
        r.0@ == not_eligible_text(alias@, eligibility),
        is_typed_error_response(r.1, 409, r.0@, "trial_not_eligible"@),
{
    let m = match eligibility {
        TrialEligibility::ActiveTrial => concat3("账号 ", alias, " 已处于试用中"),
        TrialEligibility::Ineligible => concat3("账号 ", alias, " 没有可用试用资格"),
        _ => concat3("无法确认账号 ", alias, " 的试用资格，已停止购买"),
    };
    let resp = typed_error_response(409, m.as_str(), "trial_not_eligible");
    (m, resp)
}

/// The log line when an existing account's cookie has expired: whether a
/// saved password can recover the login.
pub fn cookie_recovery_log(needs_password: bool) -> (r: &'static str)
    ensures
        needs_password ==> r@ == "账号 Cookie 已失效且没有可用本地密码，请在账号工作台重新输入"@,
        !needs_password ==> r@ == "账号 Cookie 已失效，正在使用已保存密码恢复登录"@,
{
    if needs_password {
        "账号 Cookie 已失效且没有可用本地密码，请在账号工作台重新输入"
    } else {
        "账号 Cookie 已失效，正在使用已保存密码恢复登录"
    }
}

// ---------------------------------------------------------------------------
// A trial on a saved account

/// Why a trial on the saved account `alias` stops when the account has no
/// e-mail.
pub open spec fn missing_record_email_text(alias: Seq<char>) -> Seq<char> {
    "missing email for account alias: "@ + alias
}

/// The e-mail that a trial on a saved account logs in with: the record's
/// e-mail trimmed; without one that is not blank the trial stops with the
/// message.
pub fn existing_trial_email(alias: &str, record_email: Option<&str>) -> (r: Result<String, String>)
    ensures
        (record_email matches Some(e) && trimmed(e@).len() > 0) ==> (r matches Ok(x) && x@ == trimmed(
            record_email->0@,
        )),
        !(record_email matches Some(e) && trimmed(e@).len() > 0) ==> (r matches Err(m)
            && m@ == missing_record_email_text(alias@)),
{
    if let Some(e) = record_email {
        let t = trim(e);
        if !is_empty_text(t.as_str()) {
            return Ok(t);
        }
    }
    Err(concat2("missing email for account alias: ", alias))
}

/// The saved session cookie that a trial logs in with: the value trimmed,
/// where there is one that is not blank.
pub fn existing_trial_session_cookie(value: Option<&str>) -> (r: Option<String>)
    ensures
        (value matches Some(v) && trimmed(v@).len() > 0) ==> (r matches Some(x) && x@ == trimmed(value->0@)),
        !(value matches Some(v) && trimmed(v@).len() > 0) ==> r is None,
{
    match value {
        Some(v) => {
            let t = trim(v);
            if is_empty_text(t.as_str()) {
                None
            } else {
                Some(t)
            }
        },
        None => None,
    }
}

/// What stopped a trial on a saved account before the browser took over.
#[derive(Debug, Clone, Copy, PartialEq, Eq)]
pub enum ExistingTrialSetback {
    /// The account's cookies are missing from the secret store.
    SecretsMissing,
    /// The secret store failed otherwise.
    SecretsUnreadable,
    /// The saved cookies hold no session cookie.
    SessionCookieMissing,
    /// The session was refused; whether a fresh login can mend it.
    SessionRefused { requires_cookie_recovery: bool },
}

/// Whether a fresh login can mend a setback.
pub open spec fn setback_recoverable(s: ExistingTrialSetback) -> bool {
    match s {
        ExistingTrialSetback::SecretsMissing => true,
        ExistingTrialSetback::SecretsUnreadable => false,
        ExistingTrialSetback::SessionCookieMissing => true,
        ExistingTrialSetback::SessionRefused { requires_cookie_recovery } => requires_cookie_recovery,
    }
}

/// Whether a setback turns the trial into a cookie recovery (a fresh
/// login, then the trial) rather than failing its task: only for a task
/// that this request started, and only where a fresh login can mend it.
pub fn existing_trial_starts_recovery(initialize_task: bool, setback: ExistingTrialSetback) -> (r: bool)
    ensures
        r == (initialize_task && setback_recoverable(setback)),
{
    initialize_task && match setback {
        ExistingTrialSetback::SecretsMissing => true,
        ExistingTrialSetback::SecretsUnreadable => false,
        ExistingTrialSetback::SessionCookieMissing => true,
        ExistingTrialSetback::SessionRefused { requires_cookie_recovery } => requires_cookie_recovery,
    }
}

// ---------------------------------------------------------------------------
// Admitting a trial with a session cookie

/// The answer to a cookie trial request without a task id.
pub open spec fn cookie_trial_missing_task_id_text() -> Seq<char> {
    "existing account Cookie trial requires task_id"@
}

/// The name of the task of a trial with a session cookie.
pub open spec fn cookie_trial_task_name() -> Seq<char> {
    "已有账号 Cookie 开通试用"@
}

/// The first checks of a trial with e-mail and session cookie, in order:
/// a task id, then the e-mail, then the cookie (as
/// `check_existing_cookie_trial` states them). Nothing is reserved yet.
pub fn cookie_trial_inputs(task_id: Option<String>, alias_hint: Option<String>, email: &str, session_cookie: &str) -> (r: Result<
    (String, ExistingTrialLogin),
    ApiResponse,
>)
    ensures
        task_id is None ==> (r matches Err(e) && is_error_response(e, 400, cookie_trial_missing_task_id_text())),
        task_id is Some && trimmed(email@).len() == 0 ==> (r matches Err(e) && is_error_response(e, 400, "missing email"@)),
        task_id is Some && trimmed(email@).len() > 0 && trimmed(session_cookie@).len() == 0 ==> (r matches Err(e)
            && is_typed_error_response(e, 400, "missing overleaf_session2 Cookie"@, "invalid_session_cookie"@)),
        task_id is Some && trimmed(email@).len() > 0 && trimmed(session_cookie@).len() > 0 ==> (r matches Ok((t, x))
            && Some(t) == task_id && login_fields_match(x, email@, session_cookie@, alias_hint)
            && x.secret@ == trimmed(session_cookie@)),
{
    let t = match task_id {
        Some(t) => t,
        None => return Err(error_response(400, "existing account Cookie trial requires task_id")),
    };
    match check_existing_cookie_trial(alias_hint, email, session_cookie) {
        Ok(x) => Ok((t, x)),
        Err(e) => Err(e),
    }
}

/// What the saved accounts say of a cookie trial's e-mail and alias.
pub struct SavedAccountsCheck {
    /// The alias the e-mail is saved as already, if any.
    pub duplicate_alias: Option<String>,
    /// Whether the trial's alias belongs to another e-mail.
    pub alias_conflict: bool,
}

/// Admits a cookie trial whose inputs passed, for task `task_id` under
/// `alias`: the saved accounts must have been read (`Err` holds the answer
/// when they were not), must not hold the e-mail already (409
/// `existing_account_already_saved`) and must not give the alias to
/// another e-mail (the alias conflict); then the registration slot is
/// taken (409 when busy) and the task may start under its name. Every
/// refusal leaves the slot as it was.
pub fn admit_cookie_trial(slot: &mut RegistrationSlot, task_id: &str, alias: &str, saved: Result<SavedAccountsCheck, ApiResponse>) -> (r: Result<
    String,
    ApiResponse,
>)
    ensures
        match saved {
            Err(e) => r == Err::<String, ApiResponse>(e) && *final(slot) == *old(slot),
            Ok(c) => match c.duplicate_alias {
                Some(d) => (r matches Err(e) && is_typed_error_response(
                    e,
                    409,
                    "邮箱已保存为账号 "@ + d@ + "，请改用账号别名来源"@,
                    "existing_account_already_saved"@,
                )) && *final(slot) == *old(slot),
                None => if c.alias_conflict {
                    (r matches Err(e) && is_error_response(e, 400, "account alias already exists: "@ + alias@))
                        && *final(slot) == *old(slot)
                } else {
                    &&& slot_owner(*final(slot)) == slot_after_reserve(slot_owner(*old(slot)), task_id@)
                    &&& slot_owner(*old(slot)) is Some ==> (r matches Err(e) && is_registration_busy_response(e))
                    &&& slot_owner(*old(slot)) is None ==> (r matches Ok(name) && name@ == cookie_trial_task_name())
                },
            },
        },
{
    let c = match saved {
        Err(e) => return Err(e),
        Ok(c) => c,
    };
    match &c.duplicate_alias {
        Some(d) => return Err(existing_account_already_saved_response(d.as_str())),
        None => {},
    }
    if c.alias_conflict {
        let err = AccountRegistrationError::AliasConflict { alias: owned(alias) };
        return Err(account_registration_error_response(err));
    }
    match slot.reserve(task_id) {
        Ok(()) => Ok(owned("已有账号 Cookie 开通试用")),
        Err(e) => Err(e),
    }
}

/// A registration task was started, or refused with `Err`: a refused start
/// gives the slot back to no one and answers the refusal.
pub fn registration_task_started(slot: &mut RegistrationSlot, task_id: &str, started: Result<(), ApiResponse>) -> (r: Result<
    (),
    ApiResponse,
>)
    ensures
        r == started,
        started is Ok ==> *final(slot) == *old(slot),
        started is Err ==> slot_owner(*final(slot)) == slot_after_release(slot_owner(*old(slot)), task_id@),
{
    if started.is_err() {
        slot.release(task_id);
    }
    started
}

} // verus!
