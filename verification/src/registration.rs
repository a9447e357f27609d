//! The registration flow's own decisions: which browser errors can be
//! retried or recovered from, the card BIN a registration may name, and
//! whether an existing account may start or resume a trial.

use vstd::prelude::*;
use crate::browser_states::CdpRegistrationState;
use crate::errors_remote::AccountRegistrationError;
use crate::response::{is_typed_error_response, typed_error_response, ApiResponse};
use crate::text::{
    ascii_lower, concat3, concat4, contains_text, has_substring, is_empty_text, owned, starts_with,
    text_eq, to_ascii_lower, trim, trimmed,
};

verus! {

/// An error a browser automation step reported.
pub enum BrowserAutomationError {
    ElementNotFound { selector: String },
    Timeout { operation: String },
    ExternalDriver { message: String },
    Other { message: String },
    ChallengeRequired { challenge: String },
    EmailCodeRequired { email: String },
    RegisteredEmail { email: String },
    InvalidCredentials,
    RobotVerificationBlocked,
}

/// A failed e-mail code step can be answered again: the code field went
/// missing, the step timed out, or the page said the verification failed.
pub open spec fn email_code_error_recoverable(e: BrowserAutomationError) -> bool {
    match e {
        BrowserAutomationError::ElementNotFound { selector } => "email verification"@.is_prefix_of(
            selector@,
        ),
        BrowserAutomationError::Timeout { operation } => has_substring(
            ascii_lower(operation@),
            "email verification"@,
        ),
        BrowserAutomationError::Other { message } => has_substring(
            ascii_lower(message@),
            "email verification failed"@,
        ),
        _ => false,
    }
}

pub fn registration_email_code_error_is_recoverable(error: &BrowserAutomationError) -> (r: bool)
    ensures
        r == email_code_error_recoverable(*error),
{
    match error {
        BrowserAutomationError::ElementNotFound { selector } => starts_with(
            selector.as_str(),
            "email verification",
        ),
        BrowserAutomationError::Timeout { operation } => {
            let lower = to_ascii_lower(operation.as_str());
            contains_text(lower.as_str(), "email verification")
        },
        BrowserAutomationError::Other { message } => {
            let lower = to_ascii_lower(message.as_str());
            contains_text(lower.as_str(), "email verification failed")
        },
        _ => false,
    }
}

/// Opening the subscription page can be retried after it timed out or the
/// page's execution context went away.
pub open spec fn subscription_open_error_retryable(e: BrowserAutomationError) -> bool {
    match e {
        BrowserAutomationError::Timeout { operation } => has_substring(
            ascii_lower(operation@),
            "overleaf subscription page"@,
        ),
        BrowserAutomationError::ExternalDriver { message } => {
            let m = ascii_lower(message@);
            has_substring(m, "execution context was destroyed"@) || has_substring(
                m,
                "cannot find default execution context"@,
            ) || has_substring(m, "cannot find context with specified id"@) || has_substring(
                m,
                "inspected target navigated or closed"@,
            )
        },
        _ => false,
    }
}

pub fn registration_subscription_open_error_is_retryable(error: &BrowserAutomationError) -> (r:
    bool)
    ensures
        r == subscription_open_error_retryable(*error),
{
    match error {
        BrowserAutomationError::Timeout { operation } => {
            let lower = to_ascii_lower(operation.as_str());
            contains_text(lower.as_str(), "overleaf subscription page")
        },
        BrowserAutomationError::ExternalDriver { message } => {
            let m = to_ascii_lower(message.as_str());
            contains_text(m.as_str(), "execution context was destroyed") || contains_text(
                m.as_str(),
                "cannot find default execution context",
            ) || contains_text(m.as_str(), "cannot find context with specified id")
                || contains_text(m.as_str(), "inspected target navigated or closed")
        },
        _ => false,
    }
}

/// The name of a registration page state, as its derived `Debug` writes
/// it.
pub open spec fn registration_state_debug_text(s: CdpRegistrationState) -> Seq<char> {
    match s {
        CdpRegistrationState::AccountCreated => "AccountCreated"@,
        CdpRegistrationState::ChallengeRequired => "ChallengeRequired"@,
        CdpRegistrationState::EmailVerificationFailed => "EmailVerificationFailed"@,
        CdpRegistrationState::EmailVerificationRequired => "EmailVerificationRequired"@,
        CdpRegistrationState::Pending => "Pending"@,
        CdpRegistrationState::RegisteredEmail => "RegisteredEmail"@,
        CdpRegistrationState::SubscriptionSucceeded => "SubscriptionSucceeded"@,
    }
}

pub fn registration_state_debug_name(s: CdpRegistrationState) -> (r: &'static str)
    ensures
        r@ == registration_state_debug_text(s),
{
    match s {
        CdpRegistrationState::AccountCreated => "AccountCreated",
        CdpRegistrationState::ChallengeRequired => "ChallengeRequired",
        CdpRegistrationState::EmailVerificationFailed => "EmailVerificationFailed",
        CdpRegistrationState::EmailVerificationRequired => "EmailVerificationRequired",
        CdpRegistrationState::Pending => "Pending",
        CdpRegistrationState::RegisteredEmail => "RegisteredEmail",
        CdpRegistrationState::SubscriptionSucceeded => "SubscriptionSucceeded",
    }
}

/// A subscription step counts only when the page confirms the
/// subscription; any other state fails the registration, naming the step
/// and the state.
pub fn require_confirmed_registration_subscription_step(
    step: &str,
    state: CdpRegistrationState,
) -> (r: Result<(), AccountRegistrationError>)
    ensures
        state == CdpRegistrationState::SubscriptionSucceeded ==> r is Ok,
        state != CdpRegistrationState::SubscriptionSucceeded ==> (r matches Err(
            AccountRegistrationError::Browser { message },
        ) && message@ == "registration step "@ + step@
            + " did not reach a confirmed subscription state: "@ + registration_state_debug_text(
            state,
        )),
{
    match state {
        CdpRegistrationState::SubscriptionSucceeded => Ok(()),
        _ => {
            let message = concat4(
                "registration step ",
                step,
                " did not reach a confirmed subscription state: ",
                registration_state_debug_name(state),
            );
            Err(AccountRegistrationError::Browser { message })
        },
    }
}

// ---------------------------------------------------------------------------
// The card BIN of a registration

/// Six ASCII digits.
pub open spec fn is_card_bin(s: Seq<char>) -> bool {
    s.len() == 6 && forall|i: int| 0 <= i < 6 ==> '0' <= #[trigger] s[i] && s[i] <= '9'
}

/// A card BIN is empty (none) or six digits, after trimming.
pub fn normalize_registration_card_bin(value: &str) -> (r: Result<Option<String>, ApiResponse>)
    ensures
        trimmed(value@).len() == 0 ==> r == Ok::<Option<String>, ApiResponse>(None),
        trimmed(value@).len() > 0 && is_card_bin(trimmed(value@)) ==> (r matches Ok(Some(b)) && b@
            == trimmed(value@)),
        trimmed(value@).len() > 0 && !is_card_bin(trimmed(value@)) ==> (r matches Err(e)
            && is_typed_error_response(
            e,
            400,
            "card_bin must be empty or exactly six digits"@,
            "invalid_card_bin"@,
        )),
{
    let t = trim(value);
    if is_empty_text(t.as_str()) {
        return Ok(None);
    }
    let v = crate::text::chars_of(t.as_str());
    let mut ok = v.len() == 6;
    let mut i: usize = 0;
    while ok && i < v.len()
        invariant
            v@ == t@,
            ok ==> v@.len() == 6,
            i <= v@.len(),
            ok ==> forall|j: int| 0 <= j < i ==> '0' <= #[trigger] v@[j] && v@[j] <= '9',
            !ok ==> !is_card_bin(t@),
        decreases v.len() - i,
    {
        if !('0' <= v[i] && v[i] <= '9') {
            ok = false;
        }
        i = i + 1;
    }
    if ok {
        Ok(Some(t))
    } else {
        Err(typed_error_response(400, "card_bin must be empty or exactly six digits", "invalid_card_bin"))
    }
}

// ---------------------------------------------------------------------------
// Trials of existing accounts

/// Whether an account can start a trial.
#[derive(Debug, Clone, Copy, PartialEq, Eq)]
pub enum TrialEligibility {
    Eligible,
    ActiveTrial,
    Ineligible,
    Unknown,
}

/// The subscription an account has.
#[derive(Debug, Clone, Copy, PartialEq, Eq)]
pub enum SubscriptionState {
    Trial,
    Pro,
    Subscription,
    Free,
    Unknown,
}

/// How an existing account's trial goes on.
#[derive(Debug, Clone, Copy, PartialEq, Eq)]
pub enum ExistingTrialContinuation {
    Purchase,
    PurchasePageReady,
    ResumeActiveTrial,
}

/// What a trial check found about an existing account.
#[derive(Debug, Clone, Copy, PartialEq, Eq)]
pub struct ExistingTrialEligibilityEvidence {
    pub eligibility: TrialEligibility,
    /// The plan check said the account already has a subscription.
    pub plan_is_existing_subscription: bool,
    pub subscription_state: SubscriptionState,
    pub trial_expiry: Option<i64>,
}

/// An eligible account buys its trial; one in a trial resumes it; any other
/// eligibility is handed back.
pub fn existing_trial_continuation(eligibility: TrialEligibility) -> (r: Result<
    ExistingTrialContinuation,
    TrialEligibility,
>)
    ensures
        r == match eligibility {
            TrialEligibility::Eligible => Ok(ExistingTrialContinuation::Purchase),
            TrialEligibility::ActiveTrial => Ok(ExistingTrialContinuation::ResumeActiveTrial),
            _ => Err(eligibility),
        },
{
    match eligibility {
        TrialEligibility::Eligible => Ok(ExistingTrialContinuation::Purchase),
        TrialEligibility::ActiveTrial => Ok(ExistingTrialContinuation::ResumeActiveTrial),
        TrialEligibility::Ineligible | TrialEligibility::Unknown => Err(eligibility),
    }
}

/// What the preflight of an existing account's trial decides: continue as
/// the eligibility says; an ineligible account whose "existing
/// subscription" is a free or unknown one without a trial end is inspected
/// in the browser (`Ok(None)`); any other account is refused with its
/// eligibility.
pub open spec fn existing_trial_preflight_result(evidence: ExistingTrialEligibilityEvidence) -> Result<
    Option<ExistingTrialContinuation>,
    TrialEligibility,
> {
    match evidence.eligibility {
        TrialEligibility::Eligible => Ok(Some(ExistingTrialContinuation::Purchase)),
        TrialEligibility::ActiveTrial => Ok(Some(ExistingTrialContinuation::ResumeActiveTrial)),
        _ => if evidence.eligibility == TrialEligibility::Ineligible
            && evidence.plan_is_existing_subscription && (evidence.subscription_state
            == SubscriptionState::Free || evidence.subscription_state == SubscriptionState::Unknown)
            && evidence.trial_expiry is None {
            Ok(None)
        } else {
            Err(evidence.eligibility)
        },
    }
}

/// The preflight of an existing account's trial.
pub fn existing_trial_preflight(evidence: &ExistingTrialEligibilityEvidence) -> (r: Result<
    Option<ExistingTrialContinuation>,
    TrialEligibility,
>)
    ensures
        r == existing_trial_preflight_result(*evidence),
{
    match existing_trial_continuation(evidence.eligibility) {
        Ok(c) => Ok(Some(c)),
        Err(e) => {
            let ineligible = match evidence.eligibility {
                TrialEligibility::Ineligible => true,
                _ => false,
            };
            let free_or_unknown = match evidence.subscription_state {
                SubscriptionState::Free | SubscriptionState::Unknown => true,
                _ => false,
            };
            if ineligible && evidence.plan_is_existing_subscription && free_or_unknown
                && evidence.trial_expiry.is_none() {
                Ok(None)
            } else {
                Err(e)
            }
        },
    }
}

/// What the browser found on the trial's purchase page.
#[derive(Debug, Clone, Copy, PartialEq, Eq)]
pub enum TrialPurchaseAvailability {
    Available,
    Unavailable,
    Unknown,
}

/// How a trial goes on after the logged-in browser looked at the purchase
/// page: a page ready to buy goes straight to the forms, an unavailable
/// one makes the account ineligible, and an unclear one goes by the
/// eligibility `classified` from the page's subscription text.
pub fn rendered_trial_continuation(availability: TrialPurchaseAvailability, classified: TrialEligibility) -> (r:
    Result<ExistingTrialContinuation, TrialEligibility>)
    ensures
        r == match availability {
            TrialPurchaseAvailability::Available => Ok(ExistingTrialContinuation::PurchasePageReady),
            TrialPurchaseAvailability::Unavailable => Err(TrialEligibility::Ineligible),
            TrialPurchaseAvailability::Unknown => match classified {
                TrialEligibility::Eligible => Ok(ExistingTrialContinuation::Purchase),
                TrialEligibility::ActiveTrial => Ok(ExistingTrialContinuation::ResumeActiveTrial),
                _ => Err(classified),
            },
        },
{
    match availability {
        TrialPurchaseAvailability::Available => Ok(ExistingTrialContinuation::PurchasePageReady),
        TrialPurchaseAvailability::Unavailable => existing_trial_continuation(TrialEligibility::Ineligible),
        TrialPurchaseAvailability::Unknown => existing_trial_continuation(classified),
    }
}

/// The line logged as an existing account's trial goes on.
pub fn existing_trial_continuation_log(c: ExistingTrialContinuation) -> (r: &'static str)
    ensures
        r@ == match c {
            ExistingTrialContinuation::Purchase => "已确认已有账号登录态与试用资格，进入统一订阅流程"@,
            ExistingTrialContinuation::PurchasePageReady => "已确认已有账号试用购买页就绪，进入统一订阅流程"@,
            ExistingTrialContinuation::ResumeActiveTrial =>
                "检测到账号已处于试用中，跳过重复购买和额外试用领取，继续订阅收尾"@,
        },
{
    match c {
        ExistingTrialContinuation::Purchase => "已确认已有账号登录态与试用资格，进入统一订阅流程",
        ExistingTrialContinuation::PurchasePageReady => "已确认已有账号试用购买页就绪，进入统一订阅流程",
        ExistingTrialContinuation::ResumeActiveTrial => "检测到账号已处于试用中，跳过重复购买和额外试用领取，继续订阅收尾",
    }
}

/// The subscription a saved status key names.
pub open spec fn subscription_state_for(key: Seq<char>) -> SubscriptionState {
    let k = ascii_lower(trimmed(key));
    if k == "trial"@ {
        SubscriptionState::Trial
    } else if k == "pro"@ {
        SubscriptionState::Pro
    } else if k == "subscription"@ {
        SubscriptionState::Subscription
    } else if k == "free"@ {
        SubscriptionState::Free
    } else {
        SubscriptionState::Unknown
    }
}

pub fn subscription_state_from_key(value: &str) -> (r: SubscriptionState)
    ensures
        r == subscription_state_for(value@),
{
    let t = trim(value);
    let k = to_ascii_lower(t.as_str());
    if text_eq(k.as_str(), "trial") {
        SubscriptionState::Trial
    } else if text_eq(k.as_str(), "pro") {
        SubscriptionState::Pro
    } else if text_eq(k.as_str(), "subscription") {
        SubscriptionState::Subscription
    } else if text_eq(k.as_str(), "free") {
        SubscriptionState::Free
    } else {
        SubscriptionState::Unknown
    }
}

} // verus!
