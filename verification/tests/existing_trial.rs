use overleaf_service::errors::AccountSecretStoreError;
use overleaf_service::errors_remote::AccountSessionError;
use overleaf_service::existing_trial::{
    EligibilityOutcome, ExistingTrialAction, ExistingTrialRun, ExistingTrialStage,
};
use overleaf_service::registration::{
    ExistingTrialContinuation, ExistingTrialEligibilityEvidence, SubscriptionState,
    TrialEligibility,
};
use overleaf_service::registration_flow::RegistrationSlot;
use overleaf_service::response::ApiResponse;

fn s(x: &str) -> String {
    x.to_string()
}

fn evidence(eligibility: TrialEligibility) -> ExistingTrialEligibilityEvidence {
    ExistingTrialEligibilityEvidence {
        eligibility,
        plan_is_existing_subscription: false,
        subscription_state: SubscriptionState::Free,
        trial_expiry: None,
    }
}

fn expect_fail(a: ExistingTrialAction, status: u16, body: &str) -> String {
    match a {
        ExistingTrialAction::FailTask { message, response } => {
            assert_eq!(response.status_code, status);
            assert_eq!(response.body, body);
            message
        }
        _ => panic!("expected the task to fail"),
    }
}

/// A started run that has loaded its account and cookies.
fn run_at_eligibility(slot: &mut RegistrationSlot, initialize: bool) -> ExistingTrialRun {
    let (mut run, a) =
        ExistingTrialRun::begin(slot, Some(s("t1")), "work", initialize).ok().unwrap();
    if initialize {
        assert!(matches!(a, ExistingTrialAction::StartTask { .. }));
        run.task_started(slot, Ok(()));
    }
    let a = run.account_loaded(slot, Ok(Some(Some(s(" a@example.com ")))));
    assert!(matches!(a, ExistingTrialAction::ResolveCookies));
    let a = run.cookies_resolved(slot, Ok(Some(s("  cookie  "))));
    match a {
        ExistingTrialAction::CheckEligibility { session_cookie } => {
            assert_eq!(session_cookie, "cookie")
        }
        _ => panic!("expected the eligibility check"),
    }
    run
}

#[test]
fn existing_trial_without_task_id_changes_nothing() {
    let mut slot = RegistrationSlot::new();
    let r = ExistingTrialRun::begin(&mut slot, None, "work", true);
    let e = r.err().unwrap();
    assert_eq!(e.status_code, 400);
    assert_eq!(e.body, "{\"error\":\"existing account trial requires task_id\"}");
    assert_eq!(slot.owner, None);
}

#[test]
fn existing_trial_reserves_the_slot_then_starts_its_task() {
    let mut slot = RegistrationSlot::new();
    let (run, a) = ExistingTrialRun::begin(&mut slot, Some(s("t1")), "work", true).ok().unwrap();
    assert_eq!(slot.owner, Some(s("t1")));
    assert_eq!(run.stage, ExistingTrialStage::StartingTask);
    match a {
        ExistingTrialAction::StartTask { task_name } => assert_eq!(task_name, "已有账号开通试用"),
        _ => panic!("expected the task to start"),
    }
    let mut busy = RegistrationSlot { owner: Some(s("other")) };
    let e = ExistingTrialRun::begin(&mut busy, Some(s("t1")), "work", true).err().unwrap();
    assert_eq!(e.status_code, 409);
    assert_eq!(busy.owner, Some(s("other")));
}

#[test]
fn existing_trial_releases_the_slot_when_its_task_cannot_start() {
    let mut slot = RegistrationSlot::new();
    let (mut run, _) = ExistingTrialRun::begin(&mut slot, Some(s("t1")), "work", true).ok().unwrap();
    let refused = ApiResponse { status_code: 400, content_type: "application/json", body: s("{}") };
    let a = run.task_started(&mut slot, Err(refused.clone()));
    match a {
        ExistingTrialAction::Respond(r) => assert_eq!(r, refused),
        _ => panic!("expected the refusal to be answered"),
    }
    assert_eq!(slot.owner, None);
    assert_eq!(run.stage, ExistingTrialStage::Finished);
}

#[test]
fn existing_trial_resumed_task_loads_the_account_at_once() {
    let mut slot = RegistrationSlot { owner: Some(s("t1")) };
    let (run, a) = ExistingTrialRun::begin(&mut slot, Some(s("t1")), "work", false).ok().unwrap();
    assert!(matches!(a, ExistingTrialAction::LoadAccount));
    assert_eq!(run.stage, ExistingTrialStage::LoadingAccount);
    assert_eq!(slot.owner, Some(s("t1")));
}

#[test]
fn existing_trial_fails_without_record_or_email() {
    let mut slot = RegistrationSlot::new();
    let (mut run, _) = ExistingTrialRun::begin(&mut slot, Some(s("t1")), "work", true).ok().unwrap();
    run.task_started(&mut slot, Ok(()));
    let m = expect_fail(
        run.account_loaded(&mut slot, Ok(None)),
        404,
        "{\"error\":\"account alias not found: work\"}",
    );
    assert_eq!(m, "account alias not found: work");
    assert_eq!(slot.owner, None);

    let mut slot = RegistrationSlot::new();
    let (mut run, _) = ExistingTrialRun::begin(&mut slot, Some(s("t1")), "work", true).ok().unwrap();
    run.task_started(&mut slot, Ok(()));
    let m = expect_fail(
        run.account_loaded(&mut slot, Ok(Some(Some(s("   "))))),
        400,
        "{\"error\":\"missing email for account alias: work\"}",
    );
    assert_eq!(m, "missing email for account alias: work");
    assert_eq!(slot.owner, None);
}

#[test]
fn existing_trial_missing_cookies_start_recovery_only_for_a_new_task() {
    let mut slot = RegistrationSlot::new();
    let (mut run, _) = ExistingTrialRun::begin(&mut slot, Some(s("t1")), "work", true).ok().unwrap();
    run.task_started(&mut slot, Ok(()));
    run.account_loaded(&mut slot, Ok(Some(Some(s("a@example.com")))));
    let a = run.cookies_resolved(
        &mut slot,
        Err(AccountSecretStoreError::Missing { alias: s("work"), category: s("Cookie") }),
    );
    assert!(matches!(a, ExistingTrialAction::StartCookieRecovery));
    assert_eq!(slot.owner, Some(s("t1")));

    let mut slot = RegistrationSlot { owner: Some(s("t1")) };
    let (mut run, _) = ExistingTrialRun::begin(&mut slot, Some(s("t1")), "work", false).ok().unwrap();
    run.account_loaded(&mut slot, Ok(Some(Some(s("a@example.com")))));
    let m = expect_fail(
        run.cookies_resolved(&mut slot, Ok(None)),
        400,
        "{\"error\":\"missing cookies for account alias: work\"}",
    );
    assert_eq!(m, "missing cookies for account alias: work");
    assert_eq!(slot.owner, None);

    let mut slot = RegistrationSlot::new();
    let (mut run, _) = ExistingTrialRun::begin(&mut slot, Some(s("t1")), "work", true).ok().unwrap();
    run.task_started(&mut slot, Ok(()));
    run.account_loaded(&mut slot, Ok(Some(Some(s("a@example.com")))));
    let a = run.cookies_resolved(
        &mut slot,
        Err(AccountSecretStoreError::ReadFailed { alias: s("work"), category: s("Cookie") }),
    );
    assert!(matches!(a, ExistingTrialAction::FailTask { .. }));
    assert_eq!(slot.owner, None);
}

#[test]
fn existing_trial_ineligible_account_fails_before_any_browser() {
    let mut slot = RegistrationSlot::new();
    let mut run = run_at_eligibility(&mut slot, true);
    let a = run.eligibility_checked(
        &mut slot,
        EligibilityOutcome::Checked(evidence(TrialEligibility::Ineligible)),
        true,
    );
    let m = expect_fail(
        a,
        409,
        "{\"error\":\"账号 work 没有可用试用资格\",\"kind\":\"trial_not_eligible\"}",
    );
    assert_eq!(m, "账号 work 没有可用试用资格");
    assert_eq!(slot.owner, None);
    assert_eq!(run.stage, ExistingTrialStage::Finished);
}

#[test]
fn existing_trial_eligible_account_opens_the_browser() {
    let mut slot = RegistrationSlot::new();
    let mut run = run_at_eligibility(&mut slot, true);
    let a = run.eligibility_checked(
        &mut slot,
        EligibilityOutcome::Checked(evidence(TrialEligibility::Eligible)),
        true,
    );
    match a {
        ExistingTrialAction::OpenBrowser { email, session_cookie, continuation } => {
            assert_eq!(email, "a@example.com");
            assert_eq!(session_cookie, "cookie");
            assert_eq!(continuation, Some(ExistingTrialContinuation::Purchase));
        }
        _ => panic!("expected the browser to open"),
    }
    assert_eq!(slot.owner, Some(s("t1")));
    let a = run.session_checked(&mut slot, Ok(()));
    match a {
        ExistingTrialAction::Continue { continuation } => {
            assert_eq!(continuation, Some(ExistingTrialContinuation::Purchase))
        }
        _ => panic!("expected the trial to go on"),
    }
}

#[test]
fn existing_trial_without_browser_fails_with_503() {
    let mut slot = RegistrationSlot::new();
    let mut run = run_at_eligibility(&mut slot, true);
    let a = run.eligibility_checked(
        &mut slot,
        EligibilityOutcome::Checked(evidence(TrialEligibility::ActiveTrial)),
        false,
    );
    let m = expect_fail(a, 503, "{\"error\":\"browser automation is not configured\"}");
    assert_eq!(m, "browser automation is not configured");
    assert_eq!(slot.owner, None);
}

#[test]
fn existing_trial_refused_session_recovers_only_when_mendable() {
    let mut slot = RegistrationSlot::new();
    let mut run = run_at_eligibility(&mut slot, true);
    let a = run.eligibility_checked(
        &mut slot,
        EligibilityOutcome::Refused {
            error: AccountSessionError::InvalidSessionCookie { alias: s("work") },
            requires_cookie_recovery: true,
        },
        true,
    );
    assert!(matches!(a, ExistingTrialAction::StartCookieRecovery));
    assert_eq!(slot.owner, Some(s("t1")));

    let mut slot = RegistrationSlot::new();
    let mut run = run_at_eligibility(&mut slot, true);
    let a = run.eligibility_checked(
        &mut slot,
        EligibilityOutcome::Refused {
            error: AccountSessionError::Session { message: s("down") },
            requires_cookie_recovery: false,
        },
        true,
    );
    let m = expect_fail(a, 500, "{\"error\":\"down\"}");
    assert_eq!(m, "down");
    assert_eq!(slot.owner, None);

    let mut slot = RegistrationSlot::new();
    let mut run = run_at_eligibility(&mut slot, true);
    run.eligibility_checked(
        &mut slot,
        EligibilityOutcome::Checked(evidence(TrialEligibility::Eligible)),
        true,
    );
    let a = run.session_checked(
        &mut slot,
        Err((AccountSessionError::InvalidSessionCookie { alias: s("work") }, true)),
    );
    assert!(matches!(a, ExistingTrialAction::StartCookieRecovery));
}

#[test]
fn existing_trial_unavailable_check_fails_with_its_answer() {
    let mut slot = RegistrationSlot::new();
    let mut run = run_at_eligibility(&mut slot, false);
    let answer = ApiResponse { status_code: 500, content_type: "application/json", body: s("{\"error\":\"rt\"}") };
    let m = expect_fail(
        run.eligibility_checked(&mut slot, EligibilityOutcome::Unavailable(answer), true),
        500,
        "{\"error\":\"rt\"}",
    );
    assert_eq!(m, "{\"error\":\"rt\"}");
}
