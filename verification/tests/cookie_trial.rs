use overleaf_service::registration_flow::{
    admit_cookie_trial, cookie_trial_inputs, registration_task_started, RegistrationSlot,
    SavedAccountsCheck,
};
use overleaf_service::response::ApiResponse;

fn s(x: &str) -> String {
    x.to_string()
}

fn clean() -> SavedAccountsCheck {
    SavedAccountsCheck { duplicate_alias: None, alias_conflict: false }
}

#[test]
fn cookie_trial_checks_task_then_email_then_cookie() {
    let e = cookie_trial_inputs(None, None, "", "").err().unwrap();
    assert_eq!(e.status_code, 400);
    assert_eq!(e.body, "{\"error\":\"existing account Cookie trial requires task_id\"}");
    let e = cookie_trial_inputs(Some(s("t1")), None, "  ", "").err().unwrap();
    assert_eq!(e.body, "{\"error\":\"missing email\"}");
    let e = cookie_trial_inputs(Some(s("t1")), None, "a@example.com", " ").err().unwrap();
    assert_eq!(e.body, "{\"error\":\"missing overleaf_session2 Cookie\",\"kind\":\"invalid_session_cookie\"}");
    let (t, login) = cookie_trial_inputs(Some(s("t1")), Some(s(" w ")), " a@example.com ", " c ").ok().unwrap();
    assert_eq!(t, "t1");
    assert_eq!(login.email, "a@example.com");
    assert_eq!(login.secret, "c");
    assert_eq!(login.alias_hint, Some(s("w")));
}

#[test]
fn cookie_trial_refusals_leave_the_slot_alone() {
    let mut slot = RegistrationSlot::new();
    let io = ApiResponse { status_code: 500, content_type: "application/json", body: s("{\"error\":\"io\"}") };
    assert_eq!(admit_cookie_trial(&mut slot, "t1", "w", Err(io.clone())).err().unwrap(), io);
    let dup = SavedAccountsCheck { duplicate_alias: Some(s("old")), alias_conflict: true };
    let e = admit_cookie_trial(&mut slot, "t1", "w", Ok(dup)).err().unwrap();
    assert_eq!(e.status_code, 409);
    assert_eq!(e.body, "{\"error\":\"邮箱已保存为账号 old，请改用账号别名来源\",\"kind\":\"existing_account_already_saved\"}");
    let conflict = SavedAccountsCheck { duplicate_alias: None, alias_conflict: true };
    let e = admit_cookie_trial(&mut slot, "t1", "w", Ok(conflict)).err().unwrap();
    assert_eq!(e.status_code, 400);
    assert_eq!(e.body, "{\"error\":\"account alias already exists: w\"}");
    assert_eq!(slot.owner, None);
    let mut busy = RegistrationSlot { owner: Some(s("other")) };
    assert_eq!(admit_cookie_trial(&mut busy, "t1", "w", Ok(clean())).err().unwrap().status_code, 409);
    assert_eq!(busy.owner, Some(s("other")));
}

#[test]
fn cookie_trial_takes_the_slot_and_gives_it_back_when_its_task_is_refused() {
    let mut slot = RegistrationSlot::new();
    let name = admit_cookie_trial(&mut slot, "t1", "w", Ok(clean())).ok().unwrap();
    assert_eq!(name, "已有账号 Cookie 开通试用");
    assert_eq!(slot.owner, Some(s("t1")));
    assert!(registration_task_started(&mut slot, "t1", Ok(())).is_ok());
    assert_eq!(slot.owner, Some(s("t1")));
    let refused = ApiResponse { status_code: 400, content_type: "application/json", body: s("{}") };
    assert_eq!(registration_task_started(&mut slot, "t1", Err(refused.clone())).err().unwrap(), refused);
    assert_eq!(slot.owner, None);
}
