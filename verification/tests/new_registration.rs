use overleaf_service::new_registration::{
    NewRegistrationAction, NewRegistrationRun, NewRegistrationStage,
};
use overleaf_service::registration_flow::RegistrationSlot;
use overleaf_service::response::ApiResponse;

fn s(x: &str) -> String {
    x.to_string()
}

#[test]
fn new_registration_with_task_takes_the_slot_and_starts_the_task() {
    let mut slot = RegistrationSlot::new();
    let (run, a) = NewRegistrationRun::begin(&mut slot, Some(s("t1")), "new").ok().unwrap();
    assert_eq!(slot.owner, Some(s("t1")));
    assert!(run.slot_reserved);
    assert_eq!(run.stage, NewRegistrationStage::StartingTask);
    match a {
        NewRegistrationAction::StartTask { task_name } => assert_eq!(task_name, "自动注册账号"),
        _ => panic!("expected the task to start"),
    }
    let mut busy = RegistrationSlot { owner: Some(s("other")) };
    let e = NewRegistrationRun::begin(&mut busy, Some(s("t1")), "new").err().unwrap();
    assert_eq!(e.status_code, 409);
    assert_eq!(busy.owner, Some(s("other")));
}

#[test]
fn new_registration_refused_task_gives_the_slot_back() {
    let mut slot = RegistrationSlot::new();
    let (mut run, _) = NewRegistrationRun::begin(&mut slot, Some(s("t1")), "new").ok().unwrap();
    let refused = ApiResponse { status_code: 400, content_type: "application/json", body: s("{}") };
    match run.task_started(&mut slot, Err(refused.clone())) {
        NewRegistrationAction::Respond(r) => assert_eq!(r, refused),
        _ => panic!("expected the refusal"),
    }
    assert_eq!(slot.owner, None);
}

#[test]
fn new_registration_skips_a_saved_email() {
    let mut slot = RegistrationSlot::new();
    let (mut run, _) = NewRegistrationRun::begin(&mut slot, Some(s("t1")), "new").ok().unwrap();
    assert!(matches!(run.task_started(&mut slot, Ok(())), NewRegistrationAction::CheckDuplicate));
    match run.duplicate_checked(&mut slot, Some(s("saved")), true, true) {
        NewRegistrationAction::SkipDuplicate { existing_alias, message } => {
            assert_eq!(existing_alias, "saved");
            assert_eq!(message, "邮箱已在本地存在，跳过注册");
        }
        _ => panic!("expected the registration to be skipped"),
    }
    assert_eq!(slot.owner, None);
    assert_eq!(run.stage, NewRegistrationStage::Finished);
}

#[test]
fn new_registration_picks_its_browser() {
    let mut slot = RegistrationSlot::new();
    let (mut run, _) = NewRegistrationRun::begin(&mut slot, Some(s("t1")), "new").ok().unwrap();
    run.task_started(&mut slot, Ok(()));
    assert!(matches!(
        run.duplicate_checked(&mut slot, None, true, true),
        NewRegistrationAction::RegisterWithLocalChrome
    ));
    assert_eq!(slot.owner, Some(s("t1")));

    let mut slot = RegistrationSlot::new();
    let (mut run, a) = NewRegistrationRun::begin(&mut slot, None, "new").ok().unwrap();
    assert!(matches!(a, NewRegistrationAction::CheckDuplicate));
    assert!(matches!(
        run.duplicate_checked(&mut slot, None, true, true),
        NewRegistrationAction::RegisterWithBrowser
    ));

    let mut slot = RegistrationSlot::new();
    let (mut run, _) = NewRegistrationRun::begin(&mut slot, Some(s("t1")), "new").ok().unwrap();
    run.task_started(&mut slot, Ok(()));
    match run.duplicate_checked(&mut slot, None, false, false) {
        NewRegistrationAction::FailTask { message, response } => {
            assert_eq!(message, "browser automation is not configured");
            assert_eq!(response.status_code, 503);
            assert_eq!(response.body, "{\"error\":\"browser automation is not configured\"}");
        }
        _ => panic!("expected the task to fail"),
    }
    assert_eq!(slot.owner, None);
}
