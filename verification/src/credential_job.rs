//! The decisions of one account's credential browser job, as a state
//! machine: the caller performs each action (reading the store, opening a
//! browser session, submitting credentials, waiting for input, committing)
//! and hands back what came of it.

use vstd::prelude::*;
use crate::credential::{
    credentials_applied, input_email, plan_alias, plan_email, plan_password, plan_recovery_error,
    plan_skips_existing_token, plan_startup_error, running_message_text,
    invalid_credentials_message_text, BrowserCredentialsTaskInput, CredentialBrowserItemJob,
    CredentialBrowserOperation, CredentialBrowserPlan,
};
use crate::errors_remote::{
    account_credential_error_message, account_credential_error_text, AccountCredentialError,
};
use crate::tasks::TaskUserInputKind;
use crate::text::{concat2, concat3, is_empty_text, owned, trim, trimmed};

verus! {

/// Where one account's job stands.
#[derive(Debug, Clone, Copy, PartialEq, Eq)]
pub enum CredentialJobStage {
    Start,
    CheckingExistingToken,
    TryingSavedBrowserLogin,
    OpeningSession { fallback: bool },
    TryingSavedGitToken,
    CheckingCancel,
    LoggingIn,
    WaitingCredentials { after_captcha: bool },
    WaitingCaptcha,
    Committing,
    Finished,
}

/// The state of one account's job.
#[derive(Debug, Clone, Copy, PartialEq, Eq)]
pub struct CredentialJobState {
    pub stage: CredentialJobStage,
    /// The login already went once through the fallback proxy.
    pub proxy_fallback_used: bool,
}

/// What trying a browser login with the saved cookie gave.
pub enum SavedBrowserLoginOutcome {
    NotApplicable,
    Completed,
    Recover(String),
    Failed(String),
}

/// What checking the saved cookie for a Git token gave.
pub enum SavedGitTokenOutcome {
    NotApplicable,
    Completed,
    Skipped,
    Recover(String),
    Failed(String),
}

/// What waiting for the user gave.
pub enum ResumeOutcome {
    Credentials(BrowserCredentialsTaskInput),
    Login,
    PromptCredentials,
    RetryAutomation,
    Cancelled(String),
    Failed(String),
}

/// What the caller reports back after an action.
pub enum CredentialJobEvent {
    Started,
    ExistingToken(Result<bool, String>),
    SavedBrowserLogin(SavedBrowserLoginOutcome),
    SessionOpened(Result<(), String>),
    SavedGitToken(SavedGitTokenOutcome),
    CancelChecked(bool),
    LoginAttempt(Result<(), AccountCredentialError>),
    /// The outcome of a wait, and for new credentials of an added account
    /// that name an e-mail address, the alias that address gives.
    Resumed(ResumeOutcome, Option<String>),
    Committed(Result<(), String>),
}

/// What the caller does next.
pub enum CredentialJobAction {
    CheckExistingToken,
    TrySavedBrowserLogin,
    OpenSession { fallback: bool },
    TrySavedGitToken,
    CheckCancel,
    SubmitCredentials { email: String, password: String },
    WaitForInput { kind: TaskUserInputKind, message: String },
    Commit,
    FinishCompleted,
    FinishSkipped,
    FinishFailed(String),
    FinishCancelled(String),
}

/// One line of the task log.
pub struct StageLog {
    pub warning: bool,
    pub text: String,
}

/// What one step asks of the caller, in order: clean the browser session up
/// with `cleanup` as the reason, append `logs`, resume the coordinator's
/// waiting item, then perform `action`.
pub struct CredentialJobStep {
    pub cleanup: Option<String>,
    pub logs: Vec<StageLog>,
    pub resume_waiting: Option<TaskUserInputKind>,
    pub action: CredentialJobAction,
}

// ---------------------------------------------------------------------------
// The transition table

/// An action, with its texts as character sequences.
#[verifier::ext_equal]
pub enum ActionView {
    CheckExistingToken,
    TrySavedBrowserLogin,
    OpenSession(bool),
    TrySavedGitToken,
    CheckCancel,
    SubmitCredentials(Seq<char>, Seq<char>),
    WaitForInput(TaskUserInputKind, Seq<char>),
    Commit,
    FinishCompleted,
    FinishSkipped,
    FinishFailed(Seq<char>),
    FinishCancelled(Seq<char>),
}

/// A step, with its texts as character sequences.
#[verifier::ext_equal]
pub struct StepView {
    pub cleanup: Option<Seq<char>>,
    pub logs: Seq<(bool, Seq<char>)>,
    pub resume_waiting: Option<TaskUserInputKind>,
    pub action: ActionView,
}

pub open spec fn action_view(a: CredentialJobAction) -> ActionView {
    match a {
        CredentialJobAction::CheckExistingToken => ActionView::CheckExistingToken,
        CredentialJobAction::TrySavedBrowserLogin => ActionView::TrySavedBrowserLogin,
        CredentialJobAction::OpenSession { fallback } => ActionView::OpenSession(fallback),
        CredentialJobAction::TrySavedGitToken => ActionView::TrySavedGitToken,
        CredentialJobAction::CheckCancel => ActionView::CheckCancel,
        CredentialJobAction::SubmitCredentials { email, password } =>
            ActionView::SubmitCredentials(email@, password@),
        CredentialJobAction::WaitForInput { kind, message } => ActionView::WaitForInput(
            kind,
            message@,
        ),
        CredentialJobAction::Commit => ActionView::Commit,
        CredentialJobAction::FinishCompleted => ActionView::FinishCompleted,
        CredentialJobAction::FinishSkipped => ActionView::FinishSkipped,
        CredentialJobAction::FinishFailed(m) => ActionView::FinishFailed(m@),
        CredentialJobAction::FinishCancelled(m) => ActionView::FinishCancelled(m@),
    }
}

pub open spec fn step_view(s: CredentialJobStep) -> StepView {
    StepView {
        cleanup: match s.cleanup {
            Some(c) => Some(c@),
            None => None,
        },
        logs: s.logs@.map_values(|l: StageLog| (l.warning, l.text@)),
        resume_waiting: s.resume_waiting,
        action: action_view(s.action),
    }
}

/// A log line of the job: the account's alias, then the stage.
pub open spec fn stage_line(alias: Seq<char>, warning: bool, stage: Seq<char>) -> (bool, Seq<char>) {
    (warning, alias + "："@ + stage)
}

pub open spec fn view_of(
    cleanup: Option<Seq<char>>,
    logs: Seq<(bool, Seq<char>)>,
    resume: Option<TaskUserInputKind>,
    action: ActionView,
) -> StepView {
    StepView { cleanup, logs, resume_waiting: resume, action }
}

pub open spec fn at(stage: CredentialJobStage, used: bool) -> CredentialJobState {
    CredentialJobState { stage, proxy_fallback_used: used }
}

/// The message shown while waiting for the captcha.
pub open spec fn captcha_prompt_text() -> Seq<char> {
    "检测到可见 reCAPTCHA，请在对应浏览器窗口中完成验证"@
}

/// The step that waits for the captcha.
pub open spec fn wait_captcha(alias: Seq<char>, used: bool, cleanup: Option<Seq<char>>, logs: Seq<(bool, Seq<char>)>, resume: Option<TaskUserInputKind>) -> (CredentialJobState, StepView) {
    (
        at(CredentialJobStage::WaitingCaptcha, used),
        view_of(
            cleanup,
            logs.push(stage_line(alias, true, "阶段：等待 reCAPTCHA"@)),
            resume,
            ActionView::WaitForInput(TaskUserInputKind::CaptchaCompleted, captcha_prompt_text()),
        ),
    )
}

/// The step that ends the job.
pub open spec fn finish(used: bool, cleanup: Option<Seq<char>>, logs: Seq<(bool, Seq<char>)>, action: ActionView) -> (CredentialJobState, StepView) {
    (at(CredentialJobStage::Finished, used), view_of(cleanup, logs, None, action))
}

/// What a login attempt's result leads to.
pub open spec fn after_login_result(
    job: CredentialBrowserItemJob,
    used: bool,
    logs: Seq<(bool, Seq<char>)>,
    result: Result<(), AccountCredentialError>,
) -> (CredentialJobState, StepView) {
    let alias = plan_alias(job.plan)@;
    match result {
        Ok(()) => (
            at(CredentialJobStage::Committing, used),
            view_of(
                None,
                logs.push(stage_line(alias, false, "阶段：登录成功，保存账号结果"@)),
                None,
                ActionView::Commit,
            ),
        ),
        Err(AccountCredentialError::InvalidCredentials) => (
            at(CredentialJobStage::WaitingCredentials { after_captcha: false }, used),
            view_of(
                None,
                logs.push(stage_line(alias, true, "阶段：账号密码未通过，等待重新输入"@)),
                None,
                ActionView::WaitForInput(
                    TaskUserInputKind::NewBrowserCredentials,
                    invalid_credentials_message_text(job.operation),
                ),
            ),
        ),
        Err(AccountCredentialError::ChallengeRequired) => wait_captcha(alias, used, None, logs, None),
        Err(e) => if e is RobotVerificationBlocked && job.has_proxy_fallback && !used {
            (
                at(CredentialJobStage::OpeningSession { fallback: true }, used),
                view_of(
                    Some("切换代理"@),
                    logs.push(stage_line(alias, true, "阶段：切换代理后重试"@)),
                    None,
                    ActionView::OpenSession(true),
                ),
            )
        } else {
            finish(used, Some("登录失败"@), logs, ActionView::FinishFailed(account_credential_error_text(e)))
        },
    }
}

/// The step that goes back to the top of the login loop.
pub open spec fn back_to_login(used: bool, logs: Seq<(bool, Seq<char>)>, resume: Option<TaskUserInputKind>) -> (CredentialJobState, StepView) {
    (at(CredentialJobStage::CheckingCancel, used), view_of(None, logs, resume, ActionView::CheckCancel))
}

/// What the job does when `event` comes in `state`.
pub open spec fn job_transition(
    job: CredentialBrowserItemJob,
    state: CredentialJobState,
    event: CredentialJobEvent,
) -> (CredentialJobState, StepView) {
    let alias = plan_alias(job.plan)@;
    let used = state.proxy_fallback_used;
    let empty = Seq::<(bool, Seq<char>)>::empty();
    let open_primary = |logs: Seq<(bool, Seq<char>)>| (
        at(CredentialJobStage::OpeningSession { fallback: false }, used),
        view_of(
            None,
            logs.push(stage_line(alias, false, "阶段：启动浏览器会话"@)),
            None,
            ActionView::OpenSession(false),
        ),
    );
    match event {
        CredentialJobEvent::Started => {
            let logs = seq![stage_line(alias, false, "阶段：开始处理"@)];
            match plan_startup_error(job.plan) {
                Some(e) => finish(used, None, logs.push(stage_line(alias, true, "阶段：启动校验失败"@)), ActionView::FinishFailed(e@)),
                None => if plan_skips_existing_token(job.plan) {
                    (
                        at(CredentialJobStage::CheckingExistingToken, used),
                        view_of(
                            None,
                            logs.push(stage_line(alias, false, "阶段：检查已有 Git token"@)),
                            None,
                            ActionView::CheckExistingToken,
                        ),
                    )
                } else {
                    (
                        at(CredentialJobStage::TryingSavedBrowserLogin, used),
                        view_of(None, logs, None, ActionView::TrySavedBrowserLogin),
                    )
                },
            }
        },
        CredentialJobEvent::ExistingToken(r) => match r {
            Ok(true) => finish(used, None, empty, ActionView::FinishSkipped),
            Ok(false) => (
                at(CredentialJobStage::TryingSavedBrowserLogin, used),
                view_of(None, empty, None, ActionView::TrySavedBrowserLogin),
            ),
            Err(e) => finish(used, None, empty, ActionView::FinishFailed(e@)),
        },
        CredentialJobEvent::SavedBrowserLogin(o) => match o {
            SavedBrowserLoginOutcome::NotApplicable => open_primary(empty),
            SavedBrowserLoginOutcome::Completed => finish(used, None, empty, ActionView::FinishCompleted),
            SavedBrowserLoginOutcome::Recover(m) => match plan_recovery_error(job.plan) {
                Some(e) => finish(used, None, empty, ActionView::FinishFailed(e@)),
                None => open_primary(seq![stage_line(alias, false, m@ + "，转账号密码登录"@)]),
            },
            SavedBrowserLoginOutcome::Failed(m) => finish(used, None, empty, ActionView::FinishFailed(m@)),
        },
        CredentialJobEvent::SessionOpened(r) => if state.stage == (CredentialJobStage::OpeningSession { fallback: true }) {
            match r {
                Ok(()) => back_to_login(true, seq![stage_line(alias, true, "机器人验证未通过，已切换系统代理重试一次"@)], None),
                Err(b) => finish(used, None, seq![stage_line(alias, true, "阶段：代理重试启动失败"@)], ActionView::FinishFailed(b@)),
            }
        } else {
            match r {
                Ok(()) => (
                    at(CredentialJobStage::TryingSavedGitToken, used),
                    view_of(
                        None,
                        seq![stage_line(alias, false, "阶段："@ + running_message_text(job.operation))],
                        None,
                        ActionView::TrySavedGitToken,
                    ),
                ),
                Err(b) => finish(used, None, seq![stage_line(alias, true, "阶段：浏览器会话启动失败"@)], ActionView::FinishFailed(b@)),
            }
        },
        CredentialJobEvent::SavedGitToken(o) => match o {
            SavedGitTokenOutcome::NotApplicable => back_to_login(used, empty, None),
            SavedGitTokenOutcome::Completed => finish(used, Some("Git token 已完成"@), empty, ActionView::FinishCompleted),
            SavedGitTokenOutcome::Skipped => finish(used, Some("已有有效 Git token"@), empty, ActionView::FinishSkipped),
            SavedGitTokenOutcome::Recover(m) => match plan_recovery_error(job.plan) {
                Some(e) => finish(used, Some("恢复不可用"@), empty, ActionView::FinishFailed(e@)),
                None => back_to_login(used, seq![stage_line(alias, true, m@ + "，正在转账号密码恢复"@)], None),
            },
            SavedGitTokenOutcome::Failed(m) => finish(used, Some("Cookie/Git 校验失败"@), empty, ActionView::FinishFailed(m@)),
        },
        CredentialJobEvent::CancelChecked(cancelled) => if cancelled {
            finish(used, Some("用户取消"@), empty, ActionView::FinishCancelled("用户取消"@))
        } else {
            let logs = seq![stage_line(alias, false, "阶段：提交账号密码"@)];
            if trimmed(plan_password(job.plan)@).len() == 0 {
                after_login_result(job, used, logs, Err(AccountCredentialError::InvalidCredentials))
            } else {
                match plan_email(job.plan) {
                    Some(e) if trimmed(e@).len() > 0 => (
                        at(CredentialJobStage::LoggingIn, used),
                        view_of(None, logs, None, ActionView::SubmitCredentials(trimmed(e@), plan_password(job.plan)@)),
                    ),
                    _ => finish(
                        used,
                        Some("登录失败"@),
                        logs,
                        ActionView::FinishFailed("missing email for account alias: "@ + alias),
                    ),
                }
            }
        },
        CredentialJobEvent::LoginAttempt(r) => after_login_result(job, used, empty, r),
        CredentialJobEvent::Resumed(o, _) => match state.stage {
            CredentialJobStage::WaitingCaptcha => match o {
                ResumeOutcome::Login => (
                    at(CredentialJobStage::Committing, used),
                    view_of(
                        None,
                        seq![
                            stage_line(alias, false, "阶段：收到验证结果，继续登录"@),
                            stage_line(alias, false, "阶段：登录成功，保存账号结果"@),
                        ],
                        Some(TaskUserInputKind::CaptchaCompleted),
                        ActionView::Commit,
                    ),
                ),
                ResumeOutcome::PromptCredentials => (
                    at(CredentialJobStage::WaitingCredentials { after_captcha: true }, used),
                    view_of(
                        None,
                        seq![stage_line(alias, true, "阶段：验证后需要重新输入账号密码"@)],
                        Some(TaskUserInputKind::CaptchaCompleted),
                        ActionView::WaitForInput(
                            TaskUserInputKind::NewBrowserCredentials,
                            invalid_credentials_message_text(job.operation),
                        ),
                    ),
                ),
                ResumeOutcome::RetryAutomation => back_to_login(
                    used,
                    seq![stage_line(alias, false, "阶段：重试浏览器自动化"@)],
                    Some(TaskUserInputKind::CaptchaCompleted),
                ),
                ResumeOutcome::Cancelled(m) => finish(used, Some("用户取消"@), empty, ActionView::FinishCancelled(m@)),
                ResumeOutcome::Failed(m) => finish(used, Some("验证码等待失败"@), empty, ActionView::FinishFailed(m@)),
                ResumeOutcome::Credentials(_) => wait_captcha(alias, used, None, empty, None),
            },
            _ => {
                let after_captcha = state.stage == (CredentialJobStage::WaitingCredentials { after_captcha: true });
                match o {
                    ResumeOutcome::Credentials(_) => back_to_login(used, empty, Some(TaskUserInputKind::NewBrowserCredentials)),
                    ResumeOutcome::Cancelled(m) => finish(used, Some("用户取消"@), empty, ActionView::FinishCancelled(m@)),
                    ResumeOutcome::Failed(m) => finish(
                        used,
                        Some(if after_captcha { "补充凭据失败"@ } else { "等待输入失败"@ }),
                        empty,
                        ActionView::FinishFailed(m@),
                    ),
                    _ => if after_captcha {
                        wait_captcha(alias, used, None, empty, None)
                    } else {
                        back_to_login(used, empty, None)
                    },
                }
            },
        },
        CredentialJobEvent::Committed(r) => match r {
            Ok(()) => finish(used, Some("任务完成"@), empty, ActionView::FinishCompleted),
            Err(e) => finish(used, Some("任务完成"@), empty, ActionView::FinishFailed(e@)),
        },
    }
}

/// The events that can come in each stage.
pub open spec fn event_fits(stage: CredentialJobStage, event: CredentialJobEvent) -> bool {
    match event {
        CredentialJobEvent::Started => stage is Start,
        CredentialJobEvent::ExistingToken(_) => stage is CheckingExistingToken,
        CredentialJobEvent::SavedBrowserLogin(_) => stage is TryingSavedBrowserLogin,
        CredentialJobEvent::SessionOpened(_) => stage is OpeningSession,
        CredentialJobEvent::SavedGitToken(_) => stage is TryingSavedGitToken,
        CredentialJobEvent::CancelChecked(_) => stage is CheckingCancel,
        CredentialJobEvent::LoginAttempt(_) => stage is LoggingIn,
        CredentialJobEvent::Resumed(_, _) => stage is WaitingCredentials || stage is WaitingCaptcha,
        CredentialJobEvent::Committed(_) => stage is Committing,
    }
}

/// Received credentials apply to the plan when the job waits for them.
pub open spec fn applies_credentials(state: CredentialJobState, event: CredentialJobEvent) -> bool {
    state.stage is WaitingCredentials && event matches CredentialJobEvent::Resumed(ResumeOutcome::Credentials(_), _)
}


// ---------------------------------------------------------------------------
// The step function

fn line(alias: &str, warning: bool, stage: &str) -> (r: StageLog)
    ensures
        (r.warning, r.text@) == stage_line(alias@, warning, stage@),
{
    StageLog { warning, text: concat3(alias, "：", stage) }
}

fn step(
    cleanup: Option<&str>,
    logs: Vec<StageLog>,
    resume: Option<TaskUserInputKind>,
    action: CredentialJobAction,
) -> (r: CredentialJobStep)
    ensures
        step_view(r) == view_of(
            match cleanup {
                Some(c) => Some(c@),
                None => None,
            },
            logs@.map_values(|l: StageLog| (l.warning, l.text@)),
            resume,
            action_view(action),
        ),
{
    CredentialJobStep {
        cleanup: match cleanup {
            Some(c) => Some(owned(c)),
            None => None,
        },
        logs,
        resume_waiting: resume,
        action,
    }
}

pub open spec fn log_views(logs: Seq<StageLog>) -> Seq<(bool, Seq<char>)> {
    logs.map_values(|l: StageLog| (l.warning, l.text@))
}

proof fn lemma_log_views_push(logs: Seq<StageLog>, l: StageLog)
    ensures
        log_views(logs.push(l)) == log_views(logs).push((l.warning, l.text@)),
{
    assert(log_views(logs.push(l)) =~= log_views(logs).push((l.warning, l.text@)));
}

fn one_log(l: StageLog) -> (r: Vec<StageLog>)
    ensures
        log_views(r@) == seq![(l.warning, l.text@)],
{
    let mut v: Vec<StageLog> = Vec::new();
    let ghost lv = (l.warning, l.text@);
    v.push(l);
    assert(log_views(v@) =~= seq![lv]);
    v
}

fn no_logs() -> (r: Vec<StageLog>)
    ensures
        log_views(r@) == Seq::<(bool, Seq<char>)>::empty(),
{
    let v: Vec<StageLog> = Vec::new();
    assert(log_views(v@) =~= Seq::<(bool, Seq<char>)>::empty());
    v
}

fn push_log(v: &mut Vec<StageLog>, l: StageLog)
    ensures
        log_views(final(v)@) == log_views(old(v)@).push((l.warning, l.text@)),
{
    proof {
        lemma_log_views_push(v@, l);
    }
    v.push(l);
}

impl CredentialBrowserItemJob {
    fn after_login(
        &self,
        used: bool,
        logs: Vec<StageLog>,
        result: Result<(), AccountCredentialError>,
    ) -> (r: (CredentialJobState, CredentialJobStep))
        ensures
            (r.0, step_view(r.1)) == after_login_result(*self, used, log_views(logs@), result),
    {
        let alias = self.plan.alias();
        let mut logs = logs;
        match result {
            Ok(()) => {
                push_log(&mut logs, line(alias, false, "阶段：登录成功，保存账号结果"));
                (
                    CredentialJobState { stage: CredentialJobStage::Committing, proxy_fallback_used: used },
                    step(None, logs, None, CredentialJobAction::Commit),
                )
            },
            Err(AccountCredentialError::InvalidCredentials) => {
                push_log(&mut logs, line(alias, true, "阶段：账号密码未通过，等待重新输入"));
                let message = owned(self.operation.invalid_credentials_message());
                (
                    CredentialJobState {
                        stage: CredentialJobStage::WaitingCredentials { after_captcha: false },
                        proxy_fallback_used: used,
                    },
                    step(
                        None,
                        logs,
                        None,
                        CredentialJobAction::WaitForInput {
                            kind: TaskUserInputKind::NewBrowserCredentials,
                            message,
                        },
                    ),
                )
            },
            Err(AccountCredentialError::ChallengeRequired) => {
                push_log(&mut logs, line(alias, true, "阶段：等待 reCAPTCHA"));
                (
                    CredentialJobState { stage: CredentialJobStage::WaitingCaptcha, proxy_fallback_used: used },
                    step(
                        None,
                        logs,
                        None,
                        CredentialJobAction::WaitForInput {
                            kind: TaskUserInputKind::CaptchaCompleted,
                            message: owned("检测到可见 reCAPTCHA，请在对应浏览器窗口中完成验证"),
                        },
                    ),
                )
            },
            Err(e) => {
                let robot = match &e {
                    AccountCredentialError::RobotVerificationBlocked => true,
                    _ => false,
                };
                if robot && self.has_proxy_fallback && !used {
                    push_log(&mut logs, line(alias, true, "阶段：切换代理后重试"));
                    (
                        CredentialJobState {
                            stage: CredentialJobStage::OpeningSession { fallback: true },
                            proxy_fallback_used: used,
                        },
                        step(
                            Some("切换代理"),
                            logs,
                            None,
                            CredentialJobAction::OpenSession { fallback: true },
                        ),
                    )
                } else {
                    let m = account_credential_error_message(&e);
                    (
                        CredentialJobState { stage: CredentialJobStage::Finished, proxy_fallback_used: used },
                        step(Some("登录失败"), logs, None, CredentialJobAction::FinishFailed(m)),
                    )
                }
            },
        }
    }

    /// Decides the job's next step when `event` comes in `state`; new
    /// credentials received while waiting for them are applied to the plan.
    pub fn advance(&mut self, state: CredentialJobState, event: CredentialJobEvent) -> (r: (
        CredentialJobState,
        CredentialJobStep,
    ))
        requires
            event_fits(state.stage, event),
            applies_credentials(state, event) && old(self).plan is Add && (event matches CredentialJobEvent::Resumed(
                ResumeOutcome::Credentials(input),
                _,
            ) && input_email(input) is Some) ==> event matches CredentialJobEvent::Resumed(_, Some(_)),
        ensures
            (r.0, step_view(r.1)) == job_transition(*old(self), state, event),
            final(self).task_id == old(self).task_id,
            final(self).item_id == old(self).item_id,
            final(self).operation == old(self).operation,
            final(self).has_proxy_fallback == old(self).has_proxy_fallback,
            final(self).now_unix == old(self).now_unix,
            applies_credentials(state, event) ==> (event matches CredentialJobEvent::Resumed(
                ResumeOutcome::Credentials(input),
                new_alias,
            ) && credentials_applied(old(self).plan, final(self).plan, input, new_alias)),
            !applies_credentials(state, event) ==> final(self).plan == old(self).plan,
    {
        let used = state.proxy_fallback_used;
        let finished = CredentialJobState { stage: CredentialJobStage::Finished, proxy_fallback_used: used };
        match event {
            CredentialJobEvent::Started => {
                let mut logs = one_log(line(self.plan.alias(), false, "阶段：开始处理"));
                match self.plan.startup_error() {
                    Some(e) => {
                        push_log(&mut logs, line(self.plan.alias(), true, "阶段：启动校验失败"));
                        (finished, step(None, logs, None, CredentialJobAction::FinishFailed(owned(e))))
                    },
                    None => if self.plan.skip_existing_token() {
                        push_log(&mut logs, line(self.plan.alias(), false, "阶段：检查已有 Git token"));
                        (
                            CredentialJobState { stage: CredentialJobStage::CheckingExistingToken, proxy_fallback_used: used },
                            step(None, logs, None, CredentialJobAction::CheckExistingToken),
                        )
                    } else {
                        (
                            CredentialJobState { stage: CredentialJobStage::TryingSavedBrowserLogin, proxy_fallback_used: used },
                            step(None, logs, None, CredentialJobAction::TrySavedBrowserLogin),
                        )
                    },
                }
            },
            CredentialJobEvent::ExistingToken(r) => match r {
                Ok(true) => (finished, step(None, no_logs(), None, CredentialJobAction::FinishSkipped)),
                Ok(false) => (
                    CredentialJobState { stage: CredentialJobStage::TryingSavedBrowserLogin, proxy_fallback_used: used },
                    step(None, no_logs(), None, CredentialJobAction::TrySavedBrowserLogin),
                ),
                Err(e) => (finished, step(None, no_logs(), None, CredentialJobAction::FinishFailed(e))),
            },
            CredentialJobEvent::SavedBrowserLogin(o) => {
                let mut logs = no_logs();
                match o {
                    SavedBrowserLoginOutcome::NotApplicable => {},
                    SavedBrowserLoginOutcome::Completed => {
                        return (finished, step(None, logs, None, CredentialJobAction::FinishCompleted));
                    },
                    SavedBrowserLoginOutcome::Recover(m) => match self.plan.recovery_error() {
                        Some(e) => {
                            return (finished, step(None, logs, None, CredentialJobAction::FinishFailed(owned(e))));
                        },
                        None => {
                            let stage = concat2(m.as_str(), "，转账号密码登录");
                            push_log(&mut logs, line(self.plan.alias(), false, stage.as_str()));
                        },
                    },
                    SavedBrowserLoginOutcome::Failed(m) => {
                        return (finished, step(None, logs, None, CredentialJobAction::FinishFailed(m)));
                    },
                }
                push_log(&mut logs, line(self.plan.alias(), false, "阶段：启动浏览器会话"));
                (
                    CredentialJobState {
                        stage: CredentialJobStage::OpeningSession { fallback: false },
                        proxy_fallback_used: used,
                    },
                    step(None, logs, None, CredentialJobAction::OpenSession { fallback: false }),
                )
            },
            CredentialJobEvent::SessionOpened(r) => {
                let fallback = match state.stage {
                    CredentialJobStage::OpeningSession { fallback } => fallback,
                    _ => false,
                };
                if fallback {
                    match r {
                        Ok(()) => (
                            CredentialJobState { stage: CredentialJobStage::CheckingCancel, proxy_fallback_used: true },
                            step(
                                None,
                                one_log(line(self.plan.alias(), true, "机器人验证未通过，已切换系统代理重试一次")),
                                None,
                                CredentialJobAction::CheckCancel,
                            ),
                        ),
                        Err(b) => (
                            finished,
                            step(
                                None,
                                one_log(line(self.plan.alias(), true, "阶段：代理重试启动失败")),
                                None,
                                CredentialJobAction::FinishFailed(b),
                            ),
                        ),
                    }
                } else {
                    match r {
                        Ok(()) => {
                            let stage = concat2("阶段：", self.operation.running_message());
                            (
                                CredentialJobState { stage: CredentialJobStage::TryingSavedGitToken, proxy_fallback_used: used },
                                step(
                                    None,
                                    one_log(line(self.plan.alias(), false, stage.as_str())),
                                    None,
                                    CredentialJobAction::TrySavedGitToken,
                                ),
                            )
                        },
                        Err(b) => (
                            finished,
                            step(
                                None,
                                one_log(line(self.plan.alias(), true, "阶段：浏览器会话启动失败")),
                                None,
                                CredentialJobAction::FinishFailed(b),
                            ),
                        ),
                    }
                }
            },
            CredentialJobEvent::SavedGitToken(o) => match o {
                SavedGitTokenOutcome::NotApplicable => (
                    CredentialJobState { stage: CredentialJobStage::CheckingCancel, proxy_fallback_used: used },
                    step(None, no_logs(), None, CredentialJobAction::CheckCancel),
                ),
                SavedGitTokenOutcome::Completed => (
                    finished,
                    step(Some("Git token 已完成"), no_logs(), None, CredentialJobAction::FinishCompleted),
                ),
                SavedGitTokenOutcome::Skipped => (
                    finished,
                    step(Some("已有有效 Git token"), no_logs(), None, CredentialJobAction::FinishSkipped),
                ),
                SavedGitTokenOutcome::Recover(m) => match self.plan.recovery_error() {
                    Some(e) => (
                        finished,
                        step(Some("恢复不可用"), no_logs(), None, CredentialJobAction::FinishFailed(owned(e))),
                    ),
                    None => {
                        let stage = concat2(m.as_str(), "，正在转账号密码恢复");
                        (
                            CredentialJobState { stage: CredentialJobStage::CheckingCancel, proxy_fallback_used: used },
                            step(
                                None,
                                one_log(line(self.plan.alias(), true, stage.as_str())),
                                None,
                                CredentialJobAction::CheckCancel,
                            ),
                        )
                    },
                },
                SavedGitTokenOutcome::Failed(m) => (
                    finished,
                    step(Some("Cookie/Git 校验失败"), no_logs(), None, CredentialJobAction::FinishFailed(m)),
                ),
            },
            CredentialJobEvent::CancelChecked(cancelled) => {
                if cancelled {
                    return (
                        finished,
                        step(Some("用户取消"), no_logs(), None, CredentialJobAction::FinishCancelled(owned("用户取消"))),
                    );
                }
                let logs = one_log(line(self.plan.alias(), false, "阶段：提交账号密码"));
                let password = trim(self.plan.password());
                if is_empty_text(password.as_str()) {
                    return self.after_login(used, logs, Err(AccountCredentialError::InvalidCredentials));
                }
                let email = match self.plan.email() {
                    Some(e) => {
                        let t = trim(e);
                        if is_empty_text(t.as_str()) {
                            None
                        } else {
                            Some(t)
                        }
                    },
                    None => None,
                };
                match email {
                    Some(e) => (
                        CredentialJobState { stage: CredentialJobStage::LoggingIn, proxy_fallback_used: used },
                        step(
                            None,
                            logs,
                            None,
                            CredentialJobAction::SubmitCredentials { email: e, password: owned(self.plan.password()) },
                        ),
                    ),
                    None => {
                        let m = concat2("missing email for account alias: ", self.plan.alias());
                        (finished, step(Some("登录失败"), logs, None, CredentialJobAction::FinishFailed(m)))
                    },
                }
            },
            CredentialJobEvent::LoginAttempt(r) => self.after_login(used, no_logs(), r),
            CredentialJobEvent::Resumed(o, new_alias) => {
                let captcha = match state.stage {
                    CredentialJobStage::WaitingCaptcha => true,
                    _ => false,
                };
                let after_captcha = match state.stage {
                    CredentialJobStage::WaitingCredentials { after_captcha } => after_captcha,
                    _ => false,
                };
                let wait_captcha_step = |logs: Vec<StageLog>| -> (r: (CredentialJobState, CredentialJobStep))
                    ensures
                        (r.0, step_view(r.1)) == wait_captcha(plan_alias(self.plan)@, used, None, log_views(logs@), None),
                {
                    let mut logs = logs;
                    push_log(&mut logs, line(self.plan.alias(), true, "阶段：等待 reCAPTCHA"));
                    (
                        CredentialJobState { stage: CredentialJobStage::WaitingCaptcha, proxy_fallback_used: used },
                        step(
                            None,
                            logs,
                            None,
                            CredentialJobAction::WaitForInput {
                                kind: TaskUserInputKind::CaptchaCompleted,
                                message: owned("检测到可见 reCAPTCHA，请在对应浏览器窗口中完成验证"),
                            },
                        ),
                    )
                };
                if captcha {
                    match o {
                        ResumeOutcome::Login => {
                            let mut logs = one_log(line(self.plan.alias(), false, "阶段：收到验证结果，继续登录"));
                            push_log(&mut logs, line(self.plan.alias(), false, "阶段：登录成功，保存账号结果"));
                            (
                                CredentialJobState { stage: CredentialJobStage::Committing, proxy_fallback_used: used },
                                step(None, logs, Some(TaskUserInputKind::CaptchaCompleted), CredentialJobAction::Commit),
                            )
                        },
                        ResumeOutcome::PromptCredentials => {
                            let message = owned(self.operation.invalid_credentials_message());
                            (
                                CredentialJobState {
                                    stage: CredentialJobStage::WaitingCredentials { after_captcha: true },
                                    proxy_fallback_used: used,
                                },
                                step(
                                    None,
                                    one_log(line(self.plan.alias(), true, "阶段：验证后需要重新输入账号密码")),
                                    Some(TaskUserInputKind::CaptchaCompleted),
                                    CredentialJobAction::WaitForInput {
                                        kind: TaskUserInputKind::NewBrowserCredentials,
                                        message,
                                    },
                                ),
                            )
                        },
                        ResumeOutcome::RetryAutomation => (
                            CredentialJobState { stage: CredentialJobStage::CheckingCancel, proxy_fallback_used: used },
                            step(
                                None,
                                one_log(line(self.plan.alias(), false, "阶段：重试浏览器自动化")),
                                Some(TaskUserInputKind::CaptchaCompleted),
                                CredentialJobAction::CheckCancel,
                            ),
                        ),
                        ResumeOutcome::Cancelled(m) => (
                            finished,
                            step(Some("用户取消"), no_logs(), None, CredentialJobAction::FinishCancelled(m)),
                        ),
                        ResumeOutcome::Failed(m) => (
                            finished,
                            step(Some("验证码等待失败"), no_logs(), None, CredentialJobAction::FinishFailed(m)),
                        ),
                        ResumeOutcome::Credentials(_) => wait_captcha_step(no_logs()),
                    }
                } else {
                    match o {
                        ResumeOutcome::Credentials(input) => {
                            self.plan.apply_credentials(input, new_alias);
                            (
                                CredentialJobState { stage: CredentialJobStage::CheckingCancel, proxy_fallback_used: used },
                                step(
                                    None,
                                    no_logs(),
                                    Some(TaskUserInputKind::NewBrowserCredentials),
                                    CredentialJobAction::CheckCancel,
                                ),
                            )
                        },
                        ResumeOutcome::Cancelled(m) => (
                            finished,
                            step(Some("用户取消"), no_logs(), None, CredentialJobAction::FinishCancelled(m)),
                        ),
                        ResumeOutcome::Failed(m) => {
                            let reason = if after_captcha {
                                "补充凭据失败"
                            } else {
                                "等待输入失败"
                            };
                            (finished, step(Some(reason), no_logs(), None, CredentialJobAction::FinishFailed(m)))
                        },
                        _ => if after_captcha {
                            wait_captcha_step(no_logs())
                        } else {
                            (
                                CredentialJobState { stage: CredentialJobStage::CheckingCancel, proxy_fallback_used: used },
                                step(None, no_logs(), None, CredentialJobAction::CheckCancel),
                            )
                        },
                    }
                }
            },
            CredentialJobEvent::Committed(r) => match r {
                Ok(()) => (
                    finished,
                    step(Some("任务完成"), no_logs(), None, CredentialJobAction::FinishCompleted),
                ),
                Err(e) => (
                    finished,
                    step(Some("任务完成"), no_logs(), None, CredentialJobAction::FinishFailed(e)),
                ),
            },
        }
    }
}

/// How a job ends after saving its result: a failed commit fails the job
/// with the commit's own error, a successful one completes it; and the job
/// completes only after a successful commit, a completed saved browser
/// login or a completed saved Git token.
pub proof fn commit_result_decides_how_the_job_ends(
    job: CredentialBrowserItemJob,
    state: CredentialJobState,
    event: CredentialJobEvent,
)
    ensures
        event matches CredentialJobEvent::Committed(Err(e)) ==> ({
            let (next, step) = job_transition(job, state, event);
            next.stage is Finished && step.action == ActionView::FinishFailed(e@)
        }),
        event matches CredentialJobEvent::Committed(Ok(())) ==> ({
            let (next, step) = job_transition(job, state, event);
            next.stage is Finished && step.action == ActionView::FinishCompleted
        }),
        job_transition(job, state, event).1.action == ActionView::FinishCompleted ==> (
            event matches CredentialJobEvent::Committed(Ok(()))
            || event matches CredentialJobEvent::SavedBrowserLogin(SavedBrowserLoginOutcome::Completed)
            || event matches CredentialJobEvent::SavedGitToken(SavedGitTokenOutcome::Completed)),
{
}

/// A failure reported at any step ends the job with that failure's own
/// message, a cancelled wait ends it cancelled with the wait's message, and
/// the job is skipped only when a valid Git token is there already; the job
/// is finished exactly when its action is one of the endings.
pub proof fn reported_failures_end_the_job_with_their_message(
    job: CredentialBrowserItemJob,
    state: CredentialJobState,
    event: CredentialJobEvent,
)
    ensures
        ({
            let (next, step) = job_transition(job, state, event);
            &&& event matches CredentialJobEvent::ExistingToken(Err(e)) ==> step.action == ActionView::FinishFailed(e@)
            &&& event matches CredentialJobEvent::SavedBrowserLogin(SavedBrowserLoginOutcome::Failed(m))
                ==> step.action == ActionView::FinishFailed(m@)
            &&& event matches CredentialJobEvent::SavedGitToken(SavedGitTokenOutcome::Failed(m))
                ==> step.action == ActionView::FinishFailed(m@)
            &&& event matches CredentialJobEvent::SessionOpened(Err(m)) ==> step.action == ActionView::FinishFailed(m@)
            &&& event matches CredentialJobEvent::Resumed(ResumeOutcome::Failed(m), _)
                ==> step.action == ActionView::FinishFailed(m@)
            &&& event matches CredentialJobEvent::Resumed(ResumeOutcome::Cancelled(m), _)
                ==> step.action == ActionView::FinishCancelled(m@)
            &&& step.action == ActionView::FinishSkipped ==> (
                event matches CredentialJobEvent::ExistingToken(Ok(true))
                || event matches CredentialJobEvent::SavedGitToken(SavedGitTokenOutcome::Skipped))
            &&& next.stage is Finished <==> (step.action is FinishCompleted || step.action is FinishSkipped
                || step.action is FinishFailed || step.action is FinishCancelled)
        }),
{
}

} // verus!
