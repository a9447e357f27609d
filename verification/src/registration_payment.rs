//! The payment step of a registration, as a state machine: cards are tried
//! one after another until a payment succeeds, the cards run out, or an
//! error ends the registration. The caller reads the card store, selects a
//! card, fills and submits the payment form and marks cards, and hands back
//! what came of each.

use vstd::prelude::*;
use crate::browser_states::CdpRegistrationState;
use crate::errors_remote::AccountRegistrationError;
use crate::registration::{registration_state_debug_name, registration_state_debug_text, BrowserAutomationError};
use crate::text::{concat2, concat3, decimal, owned, text_eq, usize_decimal};

verus! {

/// Where the payment step stands.
#[derive(Debug, Clone, Copy, PartialEq, Eq, Structural)]
pub enum PaymentStage {
    LoadingCards,
    SelectingCard,
    FillingPayment,
    SubmittingPayment,
    MarkingUsed,
    MarkingFailed,
    Done,
}

/// The state of the payment step.
pub struct PaymentRetryState {
    pub stage: PaymentStage,
    /// The numbers of the cards tried so far, each once.
    pub attempted: Vec<String>,
    /// The card being tried.
    pub selected: Option<String>,
}

/// What the registration asks of the payment step.
pub struct PaymentRetryConfig {
    pub trial_days: u32,
    /// How the card selection strategy reads in the log.
    pub strategy_label: String,
}

/// What the caller reports back.
pub enum PaymentEvent {
    /// The card store was read, or the error's text.
    CardsLoaded(Result<(), String>),
    /// The number of the card selected among those not yet tried, `None`
    /// when no card fits, or the error's text.
    CardSelected(Result<Option<String>, String>),
    /// How many address and payment fields were filled.
    PaymentFilled(Result<(usize, usize), BrowserAutomationError>),
    /// The state the payment reached, or the error with its text.
    PaymentSubmitted(Result<CdpRegistrationState, (BrowserAutomationError, String)>),
    /// Whether marking the card succeeded, or the error's text.
    CardMarked(Result<(), String>),
}

/// A step of the registration task that the payment step reaches.
#[derive(Debug, Clone, Copy, PartialEq, Eq, Structural)]
pub enum PaymentTaskStep {
    SelectCard,
    FillPayment,
    SubmitPayment,
    WaitThankYou,
}

/// What the caller does next.
pub enum PaymentAction {
    LoadCards,
    /// Select a card whose number is not among `attempted`.
    SelectCard,
    FillPayment { card: String },
    SubmitPayment,
    MarkCardUsed { card: String },
    MarkCardFailed { card: String, message: String },
    /// Keep the registration session and wait for the user.
    WaitForInput,
    /// Clean the session up and fail the registration with this error.
    Fail(AccountRegistrationError),
    /// Clean the session up and fail the registration with this browser error.
    FailAutomation(BrowserAutomationError),
    /// The payment went through: go on with the registration.
    ContinueAfterPayment { accept_extra_trial_offer: bool },
}

/// One line of the task log.
pub struct PaymentLog {
    pub warning: bool,
    pub text: String,
}

/// What one step asks of the caller, in order: set the task's `steps`,
/// append `logs`, then perform `action`.
pub struct PaymentStep {
    pub steps: Vec<PaymentTaskStep>,
    pub logs: Vec<PaymentLog>,
    pub action: PaymentAction,
}

// ---------------------------------------------------------------------------
// Views

pub struct PaymentView {
    pub stage: PaymentStage,
    pub attempted: Seq<Seq<char>>,
    pub selected: Option<Seq<char>>,
}

pub enum PaymentActionView {
    LoadCards,
    SelectCard,
    FillPayment(Seq<char>),
    SubmitPayment,
    MarkCardUsed(Seq<char>),
    MarkCardFailed(Seq<char>, Seq<char>),
    WaitForInput,
    FailBrowser(Seq<char>),
    FailAutomation(BrowserAutomationError),
    ContinueAfterPayment(bool),
}

pub struct PaymentStepView {
    pub steps: Seq<PaymentTaskStep>,
    pub logs: Seq<(bool, Seq<char>)>,
    pub action: PaymentActionView,
}

pub open spec fn opt_view(o: Option<String>) -> Option<Seq<char>> {
    match o {
        Some(s) => Some(s@),
        None => None,
    }
}

pub open spec fn payment_view(s: PaymentRetryState) -> PaymentView {
    PaymentView {
        stage: s.stage,
        attempted: s.attempted@.map_values(|c: String| c@),
        selected: opt_view(s.selected),
    }
}

/// `Fail` is only ever given a browser error by this machine.
pub open spec fn action_view(a: PaymentAction) -> PaymentActionView {
    match a {
        PaymentAction::LoadCards => PaymentActionView::LoadCards,
        PaymentAction::SelectCard => PaymentActionView::SelectCard,
        PaymentAction::FillPayment { card } => PaymentActionView::FillPayment(card@),
        PaymentAction::SubmitPayment => PaymentActionView::SubmitPayment,
        PaymentAction::MarkCardUsed { card } => PaymentActionView::MarkCardUsed(card@),
        PaymentAction::MarkCardFailed { card, message } => PaymentActionView::MarkCardFailed(card@, message@),
        PaymentAction::WaitForInput => PaymentActionView::WaitForInput,
        PaymentAction::Fail(e) => match e {
            AccountRegistrationError::Browser { message } => PaymentActionView::FailBrowser(message@),
            _ => PaymentActionView::FailBrowser(Seq::empty()),
        },
        PaymentAction::FailAutomation(e) => PaymentActionView::FailAutomation(e),
        PaymentAction::ContinueAfterPayment { accept_extra_trial_offer } => PaymentActionView::ContinueAfterPayment(
            accept_extra_trial_offer,
        ),
    }
}

pub open spec fn step_view(s: PaymentStep) -> PaymentStepView {
    PaymentStepView {
        steps: s.steps@,
        logs: s.logs@.map_values(|l: PaymentLog| (l.warning, l.text@)),
        action: action_view(s.action),
    }
}

/// The action is a `Fail` with a browser error, as the view reads it.
pub open spec fn fail_is_browser(a: PaymentAction) -> bool {
    a matches PaymentAction::Fail(e) ==> e is Browser
}

// ---------------------------------------------------------------------------
// The transition table

/// The event is the one the stage waits for.
pub open spec fn event_fits(stage: PaymentStage, e: PaymentEvent) -> bool {
    match stage {
        PaymentStage::LoadingCards => e is CardsLoaded,
        PaymentStage::SelectingCard => e is CardSelected,
        PaymentStage::FillingPayment => e is PaymentFilled,
        PaymentStage::SubmittingPayment => e is PaymentSubmitted,
        PaymentStage::MarkingUsed => e is CardMarked,
        PaymentStage::MarkingFailed => e is CardMarked,
        PaymentStage::Done => false,
    }
}

/// The tried cards are distinct, and a card is selected while it is
/// being filled in, submitted or marked.
pub open spec fn payment_wf(s: PaymentView) -> bool {
    &&& forall|i: int, j: int| 0 <= i < j < s.attempted.len() ==> s.attempted[i] != s.attempted[j]
    &&& (s.stage is FillingPayment || s.stage is SubmittingPayment || s.stage is MarkingUsed || s.stage is MarkingFailed)
        ==> s.selected is Some
}

/// `card` added to the tried cards unless it is among them already.
pub open spec fn with_attempted(attempted: Seq<Seq<char>>, card: Seq<char>) -> Seq<Seq<char>> {
    if attempted.contains(card) {
        attempted
    } else {
        attempted.push(card)
    }
}

pub open spec fn ends(s: PaymentView, logs: Seq<(bool, Seq<char>)>, action: PaymentActionView) -> (PaymentView, PaymentStepView) {
    (PaymentView { stage: PaymentStage::Done, ..s }, PaymentStepView { steps: Seq::empty(), logs, action })
}

pub open spec fn moves(
    s: PaymentView,
    stage: PaymentStage,
    steps: Seq<PaymentTaskStep>,
    logs: Seq<(bool, Seq<char>)>,
    action: PaymentActionView,
) -> (PaymentView, PaymentStepView) {
    (PaymentView { stage, ..s }, PaymentStepView { steps, logs, action })
}

/// What the payment step does when `e` comes in `s`.
pub open spec fn payment_transition(
    trial_days: u32,
    strategy: Seq<char>,
    s: PaymentView,
    e: PaymentEvent,
) -> (PaymentView, PaymentStepView) {
    let card = s.selected->0;
    match e {
        PaymentEvent::CardsLoaded(Ok(_)) => moves(s, PaymentStage::SelectingCard, Seq::empty(), Seq::empty(), PaymentActionView::SelectCard),
        PaymentEvent::CardsLoaded(Err(m)) => {
            let logs = seq![(true, "订阅页已打开，但无法读取银行卡库: "@ + m@)];
            if s.attempted.len() == 0 {
                ends(s, logs, PaymentActionView::WaitForInput)
            } else {
                ends(s, logs, PaymentActionView::FailBrowser("payment cards exhausted after retries"@))
            }
        },
        PaymentEvent::CardSelected(Ok(Some(n))) => (
            PaymentView { stage: PaymentStage::FillingPayment, attempted: with_attempted(s.attempted, n@), selected: Some(n@) },
            PaymentStepView {
                steps: seq![PaymentTaskStep::SelectCard, PaymentTaskStep::FillPayment],
                logs: Seq::empty(),
                action: PaymentActionView::FillPayment(n@),
            },
        ),
        PaymentEvent::CardSelected(Ok(None)) => if s.attempted.len() == 0 {
            ends(s, seq![(true, "订阅页已打开，但没有符合 "@ + strategy + " 策略和当前 BIN 范围的可用银行卡"@)], PaymentActionView::WaitForInput)
        } else {
            ends(s, Seq::empty(), PaymentActionView::FailBrowser("payment failed and no unattempted card remains"@))
        },
        PaymentEvent::CardSelected(Err(m)) => ends(s, seq![(true, "读取银行卡敏感字段失败: "@ + m@)], PaymentActionView::FailBrowser(m@)),
        PaymentEvent::PaymentFilled(Ok((a, p))) => moves(
            s,
            PaymentStage::SubmittingPayment,
            seq![PaymentTaskStep::SubmitPayment],
            seq![(false, "已填写订阅地址和支付 iframe 字段: address_fields="@ + decimal(a as nat) + ", payment_fields="@ + decimal(p as nat))],
            PaymentActionView::SubmitPayment,
        ),
        PaymentEvent::PaymentFilled(Err(err)) => ends(s, Seq::empty(), PaymentActionView::FailAutomation(err)),
        PaymentEvent::PaymentSubmitted(Ok(CdpRegistrationState::SubscriptionSucceeded)) => moves(
            s,
            PaymentStage::MarkingUsed,
            seq![PaymentTaskStep::WaitThankYou],
            seq![(false, "支付成功，已确认订阅生效"@)],
            PaymentActionView::MarkCardUsed(card),
        ),
        PaymentEvent::PaymentSubmitted(Ok(other)) => ends(
            s,
            Seq::empty(),
            PaymentActionView::FailBrowser("payment did not reach subscription success: "@ + registration_state_debug_text(other)),
        ),
        PaymentEvent::PaymentSubmitted(Err((err, text))) => if err is Other {
            moves(s, PaymentStage::MarkingFailed, Seq::empty(), Seq::empty(), PaymentActionView::MarkCardFailed(card, text@))
        } else {
            ends(s, Seq::empty(), PaymentActionView::FailAutomation(err))
        },
        PaymentEvent::CardMarked(r) => if s.stage is MarkingUsed {
            let logs = match r {
                Ok(_) => Seq::empty(),
                Err(m) => seq![(true, "支付成功，但标记银行卡已使用失败: "@ + m@)],
            };
            ends(s, logs, PaymentActionView::ContinueAfterPayment(trial_days == 21))
        } else {
            let first = match r {
                Ok(_) => Seq::empty(),
                Err(m) => seq![(true, "支付失败，且标记银行卡失败状态失败: "@ + m@)],
            };
            moves(
                s,
                PaymentStage::LoadingCards,
                Seq::empty(),
                first.push((true, "当前银行卡支付失败，正在尝试下一张可用卡"@)),
                PaymentActionView::LoadCards,
            )
        },
    }
}

// ---------------------------------------------------------------------------
// Executing the table

/// Adds `card` to the tried cards unless it is among them already.
fn remember_card(attempted: &mut Vec<String>, card: &String)
    ensures
        final(attempted)@.map_values(|c: String| c@) == with_attempted(old(attempted)@.map_values(|c: String| c@), card@),
{
    let ghost before = attempted@.map_values(|c: String| c@);
    let mut i: usize = 0;
    while i < attempted.len()
        invariant
            i <= attempted@.len(),
            before == attempted@.map_values(|c: String| c@),
            forall|k: int| 0 <= k < i ==> before[k] != card@,
        decreases attempted.len() - i,
    {
        if text_eq(attempted[i].as_str(), card.as_str()) {
            assert(before[i as int] == card@);
            return;
        }
        i = i + 1;
    }
    assert(!before.contains(card@));
    attempted.push(card.clone());
    assert(attempted@.map_values(|c: String| c@) =~= before.push(card@));
}

fn log_line(warning: bool, text: String) -> (r: Vec<PaymentLog>)
    ensures
        r@.map_values(|l: PaymentLog| (l.warning, l.text@)) == seq![(warning, text@)],
{
    let mut v: Vec<PaymentLog> = Vec::new();
    v.push(PaymentLog { warning, text });
    assert(v@.map_values(|l: PaymentLog| (l.warning, l.text@)) =~= seq![(warning, text@)]);
    v
}

fn no_logs() -> (r: Vec<PaymentLog>)
    ensures
        r@.map_values(|l: PaymentLog| (l.warning, l.text@)) == Seq::<(bool, Seq<char>)>::empty(),
{
    let v: Vec<PaymentLog> = Vec::new();
    assert(v@.map_values(|l: PaymentLog| (l.warning, l.text@)) =~= Seq::<(bool, Seq<char>)>::empty());
    v
}

fn browser_failure(message: &str) -> (r: PaymentAction)
    ensures
        action_view(r) == PaymentActionView::FailBrowser(message@),
        fail_is_browser(r),
{
    PaymentAction::Fail(AccountRegistrationError::Browser { message: owned(message) })
}

impl PaymentRetryState {
    /// The payment step before anything was tried: the card store is read
    /// first.
    pub fn start() -> (r: (PaymentRetryState, PaymentAction))
        ensures
            r.0.stage == PaymentStage::LoadingCards,
            r.0.attempted@.len() == 0,
            r.0.selected is None,
            r.1 is LoadCards,
    {
        (PaymentRetryState { stage: PaymentStage::LoadingCards, attempted: Vec::new(), selected: None }, PaymentAction::LoadCards)
    }
}

/// Decides what follows `event` in `state`, as `payment_transition` says.
pub fn advance_payment(config: &PaymentRetryConfig, state: PaymentRetryState, event: PaymentEvent) -> (r: (
    PaymentRetryState,
    PaymentStep,
))
    requires
        event_fits(state.stage, event),
        payment_wf(payment_view(state)),
    ensures
        (payment_view(r.0), step_view(r.1)) == payment_transition(
            config.trial_days,
            config.strategy_label@,
            payment_view(state),
            event,
        ),
        fail_is_browser(r.1.action),
        payment_wf(payment_view(r.0)),
{
    let ghost sv = payment_view(state);
    let PaymentRetryState { stage, attempted, selected } = state;
    let empty_steps: Vec<PaymentTaskStep> = Vec::new();
    proof {
        assert(empty_steps@ =~= Seq::<PaymentTaskStep>::empty());
    }
    let done = PaymentStage::Done;
    match event {
        PaymentEvent::CardsLoaded(Ok(_)) => {
            let next = PaymentRetryState { stage: PaymentStage::SelectingCard, attempted, selected };
            (next, PaymentStep { steps: empty_steps, logs: no_logs(), action: PaymentAction::SelectCard })
        },
        PaymentEvent::CardsLoaded(Err(m)) => {
            let logs = log_line(true, concat2("订阅页已打开，但无法读取银行卡库: ", m.as_str()));
            let action = if attempted.len() == 0 {
                PaymentAction::WaitForInput
            } else {
                browser_failure("payment cards exhausted after retries")
            };
            (PaymentRetryState { stage: done, attempted, selected }, PaymentStep { steps: empty_steps, logs, action })
        },
        PaymentEvent::CardSelected(Ok(Some(n))) => {
            let mut attempted = attempted;
            remember_card(&mut attempted, &n);
            proof {
                let a = attempted@.map_values(|c: String| c@);
                assert forall|i: int, j: int| 0 <= i < j < a.len() implies a[i] != a[j] by {
                    if j == a.len() - 1 && !sv.attempted.contains(n@) {
                        assert(a[j] == n@);
                        assert(a[i] == sv.attempted[i]);
                        if a[i] == a[j] {
                            assert(sv.attempted.contains(n@));
                        }
                    }
                }
            }
            let mut steps: Vec<PaymentTaskStep> = Vec::new();
            steps.push(PaymentTaskStep::SelectCard);
            steps.push(PaymentTaskStep::FillPayment);
            proof {
                assert(steps@ =~= seq![PaymentTaskStep::SelectCard, PaymentTaskStep::FillPayment]);
            }
            let card = n.clone();
            let next = PaymentRetryState { stage: PaymentStage::FillingPayment, attempted, selected: Some(n) };
            (next, PaymentStep { steps, logs: no_logs(), action: PaymentAction::FillPayment { card } })
        },
        PaymentEvent::CardSelected(Ok(None)) => {
            if attempted.len() == 0 {
                let logs = log_line(true, concat3("订阅页已打开，但没有符合 ", config.strategy_label.as_str(), " 策略和当前 BIN 范围的可用银行卡"));
                (PaymentRetryState { stage: done, attempted, selected }, PaymentStep { steps: empty_steps, logs, action: PaymentAction::WaitForInput })
            } else {
                let action = browser_failure("payment failed and no unattempted card remains");
                (PaymentRetryState { stage: done, attempted, selected }, PaymentStep { steps: empty_steps, logs: no_logs(), action })
            }
        },
        PaymentEvent::CardSelected(Err(m)) => {
            let logs = log_line(true, concat2("读取银行卡敏感字段失败: ", m.as_str()));
            let action = browser_failure(m.as_str());
            (PaymentRetryState { stage: done, attempted, selected }, PaymentStep { steps: empty_steps, logs, action })
        },
        PaymentEvent::PaymentFilled(Ok((a, p))) => {
            let text = concat2(
                concat3("已填写订阅地址和支付 iframe 字段: address_fields=", usize_decimal(a).as_str(), ", payment_fields=").as_str(),
                usize_decimal(p).as_str(),
            );
            let mut steps: Vec<PaymentTaskStep> = Vec::new();
            steps.push(PaymentTaskStep::SubmitPayment);
            proof {
                assert(steps@ =~= seq![PaymentTaskStep::SubmitPayment]);
            }
            let next = PaymentRetryState { stage: PaymentStage::SubmittingPayment, attempted, selected };
            (next, PaymentStep { steps, logs: log_line(false, text), action: PaymentAction::SubmitPayment })
        },
        PaymentEvent::PaymentFilled(Err(err)) => {
            (PaymentRetryState { stage: done, attempted, selected }, PaymentStep { steps: empty_steps, logs: no_logs(), action: PaymentAction::FailAutomation(err) })
        },
        PaymentEvent::PaymentSubmitted(Ok(reached)) => {
            match reached {
                CdpRegistrationState::SubscriptionSucceeded => {
                    let card = match &selected {
                        Some(c) => c.clone(),
                        None => String::new(),
                    };
                    let mut steps: Vec<PaymentTaskStep> = Vec::new();
                    steps.push(PaymentTaskStep::WaitThankYou);
                    proof {
                        assert(steps@ =~= seq![PaymentTaskStep::WaitThankYou]);
                    }
                    let logs = log_line(false, owned("支付成功，已确认订阅生效"));
                    let next = PaymentRetryState { stage: PaymentStage::MarkingUsed, attempted, selected };
                    (next, PaymentStep { steps, logs, action: PaymentAction::MarkCardUsed { card } })
                },
                other => {
                    let message = concat2("payment did not reach subscription success: ", registration_state_debug_name(other));
                    let action = browser_failure(message.as_str());
                    (PaymentRetryState { stage: done, attempted, selected }, PaymentStep { steps: empty_steps, logs: no_logs(), action })
                },
            }
        },
        PaymentEvent::PaymentSubmitted(Err((err, text))) => {
            match err {
                BrowserAutomationError::Other { message } => {
                    let card = match &selected {
                        Some(c) => c.clone(),
                        None => String::new(),
                    };
                    let next = PaymentRetryState { stage: PaymentStage::MarkingFailed, attempted, selected };
                    (next, PaymentStep { steps: empty_steps, logs: no_logs(), action: PaymentAction::MarkCardFailed { card, message: text } })
                },
                err => {
                    (PaymentRetryState { stage: done, attempted, selected }, PaymentStep { steps: empty_steps, logs: no_logs(), action: PaymentAction::FailAutomation(err) })
                },
            }
        },
        PaymentEvent::CardMarked(r) => {
            if stage == PaymentStage::MarkingUsed {
                let logs = match r {
                    Ok(_) => no_logs(),
                    Err(m) => log_line(true, concat2("支付成功，但标记银行卡已使用失败: ", m.as_str())),
                };
                let action = PaymentAction::ContinueAfterPayment { accept_extra_trial_offer: config.trial_days == 21 };
                (PaymentRetryState { stage: done, attempted, selected }, PaymentStep { steps: empty_steps, logs, action })
            } else {
                let mut logs = match r {
                    Ok(_) => no_logs(),
                    Err(m) => log_line(true, concat2("支付失败，且标记银行卡失败状态失败: ", m.as_str())),
                };
                let ghost before = logs@.map_values(|l: PaymentLog| (l.warning, l.text@));
                logs.push(PaymentLog { warning: true, text: owned("当前银行卡支付失败，正在尝试下一张可用卡") });
                proof {
                    assert(logs@.map_values(|l: PaymentLog| (l.warning, l.text@)) =~= before.push((true, "当前银行卡支付失败，正在尝试下一张可用卡"@)));
                }
                let next = PaymentRetryState { stage: PaymentStage::LoadingCards, attempted, selected };
                (next, PaymentStep { steps: empty_steps, logs, action: PaymentAction::LoadCards })
            }
        },
    }
}

/// Every step keeps the tried cards, in order, and adds at most the card
/// it selects, which was not tried before; the payment step waits for the
/// user only before any card was tried, and every wait, failure or
/// continuation ends it.
pub proof fn payment_step_laws(trial_days: u32, strategy: Seq<char>, s: PaymentView, e: PaymentEvent)
    requires
        payment_wf(s),
        event_fits(s.stage, e),
    ensures
        ({
            let (n, step) = payment_transition(trial_days, strategy, s, e);
            &&& payment_wf(n)
            &&& s.attempted.is_prefix_of(n.attempted)
            &&& n.attempted.len() <= s.attempted.len() + 1
            &&& (step.action is WaitForInput ==> s.attempted.len() == 0)
            &&& (step.action is WaitForInput || step.action is FailBrowser || step.action is FailAutomation
                || step.action is ContinueAfterPayment) <==> n.stage is Done
        }),
{
    let (n, step) = payment_transition(trial_days, strategy, s, e);
    if let PaymentEvent::CardSelected(Ok(Some(c))) = e {
        if !s.attempted.contains(c@) {
            let a = n.attempted;
            assert forall|i: int, j: int| 0 <= i < j < a.len() implies a[i] != a[j] by {
                if j == a.len() - 1 {
                    assert(a[i] == s.attempted[i]);
                    if a[i] == a[j] {
                        assert(s.attempted.contains(c@));
                    }
                }
            }
        }
    }
    assert(s.attempted.is_prefix_of(n.attempted));
}

} // verus!
