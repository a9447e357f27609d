//! Registering a new account, up to the hand-over to a browser: the
//! registration slot, the task, and the check for an e-mail that is saved
//! already, which skips the registration and reports the saved alias.

use vstd::prelude::*;
use crate::registration_flow::{
    is_registration_busy_response, slot_after_release, slot_after_reserve, slot_owner,
    RegistrationSlot,
};
use crate::response::{error_response, is_error_response, ApiResponse};
use crate::text::owned;

verus! {

/// Where a new registration stands.
#[derive(Debug, Clone, Copy, PartialEq, Eq, Structural)]
pub enum NewRegistrationStage {
    /// Waiting for the task to be started.
    StartingTask,
    /// Waiting for the look-up of the e-mail among the saved accounts.
    CheckingDuplicate,
    /// Nothing more to decide here.
    Finished,
}

/// What to do next.
pub enum NewRegistrationAction {
    /// Start the task under `task_name`, locking the alias.
    StartTask { task_name: String },
    /// Look the e-mail up among the saved accounts.
    CheckDuplicate,
    /// Answer `response`; the task is left as it is.
    Respond(ApiResponse),
    /// Skip the registration: the e-mail is saved as `existing_alias`.
    /// Complete the task with `message` and answer 200 with a report whose
    /// status is "skipped duplicate e-mail".
    SkipDuplicate { existing_alias: String, message: String },
    /// Register in a local Chrome session tied to the task.
    RegisterWithLocalChrome,
    /// Register with the configured browser automation.
    RegisterWithBrowser,
    /// Fail the task (where there is one) with `message` and answer `response`.
    FailTask { message: String, response: ApiResponse },
}

/// A registration of a new account under `alias`, tracked as `task_id`
/// when there is one; `slot_reserved` says whether it holds the slot.
pub struct NewRegistrationRun {
    pub task_id: Option<String>,
    pub alias: String,
    pub slot_reserved: bool,
    pub stage: NewRegistrationStage,
}

/// The name of the task of a new registration.
pub open spec fn new_registration_task_name() -> Seq<char> {
    "自动注册账号"@
}

/// The message a registration skipped for a saved e-mail completes with.
pub open spec fn duplicate_email_message() -> Seq<char> {
    "邮箱已在本地存在，跳过注册"@
}

/// The slot after the run gives it back: released for its task when it
/// holds the slot, untouched otherwise.
pub open spec fn slot_given_back(run: NewRegistrationRun, before: Option<Seq<char>>) -> Option<Seq<char>> {
    match run.task_id {
        Some(t) => if run.slot_reserved {
            slot_after_release(before, t@)
        } else {
            before
        },
        None => before,
    }
}

impl NewRegistrationRun {
    /// Starts a registration: with a task id it takes the registration slot
    /// (a busy slot refuses it with 409) and starts the task; without one
    /// it goes straight to the e-mail check.
    pub fn begin(slot: &mut RegistrationSlot, task_id: Option<String>, alias: &str) -> (r: Result<
        (NewRegistrationRun, NewRegistrationAction),
        ApiResponse,
    >)
        ensures
            (task_id is Some && slot_owner(*old(slot)) is Some) ==> (r matches Err(e)
                && is_registration_busy_response(e) && slot_owner(*final(slot)) == slot_owner(*old(slot))),
            (task_id is Some && slot_owner(*old(slot)) is None) ==> (r matches Ok((run, a))
                && run.task_id == task_id && run.alias@ == alias@ && run.slot_reserved
                && run.stage == NewRegistrationStage::StartingTask
                && (a matches NewRegistrationAction::StartTask { task_name } && task_name@ == new_registration_task_name())
                && slot_owner(*final(slot)) == slot_after_reserve(slot_owner(*old(slot)), task_id->0@)),
            task_id is None ==> (r matches Ok((run, a)) && run.task_id is None && run.alias@ == alias@
                && !run.slot_reserved && run.stage == NewRegistrationStage::CheckingDuplicate
                && a is CheckDuplicate && *final(slot) == *old(slot)),
    {
        match task_id {
            Some(t) => {
                match slot.reserve(t.as_str()) {
                    Ok(()) => {},
                    Err(e) => return Err(e),
                }
                let run = NewRegistrationRun {
                    task_id: Some(t),
                    alias: owned(alias),
                    slot_reserved: true,
                    stage: NewRegistrationStage::StartingTask,
                };
                Ok((run, NewRegistrationAction::StartTask { task_name: owned("自动注册账号") }))
            },
            None => {
                let run = NewRegistrationRun {
                    task_id: None,
                    alias: owned(alias),
                    slot_reserved: false,
                    stage: NewRegistrationStage::CheckingDuplicate,
                };
                Ok((run, NewRegistrationAction::CheckDuplicate))
            },
        }
    }

    fn give_back(&self, slot: &mut RegistrationSlot)
        ensures
            slot_owner(*final(slot)) == slot_given_back(*self, slot_owner(*old(slot))),
    {
        if self.slot_reserved {
            match &self.task_id {
                Some(t) => slot.release(t.as_str()),
                None => {},
            }
        }
    }

    /// The task was started, or refused with `Err`: a refused start gives
    /// the slot back and answers the refusal.
    pub fn task_started(&mut self, slot: &mut RegistrationSlot, started: Result<(), ApiResponse>) -> (r: NewRegistrationAction)
        requires
            old(self).stage == NewRegistrationStage::StartingTask,
        ensures
            final(self).task_id == old(self).task_id,
            final(self).alias == old(self).alias,
            final(self).slot_reserved == old(self).slot_reserved,
            started is Ok ==> (final(self).stage == NewRegistrationStage::CheckingDuplicate
                && r is CheckDuplicate && *final(slot) == *old(slot)),
            started matches Err(e) ==> (final(self).stage == NewRegistrationStage::Finished
                && r == NewRegistrationAction::Respond(e)
                && slot_owner(*final(slot)) == slot_given_back(*old(self), slot_owner(*old(slot)))),
    {
        match started {
            Ok(()) => {
                self.stage = NewRegistrationStage::CheckingDuplicate;
                NewRegistrationAction::CheckDuplicate
            },
            Err(e) => {
                self.give_back(slot);
                self.stage = NewRegistrationStage::Finished;
                NewRegistrationAction::Respond(e)
            },
        }
    }

    /// The e-mail was looked up: `duplicate` is the alias it is saved as
    /// (`None` also when the saved accounts could not be read). A saved
    /// e-mail skips the registration, completing the task and giving the
    /// slot back; otherwise a task with a local Chrome registers there, then
    /// the configured browser automation does, and without either the task
    /// fails with 503 and gives the slot back.
    pub fn duplicate_checked(
        &mut self,
        slot: &mut RegistrationSlot,
        duplicate: Option<String>,
        local_chrome: bool,
        browser: bool,
    ) -> (r: NewRegistrationAction)
        requires
            old(self).stage == NewRegistrationStage::CheckingDuplicate,
        ensures
            final(self).task_id == old(self).task_id,
            final(self).alias == old(self).alias,
            final(self).slot_reserved == old(self).slot_reserved,
            final(self).stage == NewRegistrationStage::Finished,
            duplicate matches Some(d) ==> ((r matches NewRegistrationAction::SkipDuplicate { existing_alias, message }
                && existing_alias == d && message@ == duplicate_email_message())
                && slot_owner(*final(slot)) == slot_given_back(*old(self), slot_owner(*old(slot)))),
            (duplicate is None && old(self).task_id is Some && local_chrome) ==> (r is RegisterWithLocalChrome
                && *final(slot) == *old(slot)),
            (duplicate is None && !(old(self).task_id is Some && local_chrome) && browser) ==> (
                r is RegisterWithBrowser && *final(slot) == *old(slot)),
            (duplicate is None && !(old(self).task_id is Some && local_chrome) && !browser) ==> (
                (r matches NewRegistrationAction::FailTask { message, response }
                    && message@ == "browser automation is not configured"@
                    && is_error_response(response, 503, "browser automation is not configured"@))
                && slot_owner(*final(slot)) == slot_given_back(*old(self), slot_owner(*old(slot)))),
    {
        self.stage = NewRegistrationStage::Finished;
        match duplicate {
            Some(d) => {
                self.give_back(slot);
                NewRegistrationAction::SkipDuplicate {
                    existing_alias: d,
                    message: owned("邮箱已在本地存在，跳过注册"),
                }
            },
            None => {
                if self.task_id.is_some() && local_chrome {
                    NewRegistrationAction::RegisterWithLocalChrome
                } else if browser {
                    NewRegistrationAction::RegisterWithBrowser
                } else {
                    self.give_back(slot);
                    let response = error_response(503, "browser automation is not configured");
                    NewRegistrationAction::FailTask {
                        message: owned("browser automation is not configured"),
                        response,
                    }
                }
            },
        }
    }
}

} // verus!
