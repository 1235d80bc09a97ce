//! What a poll of a task reports.

use vstd::prelude::*;
use crate::client::Hcop;
use crate::decode::{decode_task_result, poll_outcome, read_delivery};
use crate::error::{unknown_status_message, HCopError};
use crate::payload::{build_task_data_payload, task_data_payload};
use crate::transport::{
    standard_headers, Delivery, Request, RequestView, GET_TASK_DATA_URL,
};

verus! {

/// The state of a task as the service reports it.
///
/// A task that was never polled has no reported state. `Completed` and
/// `Error` are final: the service reports nothing else after either.
#[derive(Clone, Copy, Debug, PartialEq, Eq, Structural)]
pub enum TaskStatus {
    Processing,
    Completed,
    Error,
}

/// The state that the word `state` names. The match is exact and
/// distinguishes upper from lower case.
pub open spec fn status_named(state: Seq<char>) -> Option<TaskStatus> {
    if state == "processing"@ {
        Some(TaskStatus::Processing)
    } else if state == "completed"@ {
        Some(TaskStatus::Completed)
    } else if state == "error"@ {
        Some(TaskStatus::Error)
    } else {
        None
    }
}

impl TaskStatus {
    /// Whether polling can stop: the state will not change again.
    pub open spec fn terminal(self) -> bool {
        self != TaskStatus::Processing
    }

    /// Reads a state as the service writes it.
    pub fn parse(state: &str) -> (result: Result<TaskStatus, HCopError>)
        ensures
            match result {
                Ok(status) => status_named(state@) == Some(status),
                Err(error) => status_named(state@) is None && error@ == unknown_status_message(
                    state@,
                ),
            },
    {
        let word = state.to_owned();
        if word == String::from_str("processing") {
            Ok(TaskStatus::Processing)
        } else if word == String::from_str("completed") {
            Ok(TaskStatus::Completed)
        } else if word == String::from_str("error") {
            Ok(TaskStatus::Error)
        } else {
            Err(HCopError::unknown_status(state))
        }
    }

    /// Whether polling can stop: the state will not change again.
    pub fn is_terminal(&self) -> (done: bool)
        ensures
            done == self.terminal(),
    {
        match self {
            TaskStatus::Processing => false,
            TaskStatus::Completed => true,
            TaskStatus::Error => true,
        }
    }
}

/// The three words of the protocol name three different states.
pub proof fn lemma_status_words()
    ensures
        status_named("processing"@) == Some(TaskStatus::Processing),
        status_named("completed"@) == Some(TaskStatus::Completed),
        status_named("error"@) == Some(TaskStatus::Error),
{
    reveal_strlit("processing");
    reveal_strlit("completed");
    reveal_strlit("error");
    assert("processing"@.len() == 10);
    assert("completed"@.len() == 9);
    assert("error"@.len() == 5);
}

/// What one poll reports.
#[derive(Debug)]
pub struct TaskResult {
    /// The solution, there only for a completed task that the service gave
    /// one.
    pub captcha_key: Option<String>,
    /// Whether the service gave back the cost of the task.
    pub refunded: bool,
    pub status: TaskStatus,
}

/// The content of a [`TaskResult`].
pub ghost struct TaskResultView {
    pub captcha_key: Option<Seq<char>>,
    pub refunded: bool,
    pub status: TaskStatus,
}

impl TaskResultView {
    /// A solution is there only when the task is completed.
    pub open spec fn well_formed(self) -> bool {
        self.captcha_key is Some ==> self.status == TaskStatus::Completed
    }
}

impl View for TaskResult {
    type V = TaskResultView;

    open spec fn view(&self) -> TaskResultView {
        TaskResultView {
            captcha_key: match self.captcha_key {
                Some(key) => Some(key@),
                None => None,
            },
            refunded: self.refunded,
            status: self.status,
        }
    }
}

/// A task on the service's side, by its id, with the client that made it.
///
/// A handle comes only from a task creation that succeeded, and does not
/// change. It keeps no state of the task: each poll reports what the
/// service says at that moment.
#[derive(Debug)]
pub struct HCaptchaTask {
    hcop: Hcop,
    task_id: String,
}

/// The content of a [`HCaptchaTask`].
pub ghost struct HCaptchaTaskView {
    pub api_key: Seq<char>,
    pub task_id: Seq<char>,
}

impl View for HCaptchaTask {
    type V = HCaptchaTaskView;

    closed spec fn view(&self) -> HCaptchaTaskView {
        HCaptchaTaskView { api_key: self.hcop@, task_id: self.task_id@ }
    }
}

impl HCaptchaTask {
    /// The handle of the task `task_id` that `hcop` made.
    pub(crate) fn new(hcop: Hcop, task_id: String) -> (task: HCaptchaTask)
        ensures
            task@ == (HCaptchaTaskView { api_key: hcop@, task_id: task_id@ }),
    {
        HCaptchaTask { hcop, task_id }
    }

    /// The id that the service gave the task.
    pub fn task_id(&self) -> (id: &str)
        ensures
            id@ == self@.task_id,
    {
        self.task_id.as_str()
    }

    /// The request that polls the task once.
    pub fn get_result_request(&self) -> (request: Request)
        ensures
            request@ == (RequestView {
                url: GET_TASK_DATA_URL@,
                headers: standard_headers(),
                payload: task_data_payload(self@.api_key, self@.task_id),
            }),
    {
        Request::post(
            GET_TASK_DATA_URL,
            build_task_data_payload(self.hcop.api_key(), self.task_id.as_str()),
        )
    }

    /// Reads how one poll ended: what the service reports of the task at
    /// this moment, or the error. Nothing of earlier polls is kept or
    /// compared.
    pub fn get_result(&self, delivery: &Delivery) -> (result: Result<TaskResult, HCopError>)
        ensures
            match result {
                Ok(polled) => poll_outcome(delivery@) == Ok::<TaskResultView, Seq<char>>(polled@),
                Err(error) => poll_outcome(delivery@) == Err::<TaskResultView, Seq<char>>(error@),
            },
            result matches Ok(polled) ==> polled@.well_formed(),
    {
        match read_delivery(delivery) {
            Ok(reply) => decode_task_result(&reply),
            Err(error) => Err(error),
        }
    }
}

} // verus!
