//! Reading the service's replies.
//!
//! Every reply is a JSON object with a boolean `error`. Where it is true the
//! reply is an error of the service, and `message` says which. Where it is
//! false the rest of the reply holds what the endpoint returns. A reply that
//! lacks a field it must have, or holds it in another shape, is reported as
//! an error; nothing in here panics.

use vstd::prelude::*;
use crate::account::{UserData, UserDataView};
use crate::error::{
    malformed_field_message, unknown_status_message, HCopError, INVALID_API_KEY, NOT_JSON,
    UNKNOWN_ERROR,
};
use crate::json::{
    bool_in, count_in, double_in, json_view, member_in, parse, parsed_json, text_in, JsonNumber,
    JsonView,
};
use crate::task::{lemma_status_words, status_named, TaskResult, TaskResultView, TaskStatus};
use crate::transport::{Delivery, DeliveryView, UNAUTHORIZED};

verus! {

/// The error that a reply's envelope reports, if any: the service's own
/// message where `error` is true, with a fixed one in its place where
/// `message` is no string; a decode error where `error` is no boolean.
pub open spec fn envelope_error(reply: JsonView) -> Option<Seq<char>> {
    match reply.field("error"@).as_bool() {
        Some(true) => Some(
            match reply.field("message"@).as_text() {
                Some(message) => message,
                None => UNKNOWN_ERROR@,
            },
        ),
        Some(false) => None,
        None => Some(malformed_field_message("error"@)),
    }
}

/// What the reply to a task creation means: the new task's id, or the
/// message of the error.
pub open spec fn created_task(reply: JsonView) -> Result<Seq<char>, Seq<char>> {
    match envelope_error(reply) {
        Some(message) => Err(message),
        None => match reply.field("task_id"@).as_text() {
            Some(id) => Ok(id),
            None => Err(malformed_field_message("task_id"@)),
        },
    }
}

/// What the reply to a poll means: the task's reported state, or the
/// message of the error. The solution is taken over only for a completed
/// task.
pub open spec fn polled_task(reply: JsonView) -> Result<TaskResultView, Seq<char>> {
    let task = reply.field("task"@);
    match envelope_error(reply) {
        Some(message) => Err(message),
        None => match task.field("refunded"@).as_bool() {
            None => Err(malformed_field_message("task.refunded"@)),
            Some(refunded) => match task.field("state"@).as_text() {
                None => Err(malformed_field_message("task.state"@)),
                Some(state) => match status_named(state) {
                    None => Err(unknown_status_message(state)),
                    Some(status) => Ok(
                        TaskResultView {
                            captcha_key: if status == TaskStatus::Completed {
                                task.field("captcha_key"@).as_text()
                            } else {
                                None
                            },
                            refunded,
                            status,
                        },
                    ),
                },
            },
        },
    }
}

/// What the reply to an account query means: the account's snapshot, or the
/// message of the error. A thread count is a non-negative integer below
/// 2^32; the snapshot holds it as the service sent it.
pub open spec fn queried_account(reply: JsonView) -> Result<UserDataView, Seq<char>> {
    let data = reply.field("data"@);
    match envelope_error(reply) {
        Some(message) => Err(message),
        None => match data.field("balance"@).as_double() {
            None => Err(malformed_field_message("data.balance"@)),
            Some(balance_bits) => match data.field("max_threads"@).as_count() {
                None => Err(malformed_field_message("data.max_threads"@)),
                Some(max_threads) => match data.field("rank"@).as_text() {
                    None => Err(malformed_field_message("data.rank"@)),
                    Some(rank) => match data.field("running_threads"@).as_count() {
                        None => Err(malformed_field_message("data.running_threads"@)),
                        Some(running_threads) => match data.field("username"@).as_text() {
                            None => Err(malformed_field_message("data.username"@)),
                            Some(username) => Ok(
                                UserDataView {
                                    balance_bits,
                                    max_threads,
                                    rank,
                                    running_threads,
                                    username,
                                },
                            ),
                        },
                    },
                },
            },
        },
    }
}

/// The reply that a delivery brought: the JSON that its body parses to,
/// whatever the status, or the message of the failure. A failure of the
/// transport keeps its reason.
pub open spec fn delivered_reply(delivery: DeliveryView) -> Result<JsonView, Seq<char>> {
    match delivery {
        DeliveryView::Failed { reason } => Err(reason),
        DeliveryView::Interrupted { status, reason } => Err(reason),
        DeliveryView::Answered { status, body } => match parsed_json(body) {
            Some(reply) => Ok(reply),
            None => Err(NOT_JSON@),
        },
    }
}

/// How a task creation ended: with the new task's id, or with the message
/// of the error.
pub open spec fn creation_outcome(delivery: DeliveryView) -> Result<Seq<char>, Seq<char>> {
    match delivered_reply(delivery) {
        Ok(reply) => created_task(reply),
        Err(message) => Err(message),
    }
}

/// How a poll ended: with the task's reported state, or with the message of
/// the error.
pub open spec fn poll_outcome(delivery: DeliveryView) -> Result<TaskResultView, Seq<char>> {
    match delivered_reply(delivery) {
        Ok(reply) => polled_task(reply),
        Err(message) => Err(message),
    }
}

/// Whether the service turned the API key down. The status says so alone:
/// the body of such a reply is not looked at.
pub open spec fn key_rejected(delivery: DeliveryView) -> bool {
    match delivery {
        DeliveryView::Failed { reason } => false,
        DeliveryView::Interrupted { status, reason } => status == UNAUTHORIZED,
        DeliveryView::Answered { status, body } => status == UNAUTHORIZED,
    }
}

/// How an account query ended: with the account's snapshot, or with the
/// message of the error.
pub open spec fn account_outcome(delivery: DeliveryView) -> Result<UserDataView, Seq<char>> {
    if key_rejected(delivery) {
        Err(INVALID_API_KEY@)
    } else {
        match delivered_reply(delivery) {
            Ok(reply) => queried_account(reply),
            Err(message) => Err(message),
        }
    }
}

/// Takes the reply out of a delivery.
pub fn read_delivery(delivery: &Delivery) -> (result: Result<serde_json::Value, HCopError>)
    ensures
        match result {
            Ok(reply) => delivered_reply(delivery@) == Ok::<JsonView, Seq<char>>(
                json_view(reply),
            ),
            Err(error) => delivered_reply(delivery@) == Err::<JsonView, Seq<char>>(error@),
        },
{
    match delivery {
        Delivery::Failed { reason } => Err(HCopError::new(reason.as_str())),
        Delivery::Interrupted { status, reason } => Err(HCopError::new(reason.as_str())),
        Delivery::Answered { status, body } => match parse(body.as_slice()) {
            Some(reply) => Ok(reply),
            None => Err(HCopError::new(NOT_JSON)),
        },
    }
}

/// Reads the envelope of a reply: `Ok` where the reply reports no error.
pub fn check_envelope(reply: &serde_json::Value) -> (result: Result<(), HCopError>)
    ensures
        match result {
            Ok(_) => envelope_error(json_view(*reply)) is None,
            Err(error) => envelope_error(json_view(*reply)) == Some(error@),
        },
{
    match bool_in(Some(reply), "error") {
        None => Err(HCopError::malformed_field("error")),
        Some(false) => Ok(()),
        Some(true) => match text_in(Some(reply), "message") {
            Some(message) => Err(HCopError::new(message)),
            None => Err(HCopError::new(UNKNOWN_ERROR)),
        },
    }
}

/// Reads the reply to a task creation.
pub fn decode_created_task(reply: &serde_json::Value) -> (result: Result<String, HCopError>)
    ensures
        match result {
            Ok(id) => created_task(json_view(*reply)) == Ok::<Seq<char>, Seq<char>>(id@),
            Err(error) => created_task(json_view(*reply)) == Err::<Seq<char>, Seq<char>>(error@),
        },
{
    match check_envelope(reply) {
        Err(error) => Err(error),
        Ok(_) => match text_in(Some(reply), "task_id") {
            Some(id) => Ok(id.to_owned()),
            None => Err(HCopError::malformed_field("task_id")),
        },
    }
}

/// Reads the reply to a poll.
pub fn decode_task_result(reply: &serde_json::Value) -> (result: Result<TaskResult, HCopError>)
    ensures
        match result {
            Ok(polled) => polled_task(json_view(*reply)) == Ok::<TaskResultView, Seq<char>>(
                polled@,
            ),
            Err(error) => polled_task(json_view(*reply)) == Err::<TaskResultView, Seq<char>>(
                error@,
            ),
        },
        result matches Ok(polled) ==> polled@.well_formed(),
{
    match check_envelope(reply) {
        Err(error) => { return Err(error); },
        Ok(_) => {},
    }
    let task = member_in(Some(reply), "task");
    let refunded = match bool_in(task, "refunded") {
        Some(refunded) => refunded,
        None => { return Err(HCopError::malformed_field("task.refunded")); },
    };
    let state = match text_in(task, "state") {
        Some(state) => state,
        None => { return Err(HCopError::malformed_field("task.state")); },
    };
    let status = match TaskStatus::parse(state) {
        Ok(status) => status,
        Err(error) => { return Err(error); },
    };
    let captcha_key = if status == TaskStatus::Completed {
        match text_in(task, "captcha_key") {
            Some(key) => Some(key.to_owned()),
            None => None,
        }
    } else {
        None
    };
    Ok(TaskResult { captcha_key, refunded, status })
}

/// Reads the reply to an account query.
pub fn decode_user_data(reply: &serde_json::Value) -> (result: Result<UserData, HCopError>)
    ensures
        match result {
            Ok(account) => queried_account(json_view(*reply)) == Ok::<UserDataView, Seq<char>>(
                account@,
            ),
            Err(error) => queried_account(json_view(*reply)) == Err::<UserDataView, Seq<char>>(
                error@,
            ),
        },
{
    match check_envelope(reply) {
        Err(error) => { return Err(error); },
        Ok(_) => {},
    }
    let data = member_in(Some(reply), "data");
    let balance_bits = match double_in(data, "balance") {
        Some(bits) => bits,
        None => { return Err(HCopError::malformed_field("data.balance")); },
    };
    let max_threads = match count_in(data, "max_threads") {
        Some(count) => count,
        None => { return Err(HCopError::malformed_field("data.max_threads")); },
    };
    let rank = match text_in(data, "rank") {
        Some(rank) => rank.to_owned(),
        None => { return Err(HCopError::malformed_field("data.rank")); },
    };
    let running_threads = match count_in(data, "running_threads") {
        Some(count) => count,
        None => { return Err(HCopError::malformed_field("data.running_threads")); },
    };
    let username = match text_in(data, "username") {
        Some(username) => username.to_owned(),
        None => { return Err(HCopError::malformed_field("data.username")); },
    };
    Ok(UserData { balance_bits, max_threads, rank, running_threads, username })
}

/// Whether the service turned the API key down.
pub fn is_key_rejected(delivery: &Delivery) -> (rejected: bool)
    ensures
        rejected == key_rejected(delivery@),
{
    match delivery {
        Delivery::Failed { reason } => false,
        Delivery::Interrupted { status, reason } => *status == UNAUTHORIZED,
        Delivery::Answered { status, body } => *status == UNAUTHORIZED,
    }
}

/// An account query that the service answers with the status for a
/// turned-down key ends with the error for an invalid key, whatever the
/// body holds and whether or not it arrived.
pub proof fn lemma_rejected_key(body: Seq<u8>, reason: Seq<char>)
    ensures
        account_outcome(DeliveryView::Answered { status: UNAUTHORIZED, body }) == Err::<
            UserDataView,
            Seq<char>,
        >(INVALID_API_KEY@),
        account_outcome(DeliveryView::Interrupted { status: UNAUTHORIZED, reason }) == Err::<
            UserDataView,
            Seq<char>,
        >(INVALID_API_KEY@),
{
}

/// A reply that arrived whole is read by its body alone: the status plays no
/// part, but for the turned-down key at the account query, and a body that
/// is no JSON text ends every operation with the same error.
pub proof fn lemma_answered_by_body(status: u16, body: Seq<u8>)
    ensures
        ({
            let delivery = DeliveryView::Answered { status, body };
            match parsed_json(body) {
                Some(reply) => {
                    &&& creation_outcome(delivery) == created_task(reply)
                    &&& poll_outcome(delivery) == polled_task(reply)
                    &&& status != UNAUTHORIZED ==> account_outcome(delivery) == queried_account(
                        reply,
                    )
                },
                None => {
                    &&& creation_outcome(delivery) == Err::<Seq<char>, Seq<char>>(NOT_JSON@)
                    &&& poll_outcome(delivery) == Err::<TaskResultView, Seq<char>>(NOT_JSON@)
                    &&& status != UNAUTHORIZED ==> account_outcome(delivery) == Err::<
                        UserDataView,
                        Seq<char>,
                    >(NOT_JSON@)
                },
            }
        }),
{
}

/// A failure of the transport ends every operation with its own reason.
pub proof fn lemma_transport_failure(reason: Seq<char>, status: u16)
    ensures
        creation_outcome(DeliveryView::Failed { reason }) == Err::<Seq<char>, Seq<char>>(reason),
        poll_outcome(DeliveryView::Failed { reason }) == Err::<TaskResultView, Seq<char>>(reason),
        account_outcome(DeliveryView::Failed { reason }) == Err::<UserDataView, Seq<char>>(
            reason,
        ),
        creation_outcome(DeliveryView::Interrupted { status, reason }) == Err::<
            Seq<char>,
            Seq<char>,
        >(reason),
        poll_outcome(DeliveryView::Interrupted { status, reason }) == Err::<
            TaskResultView,
            Seq<char>,
        >(reason),
        status != UNAUTHORIZED ==> account_outcome(DeliveryView::Interrupted { status, reason })
            == Err::<UserDataView, Seq<char>>(reason),
{
}

/// A reply that reports no error and names the new task decodes to that
/// task's id.
pub proof fn lemma_created_task_id(reply: JsonView, id: Seq<char>)
    requires
        reply.field("error"@) == JsonView::Bool(false),
        reply.field("task_id"@) == JsonView::String(id),
    ensures
        created_task(reply) == Ok::<Seq<char>, Seq<char>>(id),
{
}

/// A reply that reports an error without a message decodes, at every
/// endpoint, to the error with the fixed message.
pub proof fn lemma_error_without_message(reply: JsonView)
    requires
        reply.field("error"@) == JsonView::Bool(true),
        reply.member("message"@) is None,
    ensures
        envelope_error(reply) == Some(UNKNOWN_ERROR@),
        created_task(reply) == Err::<Seq<char>, Seq<char>>(UNKNOWN_ERROR@),
        polled_task(reply) == Err::<TaskResultView, Seq<char>>(UNKNOWN_ERROR@),
        queried_account(reply) == Err::<UserDataView, Seq<char>>(UNKNOWN_ERROR@),
{
}

/// A reply that reports an error decodes, at every endpoint, to an error
/// with the service's message.
pub proof fn lemma_error_with_message(reply: JsonView, message: Seq<char>)
    requires
        reply.field("error"@) == JsonView::Bool(true),
        reply.field("message"@) == JsonView::String(message),
    ensures
        envelope_error(reply) == Some(message),
        created_task(reply) == Err::<Seq<char>, Seq<char>>(message),
        polled_task(reply) == Err::<TaskResultView, Seq<char>>(message),
        queried_account(reply) == Err::<UserDataView, Seq<char>>(message),
{
}

/// An account's reply that reports no error and holds every field in its
/// shape decodes to those very fields: each thread count equals the count
/// sent, each text is the text sent, and a balance sent as a double is that
/// double.
pub proof fn lemma_account_as_sent(
    reply: JsonView,
    balance: JsonNumber,
    max_threads: u64,
    rank: Seq<char>,
    running_threads: u64,
    username: Seq<char>,
)
    requires
        reply.field("error"@) == JsonView::Bool(false),
        reply.field("data"@).field("balance"@) == JsonView::Number(balance),
        reply.field("data"@).field("max_threads"@) == JsonView::Number(
            JsonNumber::PosInt(max_threads),
        ),
        reply.field("data"@).field("rank"@) == JsonView::String(rank),
        reply.field("data"@).field("running_threads"@) == JsonView::Number(
            JsonNumber::PosInt(running_threads),
        ),
        reply.field("data"@).field("username"@) == JsonView::String(username),
        max_threads <= u32::MAX,
        running_threads <= u32::MAX,
    ensures
        queried_account(reply) matches Ok(account) && {
            &&& account.max_threads == max_threads
            &&& account.running_threads == running_threads
            &&& account.rank == rank
            &&& account.username == username
            &&& Some(account.balance_bits) == JsonView::Number(balance).as_double()
            &&& balance matches JsonNumber::Float(bits) ==> account.balance_bits == bits
        },
{
}

/// A thread count that is no count is never cut down to one: an account's
/// reply that holds 2^32 or more where a thread count belongs decodes to an
/// error, and whatever an account decodes to holds the counts that the reply
/// holds.
pub proof fn lemma_thread_counts_as_sent(reply: JsonView)
    ensures
        ({
            let data = reply.field("data"@);
            &&& (data.field("max_threads"@).as_unsigned() matches Some(count) && count > u32::MAX)
                ==> queried_account(reply) is Err
            &&& (data.field("running_threads"@).as_unsigned() matches Some(count) && count
                > u32::MAX) ==> queried_account(reply) is Err
            &&& queried_account(reply) matches Ok(account) ==> {
                &&& data.field("max_threads"@).as_unsigned() == Some(account.max_threads as u64)
                &&& data.field("running_threads"@).as_unsigned() == Some(
                    account.running_threads as u64,
                )
            }
        }),
{
}

/// A poll's reply that reports no error and says whether the cost was given
/// back decodes by its state alone: each of the three words of the protocol
/// to its state, and any other text to an error that quotes it.
pub proof fn lemma_polled_state(reply: JsonView, refunded: bool, state: Seq<char>)
    requires
        reply.field("error"@) == JsonView::Bool(false),
        reply.field("task"@).field("refunded"@) == JsonView::Bool(refunded),
        reply.field("task"@).field("state"@) == JsonView::String(state),
    ensures
        state == "processing"@ ==> polled_task(reply) == Ok::<TaskResultView, Seq<char>>(
            (TaskResultView { captcha_key: None, refunded, status: TaskStatus::Processing }),
        ),
        state == "completed"@ ==> polled_task(reply) == Ok::<TaskResultView, Seq<char>>(
            (TaskResultView {
                captcha_key: reply.field("task"@).field("captcha_key"@).as_text(),
                refunded,
                status: TaskStatus::Completed,
            }),
        ),
        state == "error"@ ==> polled_task(reply) == Ok::<TaskResultView, Seq<char>>(
            (TaskResultView { captcha_key: None, refunded, status: TaskStatus::Error }),
        ),
        state != "processing"@ && state != "completed"@ && state != "error"@ ==> polled_task(reply)
            == Err::<TaskResultView, Seq<char>>(unknown_status_message(state)),
{
    lemma_status_words();
}

/// A poll's reply without a state decodes to an error, never to a result;
/// where nothing else is wrong with the reply, the error names the state.
pub proof fn lemma_state_required(reply: JsonView)
    requires
        reply.field("task"@).member("state"@) is None,
    ensures
        polled_task(reply) is Err,
        envelope_error(reply) is None && reply.field("task"@).field("refunded"@) is Bool
            ==> polled_task(reply) == Err::<TaskResultView, Seq<char>>(
            malformed_field_message("task.state"@),
        ),
{
}

/// Whatever a poll decodes to holds a solution only for a completed task,
/// and then the one that the service gave.
pub proof fn lemma_solution_when_completed(reply: JsonView)
    ensures
        polled_task(reply) matches Ok(polled) ==> {
            &&& polled.well_formed()
            &&& polled.status == TaskStatus::Completed ==> polled.captcha_key == reply.field(
                "task"@,
            ).field("captcha_key"@).as_text()
        },
{
}

} // verus!
