//! The client: an API key, and the two operations that need nothing else.

use vstd::prelude::*;
use crate::account::{UserData, UserDataView};
use crate::decode::{
    account_outcome, creation_outcome, decode_created_task, decode_user_data, is_key_rejected,
    read_delivery,
};
use crate::error::{HCopError, INVALID_API_KEY};
use crate::payload::{
    build_create_task_payload, build_user_data_payload, create_task_payload, user_data_payload,
};
use crate::task::HCaptchaTask;
use crate::transport::{
    standard_headers, Delivery, Request, RequestView, CREATE_TASK_URL, GET_USER_DATA_URL,
};

verus! {

/// A client of the service. It holds the API key and nothing that changes.
#[derive(Debug)]
pub struct Hcop {
    api_key: String,
}

impl View for Hcop {
    type V = Seq<char>;

    /// A client is its API key.
    closed spec fn view(&self) -> Seq<char> {
        self.api_key@
    }
}

impl Clone for Hcop {
    fn clone(&self) -> (copy: Hcop)
        ensures
            copy@ == self@,
    {
        Hcop { api_key: self.api_key.clone() }
    }
}

impl Hcop {
    /// The client that signs its requests with `api_key`.
    pub fn new(api_key: String) -> (client: Hcop)
        ensures
            client@ == api_key@,
    {
        Hcop { api_key }
    }

    /// The API key.
    pub fn api_key(&self) -> (key: &str)
        ensures
            key@ == self@,
    {
        self.api_key.as_str()
    }

    /// The request that asks for a new task. Request data is sent only
    /// where `rqdata` holds some.
    pub fn create_hcaptcha_task_request(
        &self,
        site_key: String,
        site_url: String,
        proxy: String,
        rqdata: Option<String>,
    ) -> (request: Request)
        ensures
            request@ == (RequestView {
                url: CREATE_TASK_URL@,
                headers: standard_headers(),
                payload: create_task_payload(
                    self@,
                    site_key@,
                    site_url@,
                    proxy@,
                    match rqdata {
                        Some(data) => Some(data@),
                        None => None,
                    },
                ),
            }),
    {
        Request::post(
            CREATE_TASK_URL,
            build_create_task_payload(self.api_key.as_str(), site_key, site_url, proxy, rqdata),
        )
    }

    /// Reads how a task creation ended: the handle of the new task, with a
    /// copy of this client, or the error.
    pub fn create_hcaptcha_task(&self, delivery: &Delivery) -> (result: Result<
        HCaptchaTask,
        HCopError,
    >)
        ensures
            match result {
                Ok(task) => creation_outcome(delivery@) == Ok::<Seq<char>, Seq<char>>(
                    task@.task_id,
                ) && task@.api_key == self@,
                Err(error) => creation_outcome(delivery@) == Err::<Seq<char>, Seq<char>>(error@),
            },
    {
        let reply = match read_delivery(delivery) {
            Ok(reply) => reply,
            Err(error) => { return Err(error); },
        };
        match decode_created_task(&reply) {
            Ok(task_id) => Ok(HCaptchaTask::new(self.clone(), task_id)),
            Err(error) => Err(error),
        }
    }

    /// The request that queries the account.
    pub fn get_user_data_request(&self) -> (request: Request)
        ensures
            request@ == (RequestView {
                url: GET_USER_DATA_URL@,
                headers: standard_headers(),
                payload: user_data_payload(self@),
            }),
    {
        Request::post(GET_USER_DATA_URL, build_user_data_payload(self.api_key.as_str()))
    }

    /// Reads how an account query ended: the account's snapshot, or the
    /// error. A turned-down key is reported before the body is looked at.
    pub fn get_user_data(&self, delivery: &Delivery) -> (result: Result<UserData, HCopError>)
        ensures
            match result {
                Ok(account) => account_outcome(delivery@) == Ok::<UserDataView, Seq<char>>(
                    account@,
                ),
                Err(error) => account_outcome(delivery@) == Err::<UserDataView, Seq<char>>(
                    error@,
                ),
            },
    {
        if is_key_rejected(delivery) {
            return Err(HCopError::new(INVALID_API_KEY));
        }
        match read_delivery(delivery) {
            Ok(reply) => decode_user_data(&reply),
            Err(error) => Err(error),
        }
    }
}

} // verus!
