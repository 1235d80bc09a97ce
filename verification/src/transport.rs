//! What goes to the service and what comes back.
//!
//! This crate sends nothing itself. It says what to send, as a [`Request`],
//! and reads what came back, as a [`Delivery`]; the caller's HTTP client does
//! the round trip in between.

use vstd::prelude::*;
use crate::json::{json_view, JsonView};

verus! {

/// Where a task is created.
pub const CREATE_TASK_URL: &'static str = "https://api.hcoptcha.online/api/createTask";

/// Where a task is polled.
pub const GET_TASK_DATA_URL: &'static str = "https://api.hcoptcha.online/api/getTaskData";

/// Where the account is queried.
pub const GET_USER_DATA_URL: &'static str = "https://api.hcoptcha.online/api/getUserData";

/// The name of the header that gives the body's type.
pub const CONTENT_TYPE: &'static str = "Content-Type";

/// The type of every body sent.
pub const JSON_CONTENT: &'static str = "application/json";

/// The name of the header that names the client.
pub const USER_AGENT: &'static str = "User-Agent";

/// How this client names itself.
pub const CLIENT_NAME: &'static str = "HCop/rust";

/// The status with which the service turns down an API key.
pub const UNAUTHORIZED: u16 = 401;

/// One header of a request.
#[derive(Debug)]
pub struct Header {
    pub name: String,
    pub value: String,
}

impl View for Header {
    type V = (Seq<char>, Seq<char>);

    /// A header is its name and its value.
    open spec fn view(&self) -> (Seq<char>, Seq<char>) {
        (self.name@, self.value@)
    }
}

/// The headers that every request carries.
pub open spec fn standard_headers() -> Seq<(Seq<char>, Seq<char>)> {
    seq![(CONTENT_TYPE@, JSON_CONTENT@), (USER_AGENT@, CLIENT_NAME@)]
}

/// A POST to make: the address, the headers and the JSON body.
#[derive(Debug)]
pub struct Request {
    pub url: String,
    pub headers: Vec<Header>,
    pub payload: serde_json::Value,
}

/// The content of a [`Request`].
pub ghost struct RequestView {
    pub url: Seq<char>,
    pub headers: Seq<(Seq<char>, Seq<char>)>,
    pub payload: JsonView,
}

impl View for Request {
    type V = RequestView;

    open spec fn view(&self) -> RequestView {
        RequestView {
            url: self.url@,
            headers: self.headers@.map_values(|header: Header| header@),
            payload: json_view(self.payload),
        }
    }
}

impl Request {
    /// The POST of `payload` to `url`, with the standard headers.
    pub fn post(url: &str, payload: serde_json::Value) -> (request: Request)
        ensures
            request@ == (RequestView {
                url: url@,
                headers: standard_headers(),
                payload: json_view(payload),
            }),
    {
        let mut headers: Vec<Header> = Vec::new();
        headers.push(
            Header { name: String::from_str(CONTENT_TYPE), value: String::from_str(JSON_CONTENT) },
        );
        headers.push(
            Header { name: String::from_str(USER_AGENT), value: String::from_str(CLIENT_NAME) },
        );
        assert(headers@.map_values(|header: Header| header@) =~= standard_headers());
        Request { url: url.to_owned(), headers, payload }
    }
}

/// How a round trip ended.
#[derive(Debug)]
pub enum Delivery {
    /// The request did not get through, or no reply came back.
    Failed { reason: String },
    /// The service replied with this status, and its body was lost on the
    /// way.
    Interrupted { status: u16, reason: String },
    /// The service replied, with this status and this body.
    Answered { status: u16, body: Vec<u8> },
}

/// The content of a [`Delivery`].
pub ghost enum DeliveryView {
    Failed { reason: Seq<char> },
    Interrupted { status: u16, reason: Seq<char> },
    Answered { status: u16, body: Seq<u8> },
}

impl View for Delivery {
    type V = DeliveryView;

    open spec fn view(&self) -> DeliveryView {
        match self {
            Delivery::Failed { reason } => DeliveryView::Failed { reason: reason@ },
            Delivery::Interrupted { status, reason } => DeliveryView::Interrupted {
                status: *status,
                reason: reason@,
            },
            Delivery::Answered { status, body } => DeliveryView::Answered {
                status: *status,
                body: body@,
            },
        }
    }
}

} // verus!
