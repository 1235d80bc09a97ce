//! The JSON bodies of the three requests.

use vstd::prelude::*;
use crate::json::{json_view, new_object, new_text, set_member, JsonView};

verus! {

/// The kind of task that this client asks for.
pub const TASK_TYPE: &'static str = "hcaptchaEnterprise";

/// What a task is about: the site's key, its address, the proxy to solve
/// through and, only where the caller gave some, the request data.
pub open spec fn task_details(
    site_key: Seq<char>,
    site_url: Seq<char>,
    proxy: Seq<char>,
    rqdata: Option<Seq<char>>,
) -> JsonView {
    let always = map![
        "sitekey"@ => JsonView::String(site_key),
        "url"@ => JsonView::String(site_url),
        "proxy"@ => JsonView::String(proxy),
    ];
    JsonView::Object(
        match rqdata {
            Some(data) => always.insert("rqdata"@, JsonView::String(data)),
            None => always,
        },
    )
}

/// The body that asks for a new task.
pub open spec fn create_task_payload(
    api_key: Seq<char>,
    site_key: Seq<char>,
    site_url: Seq<char>,
    proxy: Seq<char>,
    rqdata: Option<Seq<char>>,
) -> JsonView {
    JsonView::Object(
        map![
            "task_type"@ => JsonView::String(TASK_TYPE@),
            "api_key"@ => JsonView::String(api_key),
            "data"@ => task_details(site_key, site_url, proxy, rqdata),
        ],
    )
}

/// The body that polls the task `task_id`.
pub open spec fn task_data_payload(api_key: Seq<char>, task_id: Seq<char>) -> JsonView {
    JsonView::Object(
        map![
            "api_key"@ => JsonView::String(api_key),
            "task_id"@ => JsonView::String(task_id),
        ],
    )
}

/// The body that queries the account.
pub open spec fn user_data_payload(api_key: Seq<char>) -> JsonView {
    JsonView::Object(map!["api_key"@ => JsonView::String(api_key)])
}

/// Builds the body that asks for a new task.
pub fn build_create_task_payload(
    api_key: &str,
    site_key: String,
    site_url: String,
    proxy: String,
    rqdata: Option<String>,
) -> (payload: serde_json::Value)
    ensures
        json_view(payload) == create_task_payload(
            api_key@,
            site_key@,
            site_url@,
            proxy@,
            match rqdata {
                Some(data) => Some(data@),
                None => None,
            },
        ),
{
    let mut details = new_object();
    set_member(&mut details, "sitekey", new_text(site_key));
    set_member(&mut details, "url", new_text(site_url));
    set_member(&mut details, "proxy", new_text(proxy));
    match rqdata {
        Some(data) => {
            set_member(&mut details, "rqdata", new_text(data));
        },
        None => {},
    }
    let mut payload = new_object();
    set_member(&mut payload, "task_type", new_text(String::from_str(TASK_TYPE)));
    set_member(&mut payload, "api_key", new_text(api_key.to_owned()));
    set_member(&mut payload, "data", details);
    payload
}

/// Builds the body that polls the task `task_id`.
pub fn build_task_data_payload(api_key: &str, task_id: &str) -> (payload: serde_json::Value)
    ensures
        json_view(payload) == task_data_payload(api_key@, task_id@),
{
    let mut payload = new_object();
    set_member(&mut payload, "api_key", new_text(api_key.to_owned()));
    set_member(&mut payload, "task_id", new_text(task_id.to_owned()));
    payload
}

/// Builds the body that queries the account.
pub fn build_user_data_payload(api_key: &str) -> (payload: serde_json::Value)
    ensures
        json_view(payload) == user_data_payload(api_key@),
{
    let mut payload = new_object();
    set_member(&mut payload, "api_key", new_text(api_key.to_owned()));
    payload
}

/// Request data goes out as given, or not at all: the body of a task
/// creation holds the member `rqdata` under `data` exactly where the caller
/// gave request data, and then as a string with the same text. The site's
/// key, its address and the proxy are there either way.
pub proof fn lemma_rqdata_as_given(
    api_key: Seq<char>,
    site_key: Seq<char>,
    site_url: Seq<char>,
    proxy: Seq<char>,
    rqdata: Option<Seq<char>>,
)
    ensures
        ({
            let details = create_task_payload(api_key, site_key, site_url, proxy, rqdata).field(
                "data"@,
            );
            &&& details.member("rqdata"@) == match rqdata {
                Some(data) => Some(JsonView::String(data)),
                None => None,
            }
            &&& details.member("sitekey"@) == Some(JsonView::String(site_key))
            &&& details.member("url"@) == Some(JsonView::String(site_url))
            &&& details.member("proxy"@) == Some(JsonView::String(proxy))
        }),
{
    reveal_strlit("sitekey");
    reveal_strlit("url");
    reveal_strlit("proxy");
    reveal_strlit("rqdata");
    assert("sitekey"@.len() == 7);
    assert("url"@.len() == 3);
    assert("proxy"@.len() == 5);
    assert("rqdata"@.len() == 6);
}

} // verus!
