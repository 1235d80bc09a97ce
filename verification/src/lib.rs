//! Client-side protocol of a remote captcha-solving service.
//!
//! A solve is asked for, polled until the service reports it done, and paid
//! from an account that can be queried. This crate holds the protocol and
//! leaves the network to its caller: for each operation it builds the
//! [`Request`] to send and reads the [`Delivery`] that came back.
//!
//! ```text
//! Hcop::create_hcaptcha_task_request  ->  send  ->  Hcop::create_hcaptcha_task
//! HCaptchaTask::get_result_request    ->  send  ->  HCaptchaTask::get_result
//! Hcop::get_user_data_request         ->  send  ->  Hcop::get_user_data
//! ```
//!
//! Every operation ends in a value or in an [`HCopError`]; none panics.

use vstd::prelude::*;

pub mod account;
pub mod client;
pub mod decode;
pub mod error;
pub mod json;
pub mod payload;
pub mod task;
pub mod transport;

pub use crate::account::UserData;
pub use crate::client::Hcop;
pub use crate::error::HCopError;
pub use crate::task::{HCaptchaTask, TaskResult, TaskStatus};
pub use crate::transport::{Delivery, Header, Request};

verus! {

/// The sum of two sizes, where it is a size.
pub fn add(left: usize, right: usize) -> (sum: usize)
    requires
        left + right <= usize::MAX,
    ensures
        sum == left + right,
{
    left + right
}

} // verus!
