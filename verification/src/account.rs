//! The account behind an API key.

use vstd::prelude::*;

verus! {

/// A snapshot of the account, as the service gave it at one moment.
#[derive(Debug)]
pub struct UserData {
    /// The balance, a fractional amount, by the bits of its double.
    pub balance_bits: u64,
    /// How many tasks the account may run at once.
    pub max_threads: u32,
    pub rank: String,
    /// How many tasks the account runs now.
    pub running_threads: u32,
    pub username: String,
}

/// The content of a [`UserData`].
pub ghost struct UserDataView {
    pub balance_bits: u64,
    pub max_threads: u32,
    pub rank: Seq<char>,
    pub running_threads: u32,
    pub username: Seq<char>,
}

impl View for UserData {
    type V = UserDataView;

    open spec fn view(&self) -> UserDataView {
        UserDataView {
            balance_bits: self.balance_bits,
            max_threads: self.max_threads,
            rank: self.rank@,
            running_threads: self.running_threads,
            username: self.username@,
        }
    }
}

} // verus!
