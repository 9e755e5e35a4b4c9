//! The storage account on whose behalf requests are built.

use vstd::prelude::*;
use vstd::string::*;

verus! {

/// The client context: the name of the storage account.
#[derive(Debug, Clone)]
pub struct Client {
    account: String,
}

impl View for Client {
    type V = Seq<char>;

    closed spec fn view(&self) -> Seq<char> {
        self.account@
    }
}

impl Client {
    /// The context of the account `account`.
    pub fn new(account: &str) -> (r: Client)
        ensures
            r@ == account@,
    {
        Client { account: String::from_str(account) }
    }

    /// The name of the account.
    pub fn account(&self) -> (r: &str)
        ensures
            r@ == self@,
    {
        self.account.as_str()
    }
}

} // verus!
