//! Credentials for the daemon's RPC endpoint.

use vstd::prelude::*;

verus! {

/// The different authentication methods for the client.
#[derive(Clone, Debug, Hash, Eq, PartialEq, Ord, PartialOrd)]
pub enum Auth {
    Anonymous,
    UserPass(String, String),
}

impl Auth {
    /// The user name that this value configures, if any.
    pub open spec fn user(self) -> Option<String> {
        match self {
            Auth::Anonymous => None,
            Auth::UserPass(u, _) => Some(u),
        }
    }

    /// The password that this value configures, if any.
    pub open spec fn pass(self) -> Option<String> {
        match self {
            Auth::Anonymous => None,
            Auth::UserPass(_, p) => Some(p),
        }
    }

    /// Split into an optional user name and an optional password.
    pub fn get_user_pass(self) -> (r: (Option<String>, Option<String>))
        ensures
            r.0 == self.user(),
            r.1 == self.pass(),
    {
        match self {
            Auth::Anonymous => (None, None),
            Auth::UserPass(u, p) => (Some(u), Some(p)),
        }
    }
}

} // verus!
