//! Read-only identity state handed to the session's shell.

use vstd::prelude::*;

verus! {

/// Whether a user is logged in, and who. The session core only reads
/// this; mutating it is the surrounding shell's business.
#[derive(Clone, Debug, PartialEq)]
pub struct AuthContext {
    pub is_logged_in: bool,
    pub user_id: Option<String>,
}

impl AuthContext {
    /// A fresh context: nobody is logged in yet.
    pub fn new() -> (r: Self)
        ensures
            !r.is_logged_in,
            r.user_id is None,
    {
        Self { is_logged_in: false, user_id: None }
    }
}

} // verus!
