//! The account's access token.

use vstd::prelude::*;
use vstd::string::StringExecFns;

verus! {

/// What is kept of the list service's account: the token that a login gave.
#[derive(Debug, Clone)]
pub struct AniListData {
    pub token: Option<String>,
}

impl AniListData {
    /// Keeps the token of a login.
    pub fn save_token(&mut self, tok: &str)
        ensures
            final(self).token matches Some(token) && token@ == tok@,
    {
        self.token = Some(String::from_str(tok));
    }

    /// Forgets the token: the user is logged out.
    pub fn forget_token(&mut self)
        ensures
            final(self).token is None,
    {
        self.token = None;
    }

    /// The token, if the user is logged in.
    pub fn token(&self) -> (r: &Option<String>)
        ensures
            *r == self.token,
    {
        &self.token
    }
}

impl Default for AniListData {
    /// No token: nobody is logged in.
    fn default() -> (r: Self)
        ensures
            r.token is None,
    {
        AniListData { token: None }
    }
}

} // verus!
