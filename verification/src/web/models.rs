//! The rows of the first web site's user table.

use vstd::prelude::*;

verus! {

/// A user account.
#[derive(Debug)]
pub struct User {
    username: String,
    password: String,
}

impl User {
    /// An account with this name and stored password hash.
    pub fn new(username: String, password: String) -> (r: Self)
        ensures
            r.username_view() == username@,
            r.password_view() == password@,
    {
        User { username, password }
    }

    /// The account's name.
    pub closed spec fn username_view(&self) -> Seq<char> {
        self.username@
    }

    /// The account's stored password hash.
    pub closed spec fn password_view(&self) -> Seq<char> {
        self.password@
    }

    pub fn get_username(&self) -> (r: &str)
        ensures
            r@ == self.username_view(),
    {
        self.username.as_str()
    }

    pub fn get_password(&self) -> (r: &str)
        ensures
            r@ == self.password_view(),
    {
        self.password.as_str()
    }
}

} // verus!
