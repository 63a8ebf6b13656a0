//! The credentials that come with a request.

use vstd::prelude::*;
use vstd::std_specs::cmp::PartialEqSpecImpl;

verus! {

/// A user name with its password.
#[derive(Clone, Debug)]
pub struct User {
    username: String,
    password: String,
}

/// The mathematical value of a [`User`].
pub struct UserView {
    pub username: Seq<char>,
    pub password: Seq<char>,
}

impl View for User {
    type V = UserView;

    closed spec fn view(&self) -> UserView {
        UserView { username: self.username@, password: self.password@ }
    }
}

impl User {
    pub fn new(username: String, password: String) -> (user: Self)
        ensures
            user@ == (UserView { username: username@, password: password@ }),
    {
        User { username: username, password: password }
    }
}

impl PartialEq for User {
    fn eq(&self, other: &User) -> (same: bool) {
        self.username == other.username && self.password == other.password
    }
}

impl PartialEqSpecImpl for User {
    open spec fn obeys_eq_spec() -> bool {
        true
    }

    /// Two users are equal when both the names and the passwords are.
    open spec fn eq_spec(&self, other: &User) -> bool {
        self@ == other@
    }
}

} // verus!
