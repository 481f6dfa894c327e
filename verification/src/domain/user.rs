//! Account records.

use vstd::prelude::*;
use super::email::Email;
use super::password::Password;

verus! {

/// Mathematical image of an account record.
pub struct UserView {
    pub email: Seq<char>,
    pub password: Seq<char>,
    pub require_2fa: bool,
}

/// One account of the directory: a validated email, a validated
/// password, and whether login must run the two-factor challenge.
/// Records are created on signup and never mutated.
#[derive(Debug)]
pub struct User {
    pub email: Email,
    pub password: Password,
    pub require_2fa: bool,
}

impl View for User {
    type V = UserView;

    open spec fn view(&self) -> UserView {
        UserView { email: self.email@, password: self.password@, require_2fa: self.require_2fa }
    }
}

impl User {
    /// Builds the record holding exactly the given fields.
    pub fn new(email: Email, password: Password, requires_2fa: bool) -> (r: Self)
        ensures
            r@ == (UserView { email: email@, password: password@, require_2fa: requires_2fa }),
    {
        User { email: email, password: password, require_2fa: requires_2fa }
    }
}

impl Clone for User {
    /// The clone carries the same record.
    fn clone(&self) -> (r: Self)
        ensures
            r == *self,
    {
        User { email: self.email.clone(), password: self.password.clone(), require_2fa: self.require_2fa }
    }
}

impl PartialEq for User {
    fn eq(&self, other: &User) -> (r: bool) {
        self.email == other.email && self.password == other.password
            && self.require_2fa == other.require_2fa
    }
}

impl vstd::std_specs::cmp::PartialEqSpecImpl for User {
    open spec fn obeys_eq_spec() -> bool {
        true
    }

    open spec fn eq_spec(&self, other: &User) -> bool {
        self@ == other@
    }
}

} // verus!
