use vstd::prelude::*;

use super::email::Email;
use super::password::Password;

verus! {

/// What the service keeps about an account besides its e-mail address.
pub struct Account {
    pub password: Seq<char>,
    pub requires_2fa: bool,
}

/// A registered account.
#[derive(Debug)]
pub struct User {
    pub email: Email,
    pub password: Password,
    pub requires_2fa: bool,
}

impl User {
    /// The account data under which the user is filed.
    pub open spec fn account(&self) -> Account {
        Account { password: self.password@, requires_2fa: self.requires_2fa }
    }

    pub fn new(email: Email, password: Password, requires_2fa: bool) -> (user: User)
        ensures
            user.email@ == email@,
            user.password@ == password@,
            user.requires_2fa == requires_2fa,
    {
        User { email, password, requires_2fa }
    }
}

impl Clone for User {
    fn clone(&self) -> (r: Self)
        ensures
            r.email@ == self.email@,
            r.password@ == self.password@,
            r.requires_2fa == self.requires_2fa,
    {
        User {
            email: self.email.clone(),
            password: self.password.clone(),
            requires_2fa: self.requires_2fa,
        }
    }
}

impl PartialEq for User {
    fn eq(&self, other: &Self) -> (r: bool) {
        self.email == other.email && self.password == other.password && self.requires_2fa
            == other.requires_2fa
    }
}

impl vstd::std_specs::cmp::PartialEqSpecImpl for User {
    open spec fn obeys_eq_spec() -> bool {
        true
    }

    open spec fn eq_spec(&self, other: &Self) -> bool {
        self.email@ == other.email@ && self.password@ == other.password@ && self.requires_2fa
            == other.requires_2fa
    }
}

} // verus!
