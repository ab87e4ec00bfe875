use vstd::prelude::*;
use vstd::string::*;

verus! {

/// Fewest characters a password may have.
pub const MIN_PASSWORD_LENGTH: usize = 8;

/// A password that has passed the length rule.
#[derive(Debug)]
pub struct Password(String);

impl View for Password {
    type V = Seq<char>;

    closed spec fn view(&self) -> Seq<char> {
        self.0@
    }
}

/// Text reported when `s` is rejected as a password.
pub open spec fn password_rejection(s: Seq<char>) -> Seq<char> {
    s + " is not a valid password"@
}

impl Password {
    /// The length rule: at least eight characters.
    pub open spec fn acceptable(s: Seq<char>) -> bool {
        s.len() >= MIN_PASSWORD_LENGTH
    }

    /// Every value of the type obeys the length rule.
    pub open spec fn wf(&self) -> bool {
        Self::acceptable(self@)
    }

    #[verifier::type_invariant]
    spec fn inv(self) -> bool {
        self.wf()
    }

    /// Accepts `s` exactly when it has at least eight characters; a rejected
    /// input is echoed in the error text.
    pub fn parse(s: String) -> (r: Result<Password, String>)
        ensures
            match r {
                Ok(p) => Self::acceptable(s@) && p@ == s@ && p.wf(),
                Err(e) => !Self::acceptable(s@) && e@ == password_rejection(s@),
            },
    {
        if s.as_str().unicode_len() < MIN_PASSWORD_LENGTH {
            Err(s.concat(" is not a valid password"))
        } else {
            Ok(Password(s))
        }
    }

}

impl AsRef<str> for Password {
    /// The password text.
    fn as_ref(&self) -> (r: &str)
        ensures
            r@ == self@,
            self.wf(),
    {
        proof {
            use_type_invariant(self);
        }
        self.0.as_str()
    }
}

impl Clone for Password {
    fn clone(&self) -> (r: Self)
        ensures
            r@ == self@,
    {
        proof {
            use_type_invariant(self);
        }
        Password(self.0.clone())
    }
}

impl PartialEq for Password {
    fn eq(&self, other: &Self) -> (r: bool) {
        self.0 == other.0
    }
}

impl vstd::std_specs::cmp::PartialEqSpecImpl for Password {
    open spec fn obeys_eq_spec() -> bool {
        true
    }

    open spec fn eq_spec(&self, other: &Self) -> bool {
        self@ == other@
    }
}

} // verus!
