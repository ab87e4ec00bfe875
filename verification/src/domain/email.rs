use vstd::prelude::*;
use vstd::string::*;

verus! {

/// What `validator::validate_email` answers for a text.
pub uninterp spec fn email_is_valid(s: Seq<char>) -> bool;

/// At first sight not an address: the text is empty, or it has no `@`.
pub open spec fn address_is_implausible(email: Seq<char>) -> bool {
    email.len() == 0 || !email.contains('@')
}

/// Calls `validator::validate_email`, the HTML5 rule for e-mail addresses.
/// The answer depends on the text alone. The validator turns down an empty
/// text and one without `@` before it looks any further; nothing else is
/// claimed of its answer.
#[verifier::external_body]
fn validate_email(s: &str) -> (valid: bool)
    ensures
        valid == email_is_valid(s@),
        valid ==> !address_is_implausible(s@),
{
    validator::validate_email(s)
}

/// Text reported when `s` is rejected as an e-mail address.
pub open spec fn email_rejection(s: Seq<char>) -> Seq<char> {
    s + " is not a valid email."@
}

/// An e-mail address that the validator has accepted. It is compared and
/// stored exactly as written: no case folding, no trimming.
#[derive(Debug)]
pub struct Email(String);

impl View for Email {
    type V = Seq<char>;

    closed spec fn view(&self) -> Seq<char> {
        self.0@
    }
}

impl Email {
    /// The texts that are taken as addresses: those that the validator
    /// accepts. None of them is empty and each holds an `@`.
    pub open spec fn accepts(s: Seq<char>) -> bool {
        email_is_valid(s) && !address_is_implausible(s)
    }

    /// Every value of the type has been accepted by the validator.
    pub open spec fn wf(&self) -> bool {
        Self::accepts(self@)
    }

    #[verifier::type_invariant]
    spec fn inv(self) -> bool {
        self.wf()
    }

    /// Accepts `s` exactly when the validator does; a rejected input is
    /// echoed in the error text.
    pub fn parse(s: String) -> (r: Result<Email, String>)
        ensures
            match r {
                Ok(email) => Self::accepts(s@) && email@ == s@ && email.wf(),
                Err(e) => !email_is_valid(s@) && e@ == email_rejection(s@),
            },
    {
        let valid = validate_email(s.as_str());
        Email::from_verdict(s, valid)
    }

    /// Turns a text and the validator's verdict on it into an address or
    /// the rejection message.
    pub fn from_verdict(s: String, valid: bool) -> (r: Result<Email, String>)
        requires
            valid == Self::accepts(s@),
        ensures
            match r {
                Ok(email) => valid && email@ == s@ && email.wf(),
                Err(e) => !valid && e@ == email_rejection(s@),
            },
    {
        if valid {
            Ok(Email(s))
        } else {
            Err(s.concat(" is not a valid email."))
        }
    }
}

impl AsRef<str> for Email {
    /// The address text.
    fn as_ref(&self) -> (r: &str)
        ensures
            r@ == self@,
            self.wf(),
    {
        proof {
            use_type_invariant(self);
        }
        self.0.as_str()
    }
}

impl Clone for Email {
    fn clone(&self) -> (r: Self)
        ensures
            r@ == self@,
    {
        proof {
            use_type_invariant(self);
        }
        Email(self.0.clone())
    }
}

impl PartialEq for Email {
    fn eq(&self, other: &Self) -> (r: bool) {
        self.0 == other.0
    }
}

impl vstd::std_specs::cmp::PartialEqSpecImpl for Email {
    open spec fn obeys_eq_spec() -> bool {
        true
    }

    open spec fn eq_spec(&self, other: &Self) -> bool {
        self@ == other@
    }
}

} // verus!
