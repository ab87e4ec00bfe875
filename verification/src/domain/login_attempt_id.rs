use vstd::prelude::*;
use vstd::string::*;

verus! {

/// The 128-bit value that `uuid::Uuid::parse_str` reads from a text, where it
/// reads one.
pub uninterp spec fn uuid_value(s: Seq<char>) -> Option<u128>;

/// The text that `uuid::Uuid` displays for a 128-bit value.
pub uninterp spec fn uuid_text(v: u128) -> Seq<char>;

/// Calls `uuid::Uuid::parse_str` and hands the identifier out as its 128-bit
/// value. Whether a text is read, and as which value, depends on the text
/// alone.
#[verifier::external_body]
fn parse_uuid(s: &str) -> (r: Option<u128>)
    ensures
        r == uuid_value(s@),
{
    match uuid::Uuid::parse_str(s) {
        Ok(id) => Some(id.as_u128()),
        Err(_) => None,
    }
}

/// Writes a 128-bit value as `uuid::Uuid` displays it: hyphenated, in lower
/// case. The parser reads that text back as the same value.
#[verifier::external_body]
fn format_uuid(v: u128) -> (s: String)
    ensures
        s@ == uuid_text(v),
        uuid_value(s@) == Some(v),
{
    uuid::Uuid::from_u128(v).to_string()
}

/// Calls `uuid::Uuid::new_v4`, which draws a random identifier from the
/// operating system's generator. Any value may come back. Where that
/// generator fails, the call does not return.
#[verifier::external_body]
fn random_uuid() -> (v: u128) {
    uuid::Uuid::new_v4().as_u128()
}

/// Whether a text is the display form of a UUID: the text that is written
/// for some value and that reads back as that value.
pub open spec fn is_display_form(s: Seq<char>) -> bool {
    exists|v: u128| s == uuid_text(v) && uuid_value(s) == Some(v)
}

/// Text reported when an identifier is rejected.
pub open spec fn login_attempt_id_rejection() -> Seq<char> {
    "Could not parse login attempt id"@
}

/// The identifier of one login attempt that awaits its second factor, kept
/// in the hyphenated lower-case form of a UUID.
#[derive(Debug)]
pub struct LoginAttemptId(String);

impl View for LoginAttemptId {
    type V = Seq<char>;

    closed spec fn view(&self) -> Seq<char> {
        self.0@
    }
}

impl LoginAttemptId {
    /// Every value of the type is the display form of some UUID.
    pub open spec fn wf(&self) -> bool {
        is_display_form(self@)
    }

    #[verifier::type_invariant]
    spec fn inv(self) -> bool {
        self.wf()
    }

    /// Reads any of the UUID notations and keeps the identifier in its
    /// display form.
    pub fn parse(id: String) -> (r: Result<LoginAttemptId, String>)
        ensures
            match r {
                Ok(parsed) => {
                    &&& uuid_value(id@) matches Some(v)
                    &&& parsed@ == uuid_text(v)
                    &&& uuid_value(parsed@) == Some(v)
                    &&& parsed.wf()
                },
                Err(e) => uuid_value(id@) is None && e@ == login_attempt_id_rejection(),
            },
    {
        let value = parse_uuid(id.as_str());
        LoginAttemptId::from_parsed(value)
    }

    /// Turns what the UUID parser read into an identifier or the rejection
    /// message.
    pub fn from_parsed(value: Option<u128>) -> (r: Result<LoginAttemptId, String>)
        ensures
            match r {
                Ok(parsed) => {
                    &&& value matches Some(v)
                    &&& parsed@ == uuid_text(v)
                    &&& uuid_value(parsed@) == Some(v)
                    &&& parsed.wf()
                },
                Err(e) => value is None && e@ == login_attempt_id_rejection(),
            },
    {
        match value {
            Some(v) => Ok(LoginAttemptId::from_value(v)),
            None => Err(String::from_str("Could not parse login attempt id")),
        }
    }

    /// The identifier with the given 128-bit value.
    pub fn from_value(v: u128) -> (id: LoginAttemptId)
        ensures
            id@ == uuid_text(v),
            uuid_value(id@) == Some(v),
            id.wf(),
    {
        LoginAttemptId(format_uuid(v))
    }
}

impl Default for LoginAttemptId {
    /// A fresh random identifier.
    fn default() -> (id: LoginAttemptId)
        ensures
            id.wf(),
    {
        LoginAttemptId::from_value(random_uuid())
    }
}

impl AsRef<str> for LoginAttemptId {
    fn as_ref(&self) -> (r: &str)
        ensures
            r@ == self@,
            self.wf(),
    {
        proof {
            use_type_invariant(self);
        }
        self.0.as_str()
    }
}

impl Clone for LoginAttemptId {
    fn clone(&self) -> (r: Self)
        ensures
            r@ == self@,
    {
        proof {
            use_type_invariant(self);
        }
        LoginAttemptId(self.0.clone())
    }
}

impl PartialEq for LoginAttemptId {
    fn eq(&self, other: &Self) -> (r: bool) {
        self.0 == other.0
    }
}

impl vstd::std_specs::cmp::PartialEqSpecImpl for LoginAttemptId {
    open spec fn obeys_eq_spec() -> bool {
        true
    }

    open spec fn eq_spec(&self, other: &Self) -> bool {
        self@ == other@
    }
}

} // verus!
