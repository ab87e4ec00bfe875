use vstd::prelude::*;
use vstd::string::*;

verus! {

/// Number of bytes of a one-time code.
pub const TWO_FA_CODE_LENGTH: usize = 6;

/// Smallest number from which a one-time code is made.
pub const LOWEST_CODE_NUMBER: u32 = 100_000;

/// Largest number from which a one-time code is made.
pub const HIGHEST_CODE_NUMBER: u32 = 999_999;

/// Calls `gen_range` on `rand::thread_rng()`, the thread's cryptographic
/// generator, with the inclusive range from `low` to `high`. The number drawn
/// lies in that range. Where the operating system's generator fails, the
/// call does not return.
#[verifier::external_body]
fn random_in_range(low: u32, high: u32) -> (n: u32)
    requires
        low <= high,
    ensures
        low <= n <= high,
{
    rand::Rng::gen_range(&mut rand::thread_rng(), low..=high)
}

/// The character of a decimal digit.
pub open spec fn digit_char(d: int) -> char {
    if d == 0 {
        '0'
    } else if d == 1 {
        '1'
    } else if d == 2 {
        '2'
    } else if d == 3 {
        '3'
    } else if d == 4 {
        '4'
    } else if d == 5 {
        '5'
    } else if d == 6 {
        '6'
    } else if d == 7 {
        '7'
    } else if d == 8 {
        '8'
    } else {
        '9'
    }
}

/// The last six decimal digits of a number, most significant first.
pub open spec fn six_digits(n: u32) -> Seq<char> {
    seq![
        digit_char((n as int) / 100_000 % 10),
        digit_char((n as int) / 10_000 % 10),
        digit_char((n as int) / 1_000 % 10),
        digit_char((n as int) / 100 % 10),
        digit_char((n as int) / 10 % 10),
        digit_char((n as int) % 10),
    ]
}

/// Whether a text is a code that the service could have generated: the
/// decimal form of a number from 100000 to 999999.
pub open spec fn is_generated_code(s: Seq<char>) -> bool {
    exists|n: u32| LOWEST_CODE_NUMBER <= n <= HIGHEST_CODE_NUMBER && s == six_digits(n)
}

fn digit_str(d: u32) -> (s: &'static str)
    requires
        d < 10,
    ensures
        s@ == seq![digit_char(d as int)],
{
    proof {
        reveal_strlit("0");
        reveal_strlit("1");
        reveal_strlit("2");
        reveal_strlit("3");
        reveal_strlit("4");
        reveal_strlit("5");
        reveal_strlit("6");
        reveal_strlit("7");
        reveal_strlit("8");
        reveal_strlit("9");
    }
    let s = match d {
        0 => "0",
        1 => "1",
        2 => "2",
        3 => "3",
        4 => "4",
        5 => "5",
        6 => "6",
        7 => "7",
        8 => "8",
        _ => "9",
    };
    assert(s@ =~= seq![digit_char(d as int)]);
    s
}

/// Text reported when a code is rejected.
pub open spec fn two_fa_code_rejection() -> Seq<char> {
    "Invalid 2FA code"@
}

/// The decimal form of a number from 100000 to 999999 is six bytes long.
pub proof fn lemma_generated_code_is_acceptable(s: Seq<char>)
    requires
        is_generated_code(s),
    ensures
        TwoFACode::acceptable(s),
        s.len() == 6,
{
    let n = choose|n: u32| LOWEST_CODE_NUMBER <= n <= HIGHEST_CODE_NUMBER && s == six_digits(n);
    assert(vstd::utf8::is_ascii_chars(s));
    vstd::utf8::is_ascii_chars_encode_utf8(s);
}

/// A one-time code: a text of six bytes in UTF-8. A code that the service
/// generates is six decimal digits.
#[derive(Debug)]
pub struct TwoFACode(String);

impl View for TwoFACode {
    type V = Seq<char>;

    closed spec fn view(&self) -> Seq<char> {
        self.0@
    }
}

impl TwoFACode {
    /// The length rule: exactly six bytes in UTF-8.
    pub open spec fn acceptable(s: Seq<char>) -> bool {
        vstd::utf8::encode_utf8(s).len() as usize == TWO_FA_CODE_LENGTH
    }

    /// Every value of the type obeys the length rule.
    pub open spec fn wf(&self) -> bool {
        Self::acceptable(self@)
    }

    #[verifier::type_invariant]
    spec fn inv(self) -> bool {
        self.wf()
    }

    /// Accepts `code` exactly when it is six bytes long.
    pub fn parse(code: String) -> (r: Result<TwoFACode, String>)
        ensures
            match r {
                Ok(parsed) => Self::acceptable(code@) && parsed@ == code@ && parsed.wf(),
                Err(e) => !Self::acceptable(code@) && e@ == two_fa_code_rejection(),
            },
    {
        if code.as_str().len() == TWO_FA_CODE_LENGTH {
            Ok(TwoFACode(code))
        } else {
            Err(String::from_str("Invalid 2FA code"))
        }
    }

    /// The code that spells out a number from 100000 to 999999.
    pub fn from_number(n: u32) -> (code: TwoFACode)
        requires
            LOWEST_CODE_NUMBER <= n <= HIGHEST_CODE_NUMBER,
        ensures
            code@ == six_digits(n),
            code.wf(),
            is_generated_code(code@),
    {
        let mut text = String::new();
        text.append(digit_str(n / 100_000 % 10));
        text.append(digit_str(n / 10_000 % 10));
        text.append(digit_str(n / 1_000 % 10));
        text.append(digit_str(n / 100 % 10));
        text.append(digit_str(n / 10 % 10));
        text.append(digit_str(n % 10));
        assert(text@ =~= six_digits(n));
        proof {
            lemma_generated_code_is_acceptable(text@);
        }
        TwoFACode(text)
    }
}

impl Default for TwoFACode {
    /// A fresh code, drawn uniformly from 100000 to 999999.
    fn default() -> (code: TwoFACode)
        ensures
            code.wf(),
            is_generated_code(code@),
    {
        TwoFACode::from_number(random_in_range(LOWEST_CODE_NUMBER, HIGHEST_CODE_NUMBER))
    }
}

impl AsRef<str> for TwoFACode {
    fn as_ref(&self) -> (r: &str)
        ensures
            r@ == self@,
            self.wf(),
    {
        proof {
            use_type_invariant(self);
        }
        self.0.as_str()
    }
}

impl Clone for TwoFACode {
    fn clone(&self) -> (r: Self)
        ensures
            r@ == self@,
    {
        proof {
            use_type_invariant(self);
        }
        TwoFACode(self.0.clone())
    }
}

impl PartialEq for TwoFACode {
    fn eq(&self, other: &Self) -> (r: bool) {
        self.0 == other.0
    }
}

impl vstd::std_specs::cmp::PartialEqSpecImpl for TwoFACode {
    open spec fn obeys_eq_spec() -> bool {
        true
    }

    open spec fn eq_spec(&self, other: &Self) -> bool {
        self@ == other@
    }
}

} // verus!
