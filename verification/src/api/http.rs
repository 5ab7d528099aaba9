//! HTTP methods and status codes, as the session client reads them.

use vstd::prelude::*;
use std::str::FromStr;
use crate::util::text::decimal;

verus! {

/// A character that may stand in an HTTP method: an ASCII letter or digit, or
/// one of `! * + - . ^ _ | ~` and the backtick.
pub open spec fn is_method_char(c: char) -> bool {
    let n = c as u32;
    ||| 0x30 <= n <= 0x39
    ||| 0x41 <= n <= 0x5a
    ||| 0x61 <= n <= 0x7a
    ||| c == '!'
    ||| c == '*'
    ||| c == '+'
    ||| c == '-'
    ||| c == '.'
    ||| c == '^'
    ||| c == '_'
    ||| c == '`'
    ||| c == '|'
    ||| c == '~'
}

/// A text that names an HTTP method: not empty, and made of method characters.
pub open spec fn is_method_token(text: Seq<char>) -> bool {
    &&& text.len() > 0
    &&& forall|i: int| 0 <= i < text.len() ==> is_method_char(#[trigger] text[i])
}

/// Parses an HTTP method and gives back its name.
///
/// Calls `reqwest::Method::from_str` and, on success, `Method::as_str`. The
/// parser refuses the empty text and any text with a byte outside its table
/// of method characters; every other text becomes a method whose name is that
/// text. The parser's error carries nothing, so it is given as `None`.
#[verifier::external_body]
pub(crate) fn parse_method(text: &str) -> (name: Option<String>)
    ensures
        name is Some <==> is_method_token(text@),
        name matches Some(n) ==> n@ == text@,
{
    match reqwest::Method::from_str(text) {
        Ok(method) => Some(method.as_str().to_string()),
        Err(_) => None,
    }
}

/// The text that `reqwest::StatusCode` displays for a status code: the number
/// and the reason phrase that the crate's table gives for it.
pub uninterp spec fn status_line(code: u16) -> Seq<char>;

/// How every status text begins: the code in decimal, then a space.
pub open spec fn status_head(code: u16) -> Seq<char> {
    decimal(code as nat) + seq![' ']
}

/// The display text of a status code.
///
/// Calls `reqwest::StatusCode::from_u16`, which accepts the codes from 100 up
/// to 999, and then the status code's `to_string`. That text is the code as a
/// number, a space, and the reason phrase of the code or a stand-in for it.
#[verifier::external_body]
pub(crate) fn status_text(code: u16) -> (text: String)
    requires
        100 <= code < 1000,
    ensures
        text@ == status_line(code),
        status_head(code).is_prefix_of(text@),
{
    match reqwest::StatusCode::from_u16(code) {
        Ok(status) => status.to_string(),
        Err(_) => String::new(),
    }
}

/// The status code of an HTTP response: a number from 100 up to 999.
#[derive(Clone, Copy, Debug)]
pub struct Status {
    code: u16,
}

impl Status {
    #[verifier::type_invariant]
    spec fn in_range(self) -> bool {
        100 <= self.code < 1000
    }

    /// The number of the status code.
    pub closed spec fn code(self) -> u16 {
        self.code
    }

    /// The status with the given number, if it is one: a number from 100 up to 999.
    pub fn new(code: u16) -> (status: Option<Status>)
        ensures
            status is Some <==> 100 <= code < 1000,
            status matches Some(s) ==> s.code() == code,
    {
        if 100 <= code && code < 1000 {
            Some(Status { code })
        } else {
            None
        }
    }

    /// The number of the status code.
    pub fn as_u16(self) -> (code: u16)
        ensures
            code == self.code(),
            100 <= code < 1000,
    {
        proof {
            use_type_invariant(self);
        }
        self.code
    }

    /// Whether the status reports success: a code from 200 up to 299.
    pub open spec fn success(self) -> bool {
        200 <= self.code() < 300
    }

    /// Whether the status reports success: a code from 200 up to 299.
    #[verifier::when_used_as_spec(success)]
    pub fn is_success(self) -> (success: bool)
        ensures
            success == self.success(),
    {
        200 <= self.code && self.code < 300
    }

    /// The status as text: the number and its reason phrase.
    pub fn text(self) -> (text: String)
        ensures
            text@ == status_line(self.code()),
            status_head(self.code()).is_prefix_of(text@),
    {
        proof {
            use_type_invariant(self);
        }
        status_text(self.code)
    }
}

} // verus!
