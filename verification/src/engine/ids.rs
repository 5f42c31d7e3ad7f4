//! Session and query identifiers: opaque 128-bit values, written as
//! hyphenated lower-case hexadecimal.

use crate::text::concat2;
use vstd::arithmetic::power::pow;
use vstd::prelude::*;
use vstd::string::*;

verus! {

/// The character for the hexadecimal digit `d`, in lower case.
pub open spec fn hex_digit(d: int) -> char {
    if d == 0 {
        '0'
    } else if d == 1 {
        '1'
    } else if d == 2 {
        '2'
    } else if d == 3 {
        '3'
    } else if d == 4 {
        '4'
    } else if d == 5 {
        '5'
    } else if d == 6 {
        '6'
    } else if d == 7 {
        '7'
    } else if d == 8 {
        '8'
    } else if d == 9 {
        '9'
    } else if d == 10 {
        'a'
    } else if d == 11 {
        'b'
    } else if d == 12 {
        'c'
    } else if d == 13 {
        'd'
    } else if d == 14 {
        'e'
    } else {
        'f'
    }
}

/// Whether position `i` of the written form holds a hyphen.
pub open spec fn hyphen_at(i: int) -> bool {
    i == 8 || i == 13 || i == 18 || i == 23
}

/// Which of the 32 digits, counted from the most significant, stands at
/// position `i` of the written form.
pub open spec fn digit_index(i: int) -> int {
    if i < 8 {
        i
    } else if i < 13 {
        i - 1
    } else if i < 18 {
        i - 2
    } else if i < 23 {
        i - 3
    } else {
        i - 4
    }
}

/// The written form of a 128-bit identifier: 32 hexadecimal digits, most
/// significant first, in groups of 8, 4, 4, 4 and 12 separated by hyphens.
pub open spec fn uuid_text(v: u128) -> Seq<char> {
    Seq::new(
        36,
        |i: int|
            if hyphen_at(i) {
                '-'
            } else {
                hex_digit((v as int / pow(16, (31 - digit_index(i)) as nat)) % 16)
            },
    )
}

/// What `Uuid::parse_str` makes of a text: the 128-bit value, or the
/// rendered parse error.
pub uninterp spec fn uuid_parse(s: Seq<char>) -> Result<u128, Seq<char>>;

/// Whether a value has the form of a randomly drawn identifier: the
/// version digit is 4 and the two variant bits are `10`.
pub open spec fn is_random_form(v: u128) -> bool {
    (v >> 76u128) & 0xf == 4 && (v >> 62u128) & 0x3 == 2
}

/// `Uuid::new_v4` draws a random identifier. All that holds of every
/// value drawn is its form: the version and the variant bits are set.
#[verifier::external_body]
fn random_uuid() -> (v: u128)
    ensures
        is_random_form(v),
{
    uuid::Uuid::new_v4().as_u128()
}

/// `Uuid::from_u128(v)` rendered by its `Display`, which writes the
/// hyphenated lower-case form, most significant digit first.
#[verifier::external_body]
fn uuid_to_string(v: u128) -> (s: String)
    ensures
        s@ == uuid_text(v),
{
    uuid::Uuid::from_u128(v).to_string()
}

/// `Uuid::parse_str`: the value read from `s` as a 128-bit integer, or the
/// text of the parse error. The outcome depends on `s` alone.
#[verifier::external_body]
fn parse_uuid(s: &str) -> (r: Result<u128, String>)
    ensures
        match r {
            Ok(v) => uuid_parse(s@) == Ok::<u128, Seq<char>>(v),
            Err(e) => uuid_parse(s@) == Err::<u128, Seq<char>>(e@),
        },
{
    match uuid::Uuid::parse_str(s) {
        Ok(u) => Ok(u.as_u128()),
        Err(e) => Err(e.to_string()),
    }
}

/// Identifies one database session.
#[derive(Debug, Clone, Copy, PartialEq, Eq, Hash, Structural)]
pub struct SessionId(pub u128);

/// Identifies one running query.
#[derive(Debug, Clone, Copy, PartialEq, Eq, Hash, Structural)]
pub struct QueryId(pub u128);

impl SessionId {
    /// A fresh, randomly drawn identifier.
    pub fn new() -> (id: Self)
        ensures
            is_random_form(id.0),
    {
        SessionId(random_uuid())
    }

    /// The written form of this identifier.
    pub fn to_string(&self) -> (s: String)
        ensures
            s@ == uuid_text(self.0),
    {
        uuid_to_string(self.0)
    }

    /// Reads an identifier from its written form.
    pub fn parse(text: &str) -> (r: Result<SessionId, String>)
        ensures
            match uuid_parse(text@) {
                Ok(v) => r == Ok::<SessionId, String>(SessionId(v)),
                Err(e) => r is Err && r->Err_0@ == "Invalid session ID: "@ + e,
            },
    {
        match parse_uuid(text) {
            Ok(v) => Ok(SessionId(v)),
            Err(e) => Err(concat2("Invalid session ID: ", e.as_str())),
        }
    }
}

impl QueryId {
    /// A fresh, randomly drawn identifier.
    pub fn new() -> (id: Self)
        ensures
            is_random_form(id.0),
    {
        QueryId(random_uuid())
    }

    /// The written form of this identifier.
    pub fn to_string(&self) -> (s: String)
        ensures
            s@ == uuid_text(self.0),
    {
        uuid_to_string(self.0)
    }

    /// Reads an identifier from its written form.
    pub fn parse(text: &str) -> (r: Result<QueryId, String>)
        ensures
            match uuid_parse(text@) {
                Ok(v) => r == Ok::<QueryId, String>(QueryId(v)),
                Err(e) => r is Err && r->Err_0@ == "Invalid query ID: "@ + e,
            },
    {
        match parse_uuid(text) {
            Ok(v) => Ok(QueryId(v)),
            Err(e) => Err(concat2("Invalid query ID: ", e.as_str())),
        }
    }
}

impl Default for SessionId {
    fn default() -> Self {
        SessionId::new()
    }
}

impl Default for QueryId {
    fn default() -> Self {
        QueryId::new()
    }
}

} // verus!
