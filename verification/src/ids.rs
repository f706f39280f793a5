//! Random identifiers for sessions, projects and recordings, and their
//! text form.

use vstd::prelude::*;

verus! {

/// The lower-case hexadecimal digit of `d` (0 to 15).
pub open spec fn hex_digit(d: int) -> char {
    if d < 10 {
        (('0' as int) + d) as char
    } else {
        (('a' as int) + d - 10) as char
    }
}

/// The `n` last hexadecimal digits of `v`, most significant first.
pub open spec fn hex_digits(v: nat, n: nat) -> Seq<char>
    decreases n,
{
    if n == 0 {
        Seq::empty()
    } else {
        hex_digits(v / 16, (n - 1) as nat).push(hex_digit((v % 16) as int))
    }
}

/// The hyphenated form of a 128-bit identifier: its 32 hexadecimal digits,
/// most significant first, in groups of 8, 4, 4, 4 and 12.
pub open spec fn uuid_text(v: u128) -> Seq<char> {
    let d = hex_digits(v as nat, 32);
    d.subrange(0, 8) + "-"@ + d.subrange(8, 12) + "-"@ + d.subrange(12, 16) + "-"@ + d.subrange(16, 20) + "-"@
        + d.subrange(20, 32)
}

/// The identifier that `Uuid::parse_str` reads from a text, if it reads
/// one.
pub uninterp spec fn uuid_parsed(text: Seq<char>) -> Option<u128>;

/// Calls `uuid::Uuid::new_v4()` and takes `as_u128`. Nothing is claimed of
/// the result: it is random.
#[verifier::external_body]
fn random_uuid() -> u128 {
    uuid::Uuid::new_v4().as_u128()
}

/// Calls `uuid::Uuid::from_u128(v).to_string()`. Claimed, as the `uuid`
/// documentation shows the hyphenated form: the result is `uuid_text(v)`.
#[verifier::external_body]
fn uuid_string(v: u128) -> (s: String)
    ensures
        s@ == uuid_text(v),
{
    uuid::Uuid::from_u128(v).to_string()
}

/// Calls `uuid::Uuid::parse_str` and takes `as_u128` of what it reads.
/// Claimed: the result is a function of the text (`uuid_parsed`), and, as
/// the `uuid` documentation promises that every format the crate writes is
/// read back, the hyphenated text of an identifier gives that identifier.
/// Which other forms it accepts is not stated.
#[verifier::external_body]
fn parse_uuid(text: &str) -> (r: Option<u128>)
    ensures
        r == uuid_parsed(text@),
        forall|v: u128| text@ == #[trigger] uuid_text(v) ==> r == Some(v),
{
    match uuid::Uuid::parse_str(text) {
        Ok(u) => Some(u.as_u128()),
        Err(_) => None,
    }
}

/// Unique identifier of a session.
#[derive(Debug, Clone, Copy, PartialEq, Eq, Structural, Hash)]
pub struct SessionId(u128);

impl SessionId {
    /// The identifier's number.
    pub closed spec fn value(self) -> u128 {
        self.0
    }

    /// A new random identifier.
    pub fn new() -> (id: Self) {
        SessionId(random_uuid())
    }

    /// The hyphenated text of the identifier.
    pub fn to_text(&self) -> (s: String)
        ensures
            s@ == uuid_text(self.value()),
    {
        uuid_string(self.0)
    }
}

impl Default for SessionId {
    fn default() -> (id: Self) {
        SessionId::new()
    }
}

/// Unique identifier of a project.
#[derive(Debug, Clone, Copy, PartialEq, Eq, Structural, Hash)]
pub struct ProjectId(u128);

impl ProjectId {
    /// The identifier's number.
    pub closed spec fn value(self) -> u128 {
        self.0
    }

    /// A new random identifier.
    pub fn new() -> (id: Self) {
        ProjectId(random_uuid())
    }

    /// The hyphenated text of the identifier.
    pub fn to_text(&self) -> (s: String)
        ensures
            s@ == uuid_text(self.value()),
    {
        uuid_string(self.0)
    }
}

impl Default for ProjectId {
    fn default() -> (id: Self) {
        ProjectId::new()
    }
}

/// Unique identifier of a recording.
#[derive(Debug, Clone, Copy, PartialEq, Eq, Structural, Hash)]
pub struct RecordingId(u128);

impl RecordingId {
    /// The identifier's number.
    pub closed spec fn value(self) -> u128 {
        self.0
    }

    /// A new random identifier.
    pub fn new() -> (id: Self) {
        RecordingId(random_uuid())
    }

    /// The identifier written in `s`, if `s` is one.
    pub fn parse(s: &str) -> (r: Option<Self>)
        ensures
            match r {
                Some(id) => uuid_parsed(s@) == Some(id.value()),
                None => uuid_parsed(s@) is None,
            },
            forall|id: RecordingId| s@ == #[trigger] uuid_text(id.value()) ==> r == Some(id),
    {
        match parse_uuid(s) {
            Some(v) => Some(RecordingId(v)),
            None => None,
        }
    }

    /// The hyphenated text of the identifier.
    pub fn to_text(&self) -> (s: String)
        ensures
            s@ == uuid_text(self.value()),
    {
        uuid_string(self.0)
    }
}

impl Default for RecordingId {
    fn default() -> (id: Self) {
        RecordingId::new()
    }
}

} // verus!
