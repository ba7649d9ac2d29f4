//! Turning the host message catalog's answers into the text of an error.
use vstd::prelude::*;

use crate::error::Error;

verus! {

/// Capacity, in UTF-16 code units, of the buffer handed to the message
/// catalog: enough for the longest known system message.
pub const MESSAGE_CAPACITY: usize = 420;

/// The text with leading and trailing whitespace removed, as `str::trim` gives it.
pub uninterp spec fn trim_of(s: Seq<char>) -> Seq<char>;

/// The text that `String::from_utf16_lossy` decodes from UTF-16 code units.
pub uninterp spec fn utf16_lossy(units: Seq<u16>) -> Seq<char>;

/// Relies on `str::trim`: leading and trailing whitespace removed, inner line
/// breaks kept.
#[verifier::external_body]
fn trim(s: &str) -> (r: &str)
    ensures
        r@ == trim_of(s@),
{
    s.trim()
}

/// Relies on `String::from_utf16_lossy`: decodes UTF-16, replacing invalid
/// code units instead of failing.
#[verifier::external_body]
fn from_utf16_lossy(units: &[u16]) -> (r: String)
    ensures
        r@ == utf16_lossy(units@),
{
    String::from_utf16_lossy(units)
}

/// The decimal digits.
pub open spec fn digits() -> Seq<char> {
    seq!['0', '1', '2', '3', '4', '5', '6', '7', '8', '9']
}

/// The decimal representation of a number, without leading zeros.
pub open spec fn decimal(n: nat) -> Seq<char>
    decreases n,
{
    if n < 10 {
        seq![digits()[n as int]]
    } else {
        decimal(n / 10).push(digits()[(n % 10) as int])
    }
}

/// The part of a catalog buffer that was written, decoded: nothing when the
/// catalog reported no characters, else the reported count of units, never
/// more than the buffer holds.
pub open spec fn written_text(buf: Seq<u16>, reported: u32) -> Option<Seq<char>> {
    if reported == 0 {
        None
    } else {
        let n = if reported < buf.len() {
            reported as int
        } else {
            buf.len() as int
        };
        Some(utf16_lossy(buf.subrange(0, n)))
    }
}

/// The text of an error whose code has no message, given the code of the
/// internal error that the lookup left and that code's message, if any.
pub open spec fn unformatted_text(code: u32, internal: u32, internal_text: Option<Seq<char>>) -> Seq<
    char,
> {
    match internal_text {
        Some(t) => "Error code "@ + decimal(code as nat)
            + " (could not format due to internal error: "@ + decimal(internal as nat) + " - "@
            + trim_of(t) + ")"@,
        None => "Error code "@ + decimal(code as nat)
            + " (could not format due to internal error code: "@ + decimal(internal as nat)
            + ")"@,
    }
}

/// The text of an error with the given code, given the catalog's message for
/// it and, when there is none, the internal error code and its message.
pub open spec fn rendered(
    code: u32,
    text: Option<Seq<char>>,
    internal: u32,
    internal_text: Option<Seq<char>>,
) -> Seq<char> {
    match text {
        Some(t) => trim_of(t),
        None => unformatted_text(code, internal, internal_text),
    }
}

/// Decimal representations are never empty.
proof fn lemma_decimal_not_empty(n: nat)
    ensures
        decimal(n).len() > 0,
    decreases n,
{
    if n >= 10 {
        lemma_decimal_not_empty(n / 10);
    }
}

/// Rendering depends on nothing but the code and the catalog's answers: the
/// same code with the same answers renders the same text.
pub proof fn lemma_rendering_deterministic(
    code: u32,
    text: Option<Seq<char>>,
    internal: u32,
    internal_text: Option<Seq<char>>,
    first: Seq<char>,
    second: Seq<char>,
)
    requires
        first == rendered(code, text, internal, internal_text),
        second == rendered(code, text, internal, internal_text),
    ensures
        first == second,
{
}

/// Rendering never gives an empty text, whenever the catalog's message (if
/// it gave one) holds more than whitespace.
pub proof fn lemma_rendered_not_empty(
    code: u32,
    text: Option<Seq<char>>,
    internal: u32,
    internal_text: Option<Seq<char>>,
)
    requires
        text matches Some(t) ==> trim_of(t).len() > 0,
    ensures
        rendered(code, text, internal, internal_text).len() > 0,
{
    reveal_strlit("Error code ");
    lemma_decimal_not_empty(code as nat);
}

/// The text of an error whose code has no message starts with the code
/// itself, followed by a note on the internal error.
pub proof fn lemma_unregistered_names_code(
    code: u32,
    internal: u32,
    internal_text: Option<Seq<char>>,
)
    ensures
        ("Error code "@ + decimal(code as nat) + " (could not format due to internal error"@).is_prefix_of(
            rendered(code, None, internal, internal_text),
        ),
{
    reveal_strlit("Error code ");
    reveal_strlit(" (could not format due to internal error");
    reveal_strlit(" (could not format due to internal error: ");
    reveal_strlit(" (could not format due to internal error code: ");
    let p = "Error code "@ + decimal(code as nat) + " (could not format due to internal error"@;
    let r = rendered(code, None, internal, internal_text);
    assert(r.subrange(0, p.len() as int) =~= p);
}

/// Appends the decimal representation of `n` to `s`.
fn push_decimal(s: &mut String, n: u32)
    ensures
        final(s)@ == old(s)@ + decimal(n as nat),
    decreases n,
{
    if n >= 10 {
        push_decimal(s, n / 10);
    }
    let d: usize = (n % 10) as usize;
    let all = "0123456789";
    proof {
        reveal_strlit("0123456789");
        assert(all@ == digits());
    }
    let one = all.substring_char(d, d + 1);
    assert(one@ =~= seq![digits()[d as int]]);
    s.append(one);
    assert(final(s)@ =~= old(s)@ + decimal(n as nat));
}

/// Decodes what the message catalog wrote into `buf`, given the number of
/// UTF-16 units it reported: `None` when it reported none, else the decoded
/// text of at most the buffer's length in units.
pub fn decode_message(buf: &[u16], reported: u32) -> (r: Option<String>)
    ensures
        r.deep_view() == written_text(buf@, reported),
{
    if reported == 0 {
        None
    } else {
        let n: usize = if (reported as usize) < buf.len() {
            reported as usize
        } else {
            buf.len()
        };
        let units = vstd::slice::slice_subrange(buf, 0, n);
        Some(from_utf16_lossy(units))
    }
}

impl Error {
    /// The text of this error when the catalog gave `text` for its code: the
    /// text trimmed, or `None` when the catalog gave nothing and the fallback
    /// of [`Error::describe_unformatted`] is due.
    pub fn describe(self, text: Option<&str>) -> (r: Option<String>)
        ensures
            match text {
                Some(t) => r.deep_view() == Some(trim_of(t@)),
                None => r is None,
            },
    {
        match text {
            Some(t) => Some(String::from_str(trim(t))),
            None => None,
        }
    }

    /// The text of this error when the catalog has no message for its code:
    /// names the code and the internal error that the lookup left, with that
    /// error's message when the catalog has one.
    pub fn describe_unformatted(self, internal: u32, internal_text: Option<&str>) -> (r: String)
        ensures
            r@ == unformatted_text(self@, internal, internal_text.deep_view()),
    {
        let mut s = String::from_str("Error code ");
        push_decimal(&mut s, self.code());
        match internal_text {
            Some(t) => {
                s.append(" (could not format due to internal error: ");
                push_decimal(&mut s, internal);
                s.append(" - ");
                s.append(trim(t));
                s.append(")");
            },
            None => {
                s.append(" (could not format due to internal error code: ");
                push_decimal(&mut s, internal);
                s.append(")");
            },
        }
        s
    }
}

} // verus!
