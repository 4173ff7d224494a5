//! Text encodings: unpadded URL-safe base64, JSON string literals, decimal
//! numbers, and title case for display.

use base64::Engine;
use vstd::prelude::*;

verus! {

/// The unpadded URL-safe base64 text that stands for `bytes`.
pub uninterp spec fn base64url_text(bytes: Seq<u8>) -> Seq<char>;

/// The JSON string literal (quotes and escapes included) that stands for `s`.
pub uninterp spec fn json_string_text(s: Seq<char>) -> Seq<char>;

/// The string stored under `key` in the JSON object that `document` holds;
/// `None` where the document is no JSON object, has no such member, or the
/// member is not a string.
pub uninterp spec fn json_member_text(document: Seq<u8>, key: Seq<char>) -> Option<Seq<char>>;

/// `s` in title case: its words capitalised and set apart by single spaces.
pub uninterp spec fn title_case_text(s: Seq<char>) -> Seq<char>;

/// The characters of the URL-safe base64 alphabet.
pub open spec fn is_base64url_char(c: char) -> bool {
    ||| 'A' <= c <= 'Z'
    ||| 'a' <= c <= 'z'
    ||| '0' <= c <= '9'
    ||| c == '-'
    ||| c == '_'
}

/// Every character of `s` belongs to the URL-safe base64 alphabet.
pub open spec fn is_base64url(s: Seq<char>) -> bool {
    forall|i: int| 0 <= i < s.len() ==> is_base64url_char(#[trigger] s[i])
}

/// The length of the unpadded base64 text for `len` bytes: four characters
/// for every three bytes, two for one byte left over, three for two.
pub open spec fn base64_len(len: nat) -> nat {
    (4 * len + 2) / 3
}

/// The character for a decimal digit.
pub open spec fn digit_char(d: nat) -> char {
    if d == 0 {
        '0'
    } else if d == 1 {
        '1'
    } else if d == 2 {
        '2'
    } else if d == 3 {
        '3'
    } else if d == 4 {
        '4'
    } else if d == 5 {
        '5'
    } else if d == 6 {
        '6'
    } else if d == 7 {
        '7'
    } else if d == 8 {
        '8'
    } else {
        '9'
    }
}

/// `n` in decimal, most significant digit first, without leading zeros.
pub open spec fn decimal_text(n: nat) -> Seq<char>
    decreases n,
{
    if n < 10 {
        seq![digit_char(n)]
    } else {
        decimal_text(n / 10).push(digit_char(n % 10))
    }
}

/// Calls `Engine::encode_string` of the base64 crate on its engine
/// `BASE64_URL_SAFE_NO_PAD`, with an empty buffer. Trusted: the text is the
/// encoding of `bytes`; it is made of the URL-safe alphabet alone, since that
/// engine writes no padding; and it has the length that the crate's
/// `encoded_len` gives without padding.
#[verifier::external_body]
pub(crate) fn base64url_encode(bytes: &[u8]) -> (text: String)
    ensures
        text@ == base64url_text(bytes@),
        is_base64url(text@),
        text@.len() == base64_len(bytes@.len()),
{
    let mut text = String::new();
    base64::prelude::BASE64_URL_SAFE_NO_PAD.encode_string(bytes, &mut text);
    text
}

/// Builds a `serde_json::Value` from `s` and prints it with the `Display` of
/// `serde_json::Value`. Trusted: the text is the compact JSON string literal
/// for `s`.
#[verifier::external_body]
pub(crate) fn json_string(s: &str) -> (text: String)
    ensures
        text@ == json_string_text(s@),
{
    serde_json::Value::from(s).to_string()
}

/// Parses `document` with `serde_json::from_slice` and reads one member with
/// `Value::get` and `Value::as_str`. Trusted: the result is that member's
/// string, and `None` in every other case.
#[verifier::external_body]
pub(crate) fn json_member(document: &[u8], key: &str) -> (member: Option<String>)
    ensures
        member.is_some() == json_member_text(document@, key@).is_some(),
        member matches Some(s) ==> json_member_text(document@, key@) == Some(s@),
{
    let value: serde_json::Value = serde_json::from_slice(document).ok()?;
    value.get(key)?.as_str().map(|s| s.to_owned())
}

/// Calls `to_title_case` of the Inflector crate (its function in
/// `cases::titlecase`). Trusted: the result depends on the text alone.
#[verifier::external_body]
pub(crate) fn title_case(s: &str) -> (text: String)
    ensures
        text@ == title_case_text(s@),
{
    inflector::cases::titlecase::to_title_case(s)
}

/// The text of one decimal digit.
fn digit_str(d: u64) -> (s: &'static str)
    requires
        d < 10,
    ensures
        s@ == seq![digit_char(d as nat)],
{
    proof {
        reveal_strlit("0");
        reveal_strlit("1");
        reveal_strlit("2");
        reveal_strlit("3");
        reveal_strlit("4");
        reveal_strlit("5");
        reveal_strlit("6");
        reveal_strlit("7");
        reveal_strlit("8");
        reveal_strlit("9");
    }
    let s = if d == 0 {
        "0"
    } else if d == 1 {
        "1"
    } else if d == 2 {
        "2"
    } else if d == 3 {
        "3"
    } else if d == 4 {
        "4"
    } else if d == 5 {
        "5"
    } else if d == 6 {
        "6"
    } else if d == 7 {
        "7"
    } else if d == 8 {
        "8"
    } else {
        "9"
    };
    assert(s@ =~= seq![digit_char(d as nat)]);
    s
}

/// Writes `n` in decimal, as a JSON number.
pub fn decimal(n: u64) -> (text: String)
    ensures
        text@ == decimal_text(n as nat),
    decreases n,
{
    if n < 10 {
        digit_str(n).to_owned()
    } else {
        let mut text = decimal(n / 10);
        text.append(digit_str(n % 10));
        assert(text@ =~= decimal_text((n / 10) as nat).push(digit_char((n % 10) as nat)));
        text
    }
}

} // verus!
