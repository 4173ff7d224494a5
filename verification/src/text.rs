//! Building lines of text: runs of one character, and padding to a width
//! counted in characters.

use vstd::prelude::*;
use vstd::utf8::encode_utf8;

verus! {

/// The length of `s` in bytes of UTF-8, as a machine word.
pub open spec fn byte_len(s: Seq<char>) -> usize {
    encode_utf8(s).len() as usize
}

/// At most the first `limit` characters of `s`.
pub open spec fn truncated(s: Seq<char>, limit: nat) -> Seq<char> {
    if s.len() > limit {
        s.take(limit as int)
    } else {
        s
    }
}

/// `count` copies of `c`.
pub open spec fn run_of(c: char, count: nat) -> Seq<char> {
    Seq::new(count, |i: int| c)
}

/// The number of fill characters that bring `len` characters up to `width`.
pub open spec fn padding(len: nat, width: nat) -> nat {
    if width > len {
        (width - len) as nat
    } else {
        0
    }
}

/// `s` aligned to the left in a field of `width` characters, filled up with
/// spaces. A text longer than the field is left as it is.
pub open spec fn left_aligned(s: Seq<char>, width: nat) -> Seq<char> {
    s + run_of(' ', padding(s.len(), width))
}

/// `s` aligned to the right in a field of `width` characters.
pub open spec fn right_aligned(s: Seq<char>, width: nat) -> Seq<char> {
    run_of(' ', padding(s.len(), width)) + s
}

/// `s` centred in a field of `width` characters; where the fill is odd, the
/// larger half stands on the right.
pub open spec fn centred(s: Seq<char>, width: nat) -> Seq<char> {
    run_of(' ', padding(s.len(), width) / 2) + s + run_of(
        ' ',
        (padding(s.len(), width) - padding(s.len(), width) / 2) as nat,
    )
}

/// Appends `count` copies of the one character that `unit` holds.
pub fn append_run(out: &mut String, unit: &str, count: usize)
    requires
        unit@.len() == 1,
    ensures
        final(out)@ == old(out)@ + run_of(unit@[0], count as nat),
{
    let mut done: usize = 0;
    while done < count
        invariant
            unit@.len() == 1,
            done <= count,
            out@ == old(out)@ + run_of(unit@[0], done as nat),
        decreases count - done,
    {
        out.append(unit);
        done = done + 1;
        assert(out@ =~= old(out)@ + run_of(unit@[0], done as nat));
    }
}

/// `count` copies of the one character that `unit` holds.
pub fn run(unit: &str, count: usize) -> (text: String)
    requires
        unit@.len() == 1,
    ensures
        text@ == run_of(unit@[0], count as nat),
{
    let mut text = String::new();
    append_run(&mut text, unit, count);
    assert(text@ =~= run_of(unit@[0], count as nat));
    text
}

/// The number of spaces that `s` lacks to `width` characters.
fn fill_of(s: &str, width: usize) -> (fill: usize)
    ensures
        fill == padding(s@.len(), width as nat),
{
    let len = s.unicode_len();
    if width > len {
        width - len
    } else {
        0
    }
}

/// Aligns `s` to the left in a field of `width` characters.
pub fn pad_right(s: &str, width: usize) -> (text: String)
    ensures
        text@ == left_aligned(s@, width as nat),
{
    let fill = fill_of(s, width);
    let mut text = s.to_owned();
    proof {
        reveal_strlit(" ");
    }
    append_run(&mut text, " ", fill);
    text
}

/// Aligns `s` to the right in a field of `width` characters.
pub fn pad_left(s: &str, width: usize) -> (text: String)
    ensures
        text@ == right_aligned(s@, width as nat),
{
    let fill = fill_of(s, width);
    proof {
        reveal_strlit(" ");
    }
    let mut text = run(" ", fill);
    text.append(s);
    text
}

/// Cuts `s` down to its first character; an empty text stays empty.
pub fn first_char(s: &str) -> (text: &str)
    ensures
        text@ == truncated(s@, 1),
{
    if s.unicode_len() > 1 {
        s.substring_char(0, 1)
    } else {
        s
    }
}

/// Centres `s` in a field of `width` characters.
pub fn pad_both(s: &str, width: usize) -> (text: String)
    ensures
        text@ == centred(s@, width as nat),
{
    let fill = fill_of(s, width);
    let before = fill / 2;
    proof {
        reveal_strlit(" ");
    }
    let mut text = run(" ", before);
    text.append(s);
    append_run(&mut text, " ", fill - before);
    text
}

} // verus!
