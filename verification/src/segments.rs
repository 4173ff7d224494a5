//! The dotted layout of a compact token: segments of base64url text, joined
//! by single dots.

use crate::codec::{is_base64url, is_base64url_char};
use vstd::prelude::*;

verus! {

/// A segment of a token: base64url text, and not empty.
pub open spec fn is_segment(s: Seq<char>) -> bool {
    s.len() > 0 && is_base64url(s)
}

/// The number of `.` characters in `s`.
pub open spec fn dot_count(s: Seq<char>) -> nat
    decreases s.len(),
{
    if s.len() == 0 {
        0
    } else {
        dot_count(s.drop_last()) + if s.last() == '.' {
            1nat
        } else {
            0nat
        }
    }
}

/// The token: the signing input, a `.`, and the signature.
pub open spec fn token_text(signing_input: Seq<char>, signature: Seq<char>) -> Seq<char> {
    signing_input + seq!['.'] + signature
}

/// The dots of a concatenation are the dots of its parts.
pub proof fn lemma_dot_count_concat(a: Seq<char>, b: Seq<char>)
    ensures
        dot_count(a + b) == dot_count(a) + dot_count(b),
    decreases b.len(),
{
    if b.len() == 0 {
        assert(a + b =~= a);
    } else {
        assert((a + b).drop_last() =~= a + b.drop_last());
        lemma_dot_count_concat(a, b.drop_last());
    }
}

/// Base64url text holds no dot.
pub proof fn lemma_base64url_has_no_dot(s: Seq<char>)
    requires
        is_base64url(s),
    ensures
        dot_count(s) == 0,
    decreases s.len(),
{
    if s.len() > 0 {
        assert(is_base64url_char(s.last()));
        lemma_base64url_has_no_dot(s.drop_last());
    }
}

/// The segments of `s`: the texts between its dots, in order. A text
/// without a dot is one segment.
pub open spec fn segments_of(s: Seq<char>) -> Seq<Seq<char>>
    decreases s.len(),
{
    if s.len() == 0 {
        seq![Seq::<char>::empty()]
    } else {
        let before = segments_of(s.drop_last());
        if s.last() == '.' {
            before.push(Seq::<char>::empty())
        } else {
            before.drop_last().push(before.last().push(s.last()))
        }
    }
}

/// A text has one segment more than it has dots.
pub proof fn lemma_segments_count(s: Seq<char>)
    ensures
        segments_of(s).len() == dot_count(s) + 1,
    decreases s.len(),
{
    if s.len() > 0 {
        lemma_segments_count(s.drop_last());
    }
}

/// Appending text without a dot lengthens the last segment and leaves the
/// others as they are.
pub proof fn lemma_segments_grow(s: Seq<char>, tail: Seq<char>)
    requires
        is_base64url(tail),
    ensures
        segments_of(s + tail) == segments_of(s).drop_last().push(segments_of(s).last() + tail),
    decreases tail.len(),
{
    lemma_segments_count(s);
    if tail.len() == 0 {
        assert(s + tail =~= s);
        assert(segments_of(s).last() + tail =~= segments_of(s).last());
        assert(segments_of(s).drop_last().push(segments_of(s).last()) =~= segments_of(s));
    } else {
        let shorter = tail.drop_last();
        assert(is_base64url_char(tail.last()));
        assert((s + tail).drop_last() =~= s + shorter);
        lemma_segments_grow(s, shorter);
        let before = segments_of(s + shorter);
        assert(before.last().push(tail.last()) =~= segments_of(s).last() + tail);
        assert(before.drop_last() =~= segments_of(s).drop_last());
    }
}

/// A signature that is appended after a dot becomes the last segment, and
/// the segments before it stay as they are.
pub proof fn lemma_segments_append(signing_input: Seq<char>, signature: Seq<char>)
    requires
        is_base64url(signature),
    ensures
        segments_of(token_text(signing_input, signature)) == segments_of(signing_input).push(
            signature,
        ),
        dot_count(token_text(signing_input, signature)) == dot_count(signing_input) + 1,
{
    let dot = seq!['.'];
    let empty = Seq::<char>::empty();
    assert((signing_input + dot).drop_last() =~= signing_input);
    assert(segments_of(signing_input + dot) =~= segments_of(signing_input).push(empty));
    lemma_segments_grow(signing_input + dot, signature);
    assert(empty + signature =~= signature);
    assert(segments_of(signing_input).push(empty).drop_last() =~= segments_of(signing_input));
    lemma_base64url_has_no_dot(signature);
    assert(dot.drop_last() =~= empty);
    assert(dot_count(dot.drop_last()) == 0);
    lemma_dot_count_concat(signing_input, dot);
    lemma_dot_count_concat(signing_input + dot, signature);
}

/// Three base64url segments joined by dots hold exactly two dots, and are
/// the segments of the whole.
pub proof fn lemma_three_segments(header: Seq<char>, claims: Seq<char>, signature: Seq<char>)
    requires
        is_base64url(header),
        is_base64url(claims),
        is_base64url(signature),
    ensures
        dot_count(header + seq!['.'] + claims) == 1,
        segments_of(header + seq!['.'] + claims) == seq![header, claims],
        dot_count(token_text(header + seq!['.'] + claims, signature)) == 2,
        segments_of(token_text(header + seq!['.'] + claims, signature)) == seq![
            header,
            claims,
            signature,
        ],
{
    let empty = Seq::<char>::empty();
    lemma_base64url_has_no_dot(header);
    lemma_segments_grow(empty, header);
    assert(empty + header =~= header);
    assert(segments_of(header) =~= seq![header]);
    lemma_segments_append(header, claims);
    assert(segments_of(header + seq!['.'] + claims) =~= seq![header, claims]);
    lemma_segments_append(header + seq!['.'] + claims, signature);
    assert(segments_of(token_text(header + seq!['.'] + claims, signature)) =~= seq![
        header,
        claims,
        signature,
    ]);
}

} // verus!
