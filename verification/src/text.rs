//! Text of a capture: trimming on capture and shortening for display.

use vstd::prelude::*;
use vstd::string::*;

verus! {

/// The most characters of a text that a queue listing shows.
pub const MAX_TEXT: usize = 150;

/// Whether `c` is white space in the sense of `char::is_whitespace`, that is,
/// has the Unicode property White_Space.
pub uninterp spec fn is_white_space(c: char) -> bool;

/// Number of white-space characters that `s` starts with.
pub open spec fn leading_white_space(s: Seq<char>) -> nat
    decreases s.len(),
{
    if s.len() > 0 && is_white_space(s.first()) {
        1 + leading_white_space(s.drop_first())
    } else {
        0
    }
}

/// Number of white-space characters that `s` ends with.
pub open spec fn trailing_white_space(s: Seq<char>) -> nat
    decreases s.len(),
{
    if s.len() > 0 && is_white_space(s.last()) {
        1 + trailing_white_space(s.drop_last())
    } else {
        0
    }
}

/// `s` without the white space at its start and at its end.
pub open spec fn trimmed(s: Seq<char>) -> Seq<char> {
    let rest = s.skip(leading_white_space(s) as int);
    rest.take(rest.len() - trailing_white_space(rest))
}

/// What is left behind the leading white space of `s` is empty or starts
/// with a character that is no white space.
pub proof fn lemma_leading_stops(s: Seq<char>)
    ensures
        leading_white_space(s) <= s.len(),
        leading_white_space(s) < s.len() ==> !is_white_space(s[leading_white_space(s) as int]),
    decreases s.len(),
{
    if s.len() > 0 && is_white_space(s.first()) {
        lemma_leading_stops(s.drop_first());
    }
}

/// What is left before the trailing white space of `s` is empty or ends
/// with a character that is no white space.
pub proof fn lemma_trailing_stops(s: Seq<char>)
    ensures
        trailing_white_space(s) <= s.len(),
        trailing_white_space(s) < s.len() ==> !is_white_space(
            s[s.len() - trailing_white_space(s) - 1],
        ),
    decreases s.len(),
{
    if s.len() > 0 && is_white_space(s.last()) {
        lemma_trailing_stops(s.drop_last());
    }
}

/// A text that starts with a character that is no white space keeps that
/// character when its trailing white space is cut off.
proof fn lemma_trailing_spares_first(s: Seq<char>)
    requires
        s.len() > 0,
        !is_white_space(s.first()),
    ensures
        trailing_white_space(s) < s.len(),
    decreases s.len(),
{
    if is_white_space(s.last()) {
        assert(s.len() > 1);
        assert(s.drop_last().first() == s.first());
        lemma_trailing_spares_first(s.drop_last());
    }
}

/// A trimmed text neither starts nor ends with white space.
pub proof fn lemma_trimmed_has_no_margin(s: Seq<char>)
    ensures
        trimmed(s).len() <= s.len(),
        trimmed(s).len() > 0 ==> !is_white_space(trimmed(s).first()) && !is_white_space(
            trimmed(s).last(),
        ),
{
    lemma_leading_stops(s);
    let rest = s.skip(leading_white_space(s) as int);
    lemma_trailing_stops(rest);
    if rest.len() > 0 {
        assert(rest.first() == s[leading_white_space(s) as int]);
        lemma_trailing_spares_first(rest);
    }
}

/// Trimming twice is trimming once: a trimmed text is its own trimmed form.
pub proof fn lemma_trimmed_is_idempotent(s: Seq<char>)
    ensures
        trimmed(trimmed(s)) == trimmed(s),
{
    let t = trimmed(s);
    lemma_trimmed_has_no_margin(s);
    if t.len() > 0 {
        assert(leading_white_space(t) == 0);
        assert(t.skip(0) =~= t);
        assert(trailing_white_space(t) == 0);
        assert(t.take(t.len() as int) =~= t);
    } else {
        assert(t =~= Seq::<char>::empty());
        lemma_trimmed_empty();
    }
}

/// A text without white space at either end is left as it is.
pub proof fn lemma_trimmed_keeps_clean_text(s: Seq<char>)
    requires
        s.len() > 0 ==> !is_white_space(s.first()) && !is_white_space(s.last()),
    ensures
        trimmed(s) == s,
{
    if s.len() > 0 {
        assert(s.skip(0) =~= s);
        assert(s.take(s.len() as int) =~= s);
    } else {
        assert(s =~= Seq::<char>::empty());
        lemma_trimmed_empty();
    }
}

/// Trimming the empty text leaves it empty.
pub proof fn lemma_trimmed_empty()
    ensures
        trimmed(Seq::<char>::empty()) == Seq::<char>::empty(),
{
    assert(trimmed(Seq::<char>::empty()) =~= Seq::<char>::empty());
}

/// Calls `str::trim`. Trusted: the slice returned is `s` without its leading
/// and trailing white space, where white space is what `char::is_whitespace`
/// accepts. That what is left neither starts nor ends with white space is
/// said again for the reader; it follows from the first clause by
/// [`lemma_trimmed_has_no_margin`].
#[verifier::external_body]
fn trim_str(s: &str) -> (r: &str)
    ensures
        r@ == trimmed(s@),
        r@.len() > 0 ==> !is_white_space(r@.first()) && !is_white_space(r@.last()),
{
    s.trim()
}

/// The text of a capture as it is stored: without surrounding white space.
pub fn trim_text(text: &str) -> (stored: String)
    ensures
        stored@ == trimmed(text@),
{
    String::from_str(trim_str(text))
}

/// What a queue listing shows of a text whose UTF-8 form takes `byte_len`
/// bytes: its first 150 characters, followed by three dots where the text is
/// longer than 150 bytes.
pub open spec fn display_of(text: Seq<char>, byte_len: nat) -> Seq<char> {
    let head = if text.len() > 150 {
        text.take(150)
    } else {
        text
    };
    if byte_len > 150 {
        head + seq!['.', '.', '.']
    } else {
        head
    }
}

/// Shortens a text for a queue listing.
pub fn display_text(text: &str) -> (shown: String)
    ensures
        shown@ == display_of(text@, text.spec_bytes().len()),
{
    let count = text.unicode_len();
    let head: &str = if count > MAX_TEXT {
        text.substring_char(0, MAX_TEXT)
    } else {
        text
    };
    let mut shown = String::from_str(head);
    let byte_len = text.as_bytes().len();
    if byte_len > MAX_TEXT {
        proof {
            reveal_strlit("...");
            assert("..."@ =~= seq!['.', '.', '.']);
        }
        shown.append("...");
    }
    shown
}

} // verus!
