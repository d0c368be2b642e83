//! Character-level text handling: the tag and filename sanitizers and the
//! decimal rendering used by the embed fragment.
//!
//! The sanitizers classify characters with Unicode's alphanumeric and
//! whitespace properties and lowercase with Unicode case mapping, exactly as
//! std defines them; those three results are named here and never restated.

use vstd::prelude::*;
use vstd::string::StrSliceExecFns;

verus! {

pub uninterp spec fn char_alphanumeric(c: char) -> bool;

pub uninterp spec fn char_whitespace(c: char) -> bool;

pub uninterp spec fn lower_of(s: Seq<char>) -> Seq<char>;

/// Relies on `char::is_alphanumeric`: deterministic per character. The path
/// and quoting characters listed below have neither the Alphabetic property
/// nor a Numeric one, so they are never classified as alphanumeric.
#[verifier::external_body]
fn is_alphanumeric_char(c: char) -> (r: bool)
    ensures
        r == char_alphanumeric(c),
        c == '/' || c == '\\' || c == '.' ==> !r,
{
    c.is_alphanumeric()
}

/// Relies on `char::is_whitespace`: deterministic per character. The path
/// and quoting characters listed below do not have the White_Space property.
#[verifier::external_body]
fn is_whitespace_char(c: char) -> (r: bool)
    ensures
        r == char_whitespace(c),
        c == '/' || c == '\\' || c == '.' ==> !r,
{
    c.is_whitespace()
}

/// Relies on `str::to_lowercase`: the result depends on the characters
/// alone.
#[verifier::external_body]
fn lowercase(s: &str) -> (r: String)
    ensures
        r@ == lower_of(s@),
{
    s.to_lowercase()
}

/// What the tag sanitizer substitutes for a single kept character:
/// punctuation and the space become a hyphen, everything else stays.
pub open spec fn tag_char(c: char) -> char {
    if !(char_alphanumeric(c) || char_whitespace(c)) {
        '-'
    } else if c == ' ' {
        '-'
    } else {
        c
    }
}

/// The stripping and substitution stage of the tag sanitizer: apostrophes
/// dropped, every other character passed through `tag_char`.
pub open spec fn spec_hyphenate_tag(t: Seq<char>) -> Seq<char>
    decreases t.len(),
{
    if t.len() == 0 {
        Seq::empty()
    } else if t.last() == '\'' {
        spec_hyphenate_tag(t.drop_last())
    } else {
        spec_hyphenate_tag(t.drop_last()).push(tag_char(t.last()))
    }
}

/// The sanitized form of a tag: stripped, hyphenated, then lowercased.
pub open spec fn spec_sanitize_tag(t: Seq<char>) -> Seq<char> {
    lower_of(spec_hyphenate_tag(t))
}

/// A character the filename sanitizer keeps.
pub open spec fn keeps_filename_char(c: char) -> bool {
    char_alphanumeric(c) || char_whitespace(c) || c == '-'
}

/// The sanitized form of a title: only alphanumerics, whitespace and
/// hyphens survive.
pub open spec fn spec_sanitize_filename(t: Seq<char>) -> Seq<char>
    decreases t.len(),
{
    if t.len() == 0 {
        Seq::empty()
    } else if keeps_filename_char(t.last()) {
        spec_sanitize_filename(t.drop_last()).push(t.last())
    } else {
        spec_sanitize_filename(t.drop_last())
    }
}

/// Relies on `String`'s `FromIterator` over `char`: the collected string
/// holds exactly the characters of the vector, in order.
#[verifier::external_body]
fn chars_to_string(v: &Vec<char>) -> (r: String)
    ensures
        r@ == v@,
{
    v.iter().collect()
}

/// An ASCII decimal digit.
pub open spec fn is_digit_char(c: char) -> bool {
    '0' as u32 <= c as u32 <= '9' as u32
}

/// Character-by-character string equality, proved against the views.
pub fn str_eq(a: &str, b: &str) -> (r: bool)
    ensures
        r == (a@ == b@),
{
    let a_len: usize = a.unicode_len();
    let b_len: usize = b.unicode_len();
    if a_len != b_len {
        assert(a@.len() != b@.len());
        return false;
    }
    let mut i: usize = 0;
    while i < a_len
        invariant
            a_len == a@.len(),
            b_len == b@.len(),
            a_len == b_len,
            i <= a_len,
            forall|j: int| 0 <= j < i ==> a@[j] == b@[j],
        decreases a_len - i,
    {
        if a.get_char(i) != b.get_char(i) {
            assert(a@ != b@);
            return false;
        }
        i += 1;
    }
    assert(a@ =~= b@);
    true
}

/// Strips apostrophes, replaces every character that is neither alphanumeric
/// nor whitespace with a hyphen, turns spaces into hyphens, and lowercases.
pub fn sanitize_tag(tag: &str) -> (r: String)
    ensures
        r@ == spec_sanitize_tag(tag@),
{
    let len: usize = tag.unicode_len();
    let mut out: Vec<char> = Vec::new();
    let mut i: usize = 0;
    while i < len
        invariant
            len == tag@.len(),
            i <= len,
            out@ == spec_hyphenate_tag(tag@.take(i as int)),
        decreases len - i,
    {
        let c = tag.get_char(i);
        if c != '\'' {
            if is_alphanumeric_char(c) || is_whitespace_char(c) {
                if c == ' ' {
                    out.push('-');
                } else {
                    out.push(c);
                }
            } else {
                out.push('-');
            }
        }
        proof {
            assert(tag@.take(i + 1).drop_last() =~= tag@.take(i as int));
            assert(tag@.take(i + 1).last() == tag@[i as int]);
        }
        i += 1;
    }
    proof {
        assert(tag@.take(len as int) =~= tag@);
    }
    let hyphenated = chars_to_string(&out);
    lowercase(hyphenated.as_str())
}

/// Keeps only alphanumerics, whitespace and hyphens of a title, so that the
/// result is a safe file stem: it can hold no path separator and no dot.
pub fn sanitize_filename(title: &str) -> (r: String)
    ensures
        r@ == spec_sanitize_filename(title@),
        forall|i: int|
            0 <= i < r@.len() ==> r@[i] != '/' && r@[i] != '\\' && r@[i] != '.',
{
    let len: usize = title.unicode_len();
    let mut out: Vec<char> = Vec::new();
    let mut i: usize = 0;
    while i < len
        invariant
            len == title@.len(),
            i <= len,
            out@ == spec_sanitize_filename(title@.take(i as int)),
            forall|j: int| 0 <= j < out@.len() ==> out@[j] != '/' && out@[j] != '\\' && out@[j]
                != '.',
        decreases len - i,
    {
        let c = title.get_char(i);
        if is_alphanumeric_char(c) || is_whitespace_char(c) || c == '-' {
            out.push(c);
        }
        proof {
            assert(title@.take(i + 1).drop_last() =~= title@.take(i as int));
            assert(title@.take(i + 1).last() == title@[i as int]);
        }
        i += 1;
    }
    proof {
        assert(title@.take(len as int) =~= title@);
    }
    chars_to_string(&out)
}

/// A character the substitution stage can emit: a second pass leaves it
/// alone.
pub open spec fn is_hyphenated_char(c: char) -> bool {
    c != '\'' && tag_char(c) == c
}

proof fn lemma_tag_char_hyphenated(c: char)
    requires
        c != '\'',
    ensures
        is_hyphenated_char(tag_char(c)),
{
}

proof fn lemma_hyphenate_tag_chars_hyphenated(t: Seq<char>)
    ensures
        forall|i: int|
            0 <= i < spec_hyphenate_tag(t).len() ==> #[trigger] is_hyphenated_char(
                spec_hyphenate_tag(t)[i],
            ),
    decreases t.len(),
{
    if t.len() > 0 {
        lemma_hyphenate_tag_chars_hyphenated(t.drop_last());
        let prev = spec_hyphenate_tag(t.drop_last());
        if t.last() != '\'' {
            lemma_tag_char_hyphenated(t.last());
            assert forall|i: int| 0 <= i < spec_hyphenate_tag(t).len() implies #[trigger]
                is_hyphenated_char(spec_hyphenate_tag(t)[i]) by {
                if i < prev.len() {
                    assert(spec_hyphenate_tag(t)[i] == prev[i]);
                } else {
                    assert(spec_hyphenate_tag(t)[i] == tag_char(t.last()));
                }
            }
        }
    }
}

proof fn lemma_hyphenate_tag_fixed(t: Seq<char>)
    requires
        forall|i: int| 0 <= i < t.len() ==> #[trigger] is_hyphenated_char(t[i]),
    ensures
        spec_hyphenate_tag(t) == t,
    decreases t.len(),
{
    if t.len() > 0 {
        lemma_hyphenate_tag_fixed(t.drop_last());
        assert(is_hyphenated_char(t.last()));
        assert(spec_hyphenate_tag(t) =~= t);
    } else {
        assert(spec_hyphenate_tag(t) =~= t);
    }
}

/// A second pass of the stripping and substitution stage changes nothing.
/// Idempotence of the whole sanitizer would further need lowercasing never
/// to introduce a character outside the kept alphabet, which Unicode case
/// mapping does not grant: a dotted capital I lowercases to a plain i
/// followed by a combining mark, and the mark hyphenates on a second pass.
pub proof fn lemma_hyphenate_tag_idempotent(t: Seq<char>)
    ensures
        spec_hyphenate_tag(spec_hyphenate_tag(t)) == spec_hyphenate_tag(t),
{
    lemma_hyphenate_tag_chars_hyphenated(t);
    lemma_hyphenate_tag_fixed(spec_hyphenate_tag(t));
}

/// The decimal digit for a value below ten.
pub open spec fn digit_char(d: nat) -> char
    recommends
        d < 10,
{
    ((d + 48) as u8) as char
}

/// The decimal rendering of a number, most significant digit first.
pub open spec fn spec_decimal(n: nat) -> Seq<char>
    decreases n,
{
    if n < 10 {
        seq![digit_char(n)]
    } else {
        spec_decimal(n / 10).push(digit_char(n % 10))
    }
}

fn digit_to_char(d: usize) -> (r: char)
    requires
        d < 10,
    ensures
        r == digit_char(d as nat),
{
    ((d as u8) + 48) as char
}

/// Renders a number in decimal, proved against `spec_decimal`.
pub fn usize_to_string(n: usize) -> (r: String)
    ensures
        r@ == spec_decimal(n as nat),
{
    if n < 10 {
        let mut out: Vec<char> = Vec::new();
        out.push(digit_to_char(n));
        return chars_to_string(&out);
    }
    let mut rev: Vec<char> = Vec::new();
    let mut m: usize = n;
    while m > 0
        invariant
            m > 0 ==> spec_decimal(n as nat) =~= spec_decimal(m as nat) + rev@.reverse(),
            m == 0 ==> spec_decimal(n as nat) =~= rev@.reverse(),
        decreases m,
    {
        let d: usize = m % 10;
        let ghost old_rev = rev@;
        rev.push(digit_to_char(d));
        proof {
            assert(rev@.reverse() =~= seq![digit_char(d as nat)] + old_rev.reverse());
            if m >= 10 {
                assert(spec_decimal(m as nat) == spec_decimal((m as nat) / 10).push(
                    digit_char((m as nat) % 10),
                ));
                assert(spec_decimal((m as nat) / 10).push(digit_char((m as nat) % 10))
                    + old_rev.reverse() =~= spec_decimal((m as nat) / 10) + (seq![
                    digit_char((m as nat) % 10),
                ] + old_rev.reverse()));
            } else {
                assert(spec_decimal(m as nat) =~= seq![digit_char(d as nat)]);
            }
            assert((m as nat) / 10 == (m / 10) as nat);
        }
        m = m / 10;
    }
    let mut out: Vec<char> = Vec::new();
    let count: usize = rev.len();
    let mut j: usize = 0;
    while j < count
        invariant
            count == rev@.len(),
            j <= count,
            out@ =~= rev@.reverse().take(j as int),
        decreases count - j,
    {
        out.push(rev[count - 1 - j]);
        proof {
            assert(rev@.reverse().take(j + 1) =~= rev@.reverse().take(j as int).push(
                rev@[count - 1 - j],
            ));
        }
        j += 1;
    }
    proof {
        assert(rev@.reverse().take(count as int) =~= rev@.reverse());
    }
    chars_to_string(&out)
}

} // verus!
