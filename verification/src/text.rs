//! Character-level scanning over string views, the whitespace model used to
//! split a header into tokens, and the bridge from decoded bytes back to a
//! `String`.

use vstd::prelude::*;
use vstd::string::StrSliceExecFns;
use vstd::utf8::{decode_utf8, valid_utf8};

verus! {

/// The whitespace model: the Unicode `White_Space` set, the characters on
/// which `str::split_whitespace` splits a string into tokens.
pub open spec fn is_space(c: char) -> bool {
    ||| c == '\t'
    ||| c == '\n'
    ||| c == '\u{b}'
    ||| c == '\u{c}'
    ||| c == '\r'
    ||| c == ' '
    ||| c == '\u{85}'
    ||| c == '\u{a0}'
    ||| c == '\u{1680}'
    ||| '\u{2000}' <= c && c <= '\u{200a}'
    ||| c == '\u{2028}'
    ||| c == '\u{2029}'
    ||| c == '\u{202f}'
    ||| c == '\u{205f}'
    ||| c == '\u{3000}'
}

/// Index of the first character at or after `i` that satisfies `p`, or
/// `s.len()` when no such character exists.
pub open spec fn scan(s: Seq<char>, i: int, p: spec_fn(char) -> bool) -> int
    decreases s.len() - i
        when 0 <= i <= s.len()
{
    if i >= s.len() {
        s.len() as int
    } else if p(s[i]) {
        i
    } else {
        scan(s, i + 1, p)
    }
}

/// Picks the characters that are not whitespace: `scan` with this predicate
/// finds the start of the next token.
pub open spec fn non_space() -> spec_fn(char) -> bool {
    |c: char| !is_space(c)
}

/// Picks the whitespace characters: `scan` with this predicate finds the end
/// of the current token.
pub open spec fn space() -> spec_fn(char) -> bool {
    |c: char| is_space(c)
}

/// Picks the colon character, on which a payload splits into two segments.
pub open spec fn colon() -> spec_fn(char) -> bool {
    |c: char| c == ':'
}

/// A position with nothing satisfying `p` before it, and `p` holding at it
/// unless it is the length, is the result of `scan`.
pub proof fn lemma_scan_at(s: Seq<char>, i: int, p: spec_fn(char) -> bool, j: int)
    requires
        0 <= i <= j <= s.len(),
        forall|k: int| i <= k < j ==> !p(#[trigger] s[k]),
        j < s.len() ==> p(s[j]),
    ensures
        scan(s, i, p) == j,
    decreases j - i,
{
    if i < j {
        lemma_scan_at(s, i + 1, p, j);
    }
}

/// Decides the whitespace model.
pub fn space_char(c: char) -> (r: bool)
    ensures
        r == is_space(c),
{
    c == '\t' || c == '\n' || c == '\u{b}' || c == '\u{c}' || c == '\r' || c == ' '
        || c == '\u{85}' || c == '\u{a0}' || c == '\u{1680}'
        || ('\u{2000}' <= c && c <= '\u{200a}')
        || c == '\u{2028}' || c == '\u{2029}' || c == '\u{202f}' || c == '\u{205f}'
        || c == '\u{3000}'
}

/// First index at or after `from` holding a non-whitespace character, or the
/// length `n` of `s` when the rest is all whitespace.
pub fn find_non_space(s: &str, from: usize, n: usize) -> (r: usize)
    requires
        n == s@.len(),
        from <= n,
    ensures
        from <= r <= n,
        r == scan(s@, from as int, non_space()),
{
    let mut i: usize = from;
    while i < n && space_char(s.get_char(i))
        invariant
            from <= i <= n,
            n == s@.len(),
            forall|k: int| from <= k < i ==> is_space(#[trigger] s@[k]),
        decreases n - i,
    {
        i = i + 1;
    }
    proof {
        lemma_scan_at(s@, from as int, non_space(), i as int);
    }
    i
}

/// First index at or after `from` holding a whitespace character, or the
/// length `n` of `s` when the rest is all non-whitespace.
pub fn find_space(s: &str, from: usize, n: usize) -> (r: usize)
    requires
        n == s@.len(),
        from <= n,
    ensures
        from <= r <= n,
        r == scan(s@, from as int, space()),
{
    let mut i: usize = from;
    while i < n && !space_char(s.get_char(i))
        invariant
            from <= i <= n,
            n == s@.len(),
            forall|k: int| from <= k < i ==> !is_space(#[trigger] s@[k]),
        decreases n - i,
    {
        i = i + 1;
    }
    proof {
        lemma_scan_at(s@, from as int, space(), i as int);
    }
    i
}

/// First index at or after `from` holding a colon, or the length `n` of `s`
/// when the rest holds none.
pub fn find_colon(s: &str, from: usize, n: usize) -> (r: usize)
    requires
        n == s@.len(),
        from <= n,
    ensures
        from <= r <= n,
        r == scan(s@, from as int, colon()),
{
    let mut i: usize = from;
    while i < n && s.get_char(i) != ':'
        invariant
            from <= i <= n,
            n == s@.len(),
            forall|k: int| from <= k < i ==> #[trigger] s@[k] != ':',
        decreases n - i,
    {
        i = i + 1;
    }
    proof {
        lemma_scan_at(s@, from as int, colon(), i as int);
    }
    i
}

/// Relies on `String::from_utf8`: it succeeds exactly on the byte sequences
/// that are valid UTF-8, and decodes those to their character sequence.
#[verifier::external_body]
pub(crate) fn utf8_to_string(bytes: Vec<u8>) -> (r: Option<String>)
    ensures
        r is Some <==> valid_utf8(bytes@),
        r matches Some(s) ==> s@ == decode_utf8(bytes@),
{
    String::from_utf8(bytes).ok()
}

} // verus!
