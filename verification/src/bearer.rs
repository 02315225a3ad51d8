//! Reading a bearer token out of the value of an `Authorization` header.

use vstd::prelude::*;
use vstd::string::StringSliceAdditionalSpecFns;

verus! {

/// A character that may occur in the text of a header value: visible ASCII,
/// a space or a tab.
pub open spec fn is_header_char(c: char) -> bool {
    (' ' <= c && c <= '~') || c == '\t'
}

/// Whether every character of `v` may occur in a header value.
pub open spec fn is_header_text(v: Seq<char>) -> bool {
    forall|i: int| 0 <= i < v.len() ==> is_header_char(#[trigger] v[i])
}

/// Whether `v` begins with the scheme `Bearer`, in any mix of upper and lower
/// case, followed by a space.
pub open spec fn has_bearer_scheme(v: Seq<char>) -> bool {
    &&& v.len() > 6
    &&& (v[0] == 'B' || v[0] == 'b')
    &&& (v[1] == 'E' || v[1] == 'e')
    &&& (v[2] == 'A' || v[2] == 'a')
    &&& (v[3] == 'R' || v[3] == 'r')
    &&& (v[4] == 'E' || v[4] == 'e')
    &&& (v[5] == 'R' || v[5] == 'r')
    &&& v[6] == ' '
}

/// `v` without its leading spaces and tabs.
pub open spec fn skip_blanks(v: Seq<char>) -> Seq<char>
    decreases v.len(),
{
    if v.len() > 0 && (v[0] == ' ' || v[0] == '\t') {
        skip_blanks(v.drop_first())
    } else {
        v
    }
}

/// The credentials of a header value of scheme `Bearer`: what follows the
/// scheme and its space, without leading blanks. `None` for any other value.
pub open spec fn bearer_credentials(v: Seq<char>) -> Option<Seq<char>> {
    if is_header_text(v) && has_bearer_scheme(v) {
        Some(skip_blanks(v.skip(7)))
    } else {
        None
    }
}

/// The number of characters of an ASCII string.
fn text_len(value: &str) -> (n: usize)
    requires
        value.is_ascii(),
    ensures
        n == value@.len(),
{
    broadcast use vstd::slice::group_slice_axioms;

    proof {
        vstd::string::is_ascii_spec_bytes(value);
        assert(value.spec_bytes().len() == value@.len());
    }
    value.as_bytes().len()
}

/// A character that may occur in a compact token: a letter, a digit, a
/// hyphen, an underscore or a dot.
pub open spec fn is_token_char(c: char) -> bool {
    ('A' <= c && c <= 'Z') || ('a' <= c && c <= 'z') || ('0' <= c && c <= '9') || c == '-' || c
        == '_' || c == '.'
}

/// Whether every character of `t` may occur in a compact token.
pub open spec fn is_token_text(t: Seq<char>) -> bool {
    forall|i: int| 0 <= i < t.len() ==> is_token_char(#[trigger] t[i])
}

/// A header value made of `Bearer`, a space and token text carries exactly
/// that token.
pub proof fn lemma_bearer_header_carries_token(t: Seq<char>)
    requires
        is_token_text(t),
    ensures
        bearer_credentials("Bearer "@ + t) == Some(t),
{
    reveal_strlit("Bearer ");
    let v = "Bearer "@ + t;
    assert forall|i: int| 0 <= i < v.len() implies is_header_char(#[trigger] v[i]) by {
        if i >= 7 {
            assert(v[i] == t[i - 7]);
            assert(is_token_char(t[i - 7]));
        }
    }
    assert(v.skip(7) =~= t);
    if t.len() > 0 {
        assert(is_token_char(t[0]));
    }
}

/// Whether all of `value` is header text.
fn check_header_text(value: &str) -> (ok: bool)
    requires
        value.is_ascii(),
    ensures
        ok == is_header_text(value@),
{
    let n = text_len(value);
    let mut i: usize = 0;
    while i < n
        invariant
            value.is_ascii(),
            n == value@.len(),
            i <= n,
            forall|j: int| 0 <= j < i ==> is_header_char(#[trigger] value@[j]),
        decreases n - i,
    {
        let b = value.get_ascii(i);
        if !((32 <= b && b <= 126) || b == 9) {
            assert(!is_header_char(value@[i as int]));
            return false;
        }
        i += 1;
    }
    true
}

/// Finds the bearer token in the value of an `Authorization` header.
///
/// The value must be header text that starts with `Bearer` (in any case) and
/// a space; the token is the rest, without leading blanks. It may be empty.
pub fn bearer_token(value: &str) -> (r: Option<&str>)
    ensures
        match r {
            Some(t) => bearer_credentials(value@) == Some(t@),
            None => bearer_credentials(value@) is None,
        },
{
    if !value.is_ascii() {
        return None;
    }
    if !check_header_text(value) {
        return None;
    }
    let n = text_len(value);
    if n <= 6 {
        return None;
    }
    let b0 = value.get_ascii(0);
    let b1 = value.get_ascii(1);
    let b2 = value.get_ascii(2);
    let b3 = value.get_ascii(3);
    let b4 = value.get_ascii(4);
    let b5 = value.get_ascii(5);
    let b6 = value.get_ascii(6);
    if !((b0 == 66 || b0 == 98) && (b1 == 69 || b1 == 101) && (b2 == 65 || b2 == 97) && (b3 == 82
        || b3 == 114) && (b4 == 69 || b4 == 101) && (b5 == 82 || b5 == 114) && b6 == 32) {
        return None;
    }
    let mut i: usize = 7;
    assert(value@.skip(7) =~= value@.subrange(7, n as int));
    while i < n && (value.get_ascii(i) == 32 || value.get_ascii(i) == 9)
        invariant
            value.is_ascii(),
            n == value@.len(),
            7 <= i <= n,
            skip_blanks(value@.skip(7)) == skip_blanks(value@.subrange(i as int, n as int)),
        decreases n - i,
    {
        assert(value@.subrange(i as int, n as int).drop_first() =~= value@.subrange(
            i + 1,
            n as int,
        ));
        i += 1;
    }
    Some(value.substring_ascii(i, n))
}

} // verus!
