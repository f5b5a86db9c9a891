//! Reading the bearer token out of an `Authorization` header value.

use vstd::prelude::*;
use vstd::string::*;
use crate::model::{is_header_safe, AccessToken};

verus! {

/// Whether a character may stand in a header value that is text: printable
/// ASCII, a space or a tab.
pub open spec fn is_visible(c: char) -> bool {
    (' ' <= c && c <= '~') || c == '\t'
}

pub open spec fn is_blank(c: char) -> bool {
    c == ' ' || c == '\t'
}

/// Whether the value opens with the scheme `Bearer`, in any mix of upper and
/// lower case, and one space.
pub open spec fn has_bearer_scheme(header: Seq<char>) -> bool {
    &&& header.len() > 6
    &&& (header[0] == 'B' || header[0] == 'b')
    &&& (header[1] == 'E' || header[1] == 'e')
    &&& (header[2] == 'A' || header[2] == 'a')
    &&& (header[3] == 'R' || header[3] == 'r')
    &&& (header[4] == 'E' || header[4] == 'e')
    &&& (header[5] == 'R' || header[5] == 'r')
    &&& header[6] == ' '
}

pub open spec fn all_visible(header: Seq<char>) -> bool {
    forall|i: int| 0 <= i < header.len() ==> is_visible(#[trigger] header[i])
}

/// The first position at or after `from` that holds no blank, or the length
/// of the text where only blanks follow.
pub open spec fn skip_blanks(text: Seq<char>, from: int) -> int
    decreases text.len() - from,
{
    if 0 <= from < text.len() && is_blank(text[from]) {
        skip_blanks(text, from + 1)
    } else {
        from
    }
}

/// The token that a header value presents: what follows `Bearer ` and any
/// further blanks, where the value is visible text under that scheme.
pub open spec fn bearer_payload(header: Seq<char>) -> Option<Seq<char>> {
    if has_bearer_scheme(header) && all_visible(header) {
        Some(header.subrange(skip_blanks(header, 7), header.len() as int))
    } else {
        None
    }
}

/// The header value that presents `token` under the bearer scheme.
pub open spec fn bearer_header(token: Seq<char>) -> Seq<char> {
    "Bearer "@ + token
}

pub open spec fn token_view(token: Option<AccessToken>) -> Option<Seq<char>> {
    match token {
        Some(t) => Some(t@),
        None => None,
    }
}

fn is_visible_byte(b: u8) -> (visible: bool)
    ensures
        visible == is_visible(b as char),
{
    (32 <= b && b <= 126) || b == 9
}

fn matches_letter(b: u8, upper: u8, lower: u8) -> (same: bool)
    ensures
        same == (b == upper || b == lower),
{
    b == upper || b == lower
}

/// Extracts the bearer token from the value of an `Authorization` header.
/// A value under another scheme, or one that is not visible text, presents
/// none.
pub fn bearer_token(header: &str) -> (token: Option<AccessToken>)
    ensures
        token_view(token) == bearer_payload(header@),
{
    if !header.is_ascii() {
        proof {
            let i = choose|i: int| 0 <= i < header@.len() && !('\0' <= #[trigger] header@[i] <= '\u{7f}');
            assert(!is_visible(header@[i]));
        }
        return None;
    }
    let n: usize = header.as_bytes().len();
    assert(n == header@.len()) by {
        is_ascii_spec_bytes(header);
    }
    let mut i: usize = 0;
    while i < n
        invariant
            i <= n,
            n == header@.len(),
            header.is_ascii(),
            forall|k: int| 0 <= k < i ==> is_visible(#[trigger] header@[k]),
        decreases n - i,
    {
        let b: u8 = header.get_ascii(i);
        assert(header@[i as int] == b as char);
        if !is_visible_byte(b) {
            return None;
        }
        i = i + 1;
    }
    if n <= 6 {
        return None;
    }
    let scheme: bool = matches_letter(header.get_ascii(0), 66, 98)
        && matches_letter(header.get_ascii(1), 69, 101)
        && matches_letter(header.get_ascii(2), 65, 97)
        && matches_letter(header.get_ascii(3), 82, 114)
        && matches_letter(header.get_ascii(4), 69, 101)
        && matches_letter(header.get_ascii(5), 82, 114)
        && header.get_ascii(6) == 32;
    assert(scheme == has_bearer_scheme(header@)) by {
        assert(forall|k: int| 0 <= k < 7 ==> '\0' <= #[trigger] header@[k] <= '\u{7f}');
    }
    if !scheme {
        return None;
    }
    let mut start: usize = 7;
    while start < n && (header.get_ascii(start) == 32 || header.get_ascii(start) == 9)
        invariant
            7 <= start <= n,
            n == header@.len(),
            header.is_ascii(),
            skip_blanks(header@, 7) == skip_blanks(header@, start as int),
        decreases n - start,
    {
        assert(is_blank(header@[start as int])) by {
            assert('\0' <= header@[start as int] <= '\u{7f}');
        }
        start = start + 1;
    }
    assert(skip_blanks(header@, start as int) == start) by {
        if start < n {
            assert('\0' <= header@[start as int] <= '\u{7f}');
        }
    }
    let rest = header.substring_ascii(start, n);
    Some(AccessToken(rest.to_owned()))
}

/// A token that is safe in a header comes back unchanged from the header
/// that presents it.
pub proof fn bearer_round_trip(token: Seq<char>)
    requires
        is_header_safe(token),
    ensures
        bearer_payload(bearer_header(token)) == Some(token),
{
    reveal_strlit("Bearer ");
    let header = bearer_header(token);
    assert(header.len() == 7 + token.len());
    assert forall|i: int| 0 <= i < header.len() implies is_visible(#[trigger] header[i]) by {
        if i >= 7 {
            assert(header[i] == token[i - 7]);
        }
    }
    assert(header[7] == token[0]);
    assert(skip_blanks(header, 7) == 7);
    assert(header.subrange(7, header.len() as int) =~= token);
}

} // verus!
