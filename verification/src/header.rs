//! Parsing of `Authorization` header values of the shape `"Bearer <token>"`.
//!
//! The header is split on its first space; the part before it must equal
//! `"Bearer"` up to ASCII case, and the part after it, with leading and
//! trailing whitespace trimmed away, is the token. [`header_token`] is the
//! full specification of that extraction; the executable counterpart is
//! [`crate::AuthClient::validate`].

use vstd::prelude::*;

use crate::ascii::fold_code;

verus! {

/// A whitespace character: exactly the characters with the Unicode
/// `White_Space` property, the set that trimming removes.
pub open spec fn is_ws(c: char) -> bool {
    ||| c == '\u{0009}'
    ||| c == '\u{000A}'
    ||| c == '\u{000B}'
    ||| c == '\u{000C}'
    ||| c == '\u{000D}'
    ||| c == '\u{0020}'
    ||| c == '\u{0085}'
    ||| c == '\u{00A0}'
    ||| c == '\u{1680}'
    ||| c == '\u{2000}'
    ||| c == '\u{2001}'
    ||| c == '\u{2002}'
    ||| c == '\u{2003}'
    ||| c == '\u{2004}'
    ||| c == '\u{2005}'
    ||| c == '\u{2006}'
    ||| c == '\u{2007}'
    ||| c == '\u{2008}'
    ||| c == '\u{2009}'
    ||| c == '\u{200A}'
    ||| c == '\u{2028}'
    ||| c == '\u{2029}'
    ||| c == '\u{202F}'
    ||| c == '\u{205F}'
    ||| c == '\u{3000}'
}

/// Whether `c` is a whitespace character, as [`is_ws`] defines it.
pub fn ws_char(c: char) -> (r: bool)
    ensures
        r == is_ws(c),
{
    match c {
        '\u{0009}' | '\u{000A}' | '\u{000B}' | '\u{000C}' | '\u{000D}' | '\u{0020}'
        | '\u{0085}' | '\u{00A0}' | '\u{1680}' | '\u{2000}' | '\u{2001}' | '\u{2002}'
        | '\u{2003}' | '\u{2004}' | '\u{2005}' | '\u{2006}' | '\u{2007}' | '\u{2008}'
        | '\u{2009}' | '\u{200A}' | '\u{2028}' | '\u{2029}' | '\u{202F}' | '\u{205F}'
        | '\u{3000}' => true,
        _ => false,
    }
}

/// `s` spells the scheme name `"Bearer"`, compared ASCII-case-insensitively.
pub open spec fn is_bearer_scheme(s: Seq<char>) -> bool {
    &&& s.len() == 6
    &&& fold_code(s[0]) == 'b' as u32
    &&& fold_code(s[1]) == 'e' as u32
    &&& fold_code(s[2]) == 'a' as u32
    &&& fold_code(s[3]) == 'r' as u32
    &&& fold_code(s[4]) == 'e' as u32
    &&& fold_code(s[5]) == 'r' as u32
}

/// Index of the first space in `s`, or `s.len()` if `s` has none.
pub open spec fn first_space_idx(s: Seq<char>) -> int
    decreases s.len(),
{
    if s.len() == 0 {
        0
    } else if s[0] == ' ' {
        0
    } else {
        1 + first_space_idx(s.drop_first())
    }
}

/// `first_space_idx` is the unique index with no space before it that is
/// either a space or the end of the sequence.
pub proof fn lemma_first_space_idx_at(s: Seq<char>, i: int)
    requires
        0 <= i <= s.len(),
        forall|j: int| 0 <= j < i ==> s[j] != ' ',
        i < s.len() ==> s[i] == ' ',
    ensures
        first_space_idx(s) == i,
    decreases s.len(),
{
    if i == 0 {
        if s.len() > 0 {
            assert(s[0] == ' ');
        }
    } else {
        assert(s[0] != ' ');
        let t = s.drop_first();
        assert(forall|j: int| 0 <= j < i - 1 ==> t[j] == s[j + 1] && t[j] != ' ');
        assert(i - 1 < t.len() ==> t[i - 1] == s[i] && t[i - 1] == ' ');
        lemma_first_space_idx_at(t, i - 1);
    }
}

/// `s` with its leading whitespace removed.
pub open spec fn trim_start_spec(s: Seq<char>) -> Seq<char>
    decreases s.len(),
{
    if s.len() > 0 && is_ws(s[0]) {
        trim_start_spec(s.drop_first())
    } else {
        s
    }
}

/// `s` with its trailing whitespace removed.
pub open spec fn trim_end_spec(s: Seq<char>) -> Seq<char>
    decreases s.len(),
{
    if s.len() > 0 && is_ws(s[s.len() - 1]) {
        trim_end_spec(s.drop_last())
    } else {
        s
    }
}

/// `s` with both leading and trailing whitespace removed.
pub open spec fn trim_spec(s: Seq<char>) -> Seq<char> {
    trim_end_spec(trim_start_spec(s))
}

/// The token carried by an `Authorization` header value, if the value is
/// well-formed: split `h` on its first space, require the part before the
/// space to spell `"Bearer"` up to ASCII case, trim whitespace around the
/// part after it, and require the trimmed token to be non-empty.
pub open spec fn header_token(h: Seq<char>) -> Option<Seq<char>> {
    let i = first_space_idx(h);
    if i == h.len() {
        None
    } else if !is_bearer_scheme(h.take(i)) {
        None
    } else {
        let t = trim_spec(h.skip(i + 1));
        if t.len() == 0 {
            None
        } else {
            Some(t)
        }
    }
}

/// Removing leading whitespace skips exactly the longest whitespace prefix.
pub proof fn lemma_trim_start_skip(s: Seq<char>, k: int)
    requires
        0 <= k <= s.len(),
        forall|j: int| 0 <= j < k ==> is_ws(s[j]),
        k < s.len() ==> !is_ws(s[k]),
    ensures
        trim_start_spec(s) == s.skip(k),
    decreases k,
{
    if k == 0 {
        assert(s.skip(0) =~= s);
    } else {
        assert(is_ws(s[0]));
        let t = s.drop_first();
        assert(forall|j: int| 0 <= j < k - 1 ==> t[j] == s[j + 1] && is_ws(t[j]));
        assert(k - 1 < t.len() ==> t[k - 1] == s[k]);
        lemma_trim_start_skip(t, k - 1);
        assert(t.skip(k - 1) =~= s.skip(k));
    }
}

/// Removing trailing whitespace keeps exactly the prefix before the longest
/// whitespace suffix.
pub proof fn lemma_trim_end_take(s: Seq<char>, m: int)
    requires
        0 <= m <= s.len(),
        forall|j: int| m <= j < s.len() ==> is_ws(s[j]),
        m > 0 ==> !is_ws(s[m - 1]),
    ensures
        trim_end_spec(s) == s.take(m),
    decreases s.len() - m,
{
    if m == s.len() {
        assert(s.take(m) =~= s);
    } else {
        assert(is_ws(s[s.len() - 1]));
        let t = s.drop_last();
        assert(forall|j: int| m <= j < t.len() ==> t[j] == s[j] && is_ws(t[j]));
        assert(m > 0 ==> t[m - 1] == s[m - 1]);
        lemma_trim_end_take(t, m);
        assert(t.take(m) =~= s.take(m));
    }
}

/// Trimming never lengthens: the leading-whitespace trim of `s` is at most
/// as long as `s`.
proof fn lemma_trim_start_len(s: Seq<char>)
    ensures
        trim_start_spec(s).len() <= s.len(),
    decreases s.len(),
{
    if s.len() > 0 && is_ws(s[0]) {
        lemma_trim_start_len(s.drop_first());
    }
}

/// Trimming never lengthens: the trailing-whitespace trim of `s` is at most
/// as long as `s`.
proof fn lemma_trim_end_len(s: Seq<char>)
    ensures
        trim_end_spec(s).len() <= s.len(),
    decreases s.len(),
{
    if s.len() > 0 && is_ws(s[s.len() - 1]) {
        lemma_trim_end_len(s.drop_last());
    }
}

/// A non-empty sequence that trimming leaves unchanged neither starts nor
/// ends with whitespace.
proof fn lemma_trimmed_ends(t: Seq<char>)
    requires
        t.len() > 0,
        trim_spec(t) == t,
    ensures
        !is_ws(t[0]),
        !is_ws(t[t.len() - 1]),
{
    if is_ws(t[0]) {
        lemma_trim_start_len(t.drop_first());
        lemma_trim_end_len(trim_start_spec(t.drop_first()));
        assert(trim_spec(t).len() < t.len());
    }
    assert(trim_start_spec(t) == t) by {
        lemma_trim_start_len(t);
        lemma_trim_end_len(trim_start_spec(t));
    }
    if is_ws(t[t.len() - 1]) {
        lemma_trim_end_len(t.drop_last());
        assert(trim_end_spec(t).len() < t.len());
    }
}

/// A header made of any spelling of the scheme, a space, and a remainder
/// carries the trimmed remainder, or nothing when only whitespace remains.
proof fn lemma_scheme_header_token(s: Seq<char>, rest: Seq<char>)
    requires
        is_bearer_scheme(s),
    ensures
        header_token(s + seq![' '] + rest) == (if trim_spec(rest).len() == 0 {
            Option::<Seq<char>>::None
        } else {
            Some(trim_spec(rest))
        }),
{
    let h = s + seq![' '] + rest;
    assert(forall|j: int| 0 <= j < 6 ==> h[j] == s[j]);
    assert(forall|j: int| 0 <= j < 6 ==> s[j] != ' ');
    assert(h[6] == ' ');
    lemma_first_space_idx_at(h, 6);
    assert(h.take(6) =~= s);
    assert(h.skip(7) =~= rest);
}

/// The scheme prefix is matched ASCII-case-insensitively: two headers that
/// differ only in the spelling of their `"Bearer"` scheme part carry the
/// same token.
pub proof fn lemma_scheme_case_irrelevant(s1: Seq<char>, s2: Seq<char>, rest: Seq<char>)
    requires
        is_bearer_scheme(s1),
        is_bearer_scheme(s2),
    ensures
        header_token(s1 + seq![' '] + rest) == header_token(s2 + seq![' '] + rest),
{
    lemma_scheme_header_token(s1, rest);
    lemma_scheme_header_token(s2, rest);
}

/// A header formed as `"Bearer "` followed by a trimmed, non-empty token
/// carries exactly that token.
pub proof fn lemma_bearer_header_token(t: Seq<char>)
    requires
        t.len() > 0,
        trim_spec(t) == t,
    ensures
        header_token("Bearer "@ + t) == Some(t),
{
    reveal_strlit("Bearer ");
    let s = "Bearer "@.take(6);
    assert("Bearer "@ + t =~= s + seq![' '] + t);
    assert(is_bearer_scheme(s));
    lemma_scheme_header_token(s, t);
}

/// Whitespace around the token is insignificant: after the space that
/// separates the scheme from the token, any amount of leading and trailing
/// whitespace around a trimmed, non-empty token leaves the carried token
/// unchanged.
pub proof fn lemma_surrounding_whitespace_irrelevant(p: Seq<char>, t: Seq<char>, q: Seq<char>)
    requires
        forall|j: int| 0 <= j < p.len() ==> is_ws(p[j]),
        forall|j: int| 0 <= j < q.len() ==> is_ws(q[j]),
        t.len() > 0,
        trim_spec(t) == t,
    ensures
        trim_spec(p + t + q) == t,
        header_token("Bearer "@ + (p + t + q)) == Some(t),
{
    lemma_trimmed_ends(t);
    let u = p + t + q;
    assert(forall|j: int| 0 <= j < p.len() ==> u[j] == p[j]);
    assert(u[p.len() as int] == t[0]);
    lemma_trim_start_skip(u, p.len() as int);
    assert(u.skip(p.len() as int) =~= t + q);
    assert(forall|j: int| t.len() <= j < (t + q).len() ==> (t + q)[j] == q[j - t.len()]);
    assert((t + q)[t.len() - 1] == t[t.len() - 1]);
    lemma_trim_end_take(t + q, t.len() as int);
    assert((t + q).take(t.len() as int) =~= t);
    reveal_strlit("Bearer ");
    let s = "Bearer "@.take(6);
    assert("Bearer "@ + u =~= s + seq![' '] + u);
    assert(is_bearer_scheme(s));
    lemma_scheme_header_token(s, u);
}

} // verus!
