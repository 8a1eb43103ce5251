//! Character and string helpers shared by the content model and the
//! conversation normalizer: whitespace classification, blank tests and
//! trailing-whitespace trimming.

use vstd::prelude::*;

verus! {

/// The Unicode `White_Space` characters, as `char::is_whitespace` accepts them.
pub open spec fn is_ws_char(c: char) -> bool {
    ||| c == ' '
    ||| c == '\t'
    ||| c == '\n'
    ||| c == '\u{0b}'
    ||| c == '\u{0c}'
    ||| c == '\r'
    ||| c == '\u{85}'
    ||| c == '\u{a0}'
    ||| c == '\u{1680}'
    ||| ('\u{2000}' <= c && c <= '\u{200a}')
    ||| c == '\u{2028}'
    ||| c == '\u{2029}'
    ||| c == '\u{202f}'
    ||| c == '\u{205f}'
    ||| c == '\u{3000}'
}

pub fn char_is_ws(c: char) -> (r: bool)
    ensures
        r == is_ws_char(c),
{
    c == ' ' || c == '\t' || c == '\n' || c == '\u{0b}' || c == '\u{0c}' || c == '\r' || c
        == '\u{85}' || c == '\u{a0}' || c == '\u{1680}' || ('\u{2000}' <= c && c <= '\u{200a}') || c
        == '\u{2028}' || c == '\u{2029}' || c == '\u{202f}' || c == '\u{205f}' || c == '\u{3000}'
}

/// A text is blank when every character is whitespace; `s.trim().is_empty()`.
pub open spec fn is_blank(s: Seq<char>) -> bool {
    forall|i: int| 0 <= i < s.len() ==> is_ws_char(#[trigger] s[i])
}

pub fn str_is_blank(s: &str) -> (r: bool)
    ensures
        r == is_blank(s@),
{
    let len = s.unicode_len();
    for i in 0..len
        invariant
            len == s@.len(),
            forall|j: int| 0 <= j < i ==> is_ws_char(#[trigger] s@[j]),
    {
        if !char_is_ws(s.get_char(i)) {
            return false;
        }
    }
    true
}

/// The prefix of `s` that remains when trailing whitespace is removed.
pub open spec fn trim_end_spec(s: Seq<char>) -> Seq<char>
    decreases s.len(),
{
    if s.len() > 0 && is_ws_char(s[s.len() - 1]) {
        trim_end_spec(s.drop_last())
    } else {
        s
    }
}

/// Trimming strips whitespace only; any non-whitespace character survives.
pub proof fn lemma_trim_end_keeps_non_ws(s: Seq<char>, i: int)
    requires
        0 <= i < s.len(),
        !is_ws_char(s[i]),
    ensures
        trim_end_spec(s).len() > i,
        trim_end_spec(s)[i] == s[i],
    decreases s.len(),
{
    if s.len() > 0 && is_ws_char(s[s.len() - 1]) {
        lemma_trim_end_keeps_non_ws(s.drop_last(), i);
    }
}

/// A trimmed text has no trailing whitespace, so trimming it again changes nothing.
pub proof fn lemma_trim_end_idempotent(s: Seq<char>)
    ensures
        trim_end_spec(trim_end_spec(s)) == trim_end_spec(s),
    decreases s.len(),
{
    if s.len() > 0 && is_ws_char(s[s.len() - 1]) {
        lemma_trim_end_idempotent(s.drop_last());
    }
}

pub fn trim_end_str(s: &str) -> (r: String)
    ensures
        r@ == trim_end_spec(s@),
{
    let len = s.unicode_len();
    let mut end = len;
    proof {
        assert(s@.take(len as int) =~= s@);
    }
    while end > 0 && char_is_ws(s.get_char(end - 1))
        invariant
            end <= len,
            len == s@.len(),
            trim_end_spec(s@) == trim_end_spec(s@.take(end as int)),
        decreases end,
    {
        proof {
            assert(s@.take(end as int).drop_last() =~= s@.take(end - 1));
        }
        end = end - 1;
    }
    proof {
        if end > 0 {
            assert(trim_end_spec(s@.take(end as int)) =~= s@.take(end as int));
        } else {
            assert(trim_end_spec(s@.take(0)) =~= s@.take(0));
        }
    }
    let r = s.substring_char(0, end);
    proof {
        assert(s@.subrange(0, end as int) =~= s@.take(end as int));
    }
    r.to_owned()
}

/// Character-wise string equality.
pub fn str_eq(a: &str, b: &str) -> (r: bool)
    ensures
        r == (a@ == b@),
{
    let la = a.unicode_len();
    let lb = b.unicode_len();
    if la != lb {
        return false;
    }
    for i in 0..la
        invariant
            la == a@.len(),
            lb == b@.len(),
            la == lb,
            forall|j: int| 0 <= j < i ==> a@[j] == b@[j],
    {
        if a.get_char(i) != b.get_char(i) {
            return false;
        }
    }
    proof {
        assert(a@ =~= b@);
    }
    true
}

} // verus!
