//! Character-sequence helpers: substring search, case-insensitive
//! substring search, and ASCII lowercasing, with specifications over
//! `Seq<char>` views.

use vstd::prelude::*;
use vstd::string::StrSliceExecFns;

verus! {

/// The needle `n` occurs in `h` starting at position `i`.
pub open spec fn match_at(h: Seq<char>, n: Seq<char>, i: int) -> bool {
    0 <= i && i + n.len() <= h.len() && h.subrange(i, i + n.len()) == n
}

/// The needle `n` occurs somewhere in `h`.
pub open spec fn contains_seq(h: Seq<char>, n: Seq<char>) -> bool {
    exists|i: int| match_at(h, n, i)
}

/// ASCII lowercasing of a single character; other characters are kept.
pub open spec fn lower_char(c: char) -> char {
    if 65 <= c as u32 && c as u32 <= 90 {
        ((c as u32) + 32) as char
    } else {
        c
    }
}

/// ASCII lowercasing of a character sequence.
pub open spec fn lower_seq(s: Seq<char>) -> Seq<char> {
    s.map_values(|c: char| lower_char(c))
}

/// ASCII uppercasing of a single character; other characters are kept.
pub open spec fn upper_char(c: char) -> char {
    if 97 <= c as u32 && c as u32 <= 122 {
        ((c as u32) - 32) as char
    } else {
        c
    }
}

/// ASCII uppercasing of a character sequence.
pub open spec fn upper_seq(s: Seq<char>) -> Seq<char> {
    s.map_values(|c: char| upper_char(c))
}

/// `r` names the first position where `n` occurs in `h`, or is `None`
/// when `n` does not occur at all.
pub open spec fn find_is(r: Option<usize>, h: Seq<char>, n: Seq<char>) -> bool {
    match r {
        Some(i) => match_at(h, n, i as int) && (forall|k: int| 0 <= k < i ==> !match_at(h, n, k)),
        None => !contains_seq(h, n),
    }
}

/// The position of the first occurrence of `n` in `h`, if any.
pub open spec fn spec_find(h: Seq<char>, n: Seq<char>) -> Option<int> {
    if contains_seq(h, n) {
        Some(
            choose|i: int|
                match_at(h, n, i) && (forall|k: int| 0 <= k < i ==> !match_at(h, n, k)),
        )
    } else {
        None
    }
}

/// Uppercase one character (ASCII).
pub fn upper_char_exec(c: char) -> (r: char)
    ensures
        r == upper_char(c),
{
    let u = c as u32;
    if 97 <= u && u <= 122 {
        ((u - 32) as u8) as char
    } else {
        c
    }
}

fn lower_char_exec(c: char) -> (r: char)
    ensures
        r == lower_char(c),
{
    let u = c as u32;
    if 65 <= u && u <= 90 {
        ((u + 32) as u8) as char
    } else {
        c
    }
}

/// Relies on String's FromIterator for char: collecting characters
/// yields the string of exactly those characters, in order.
#[verifier::external_body]
pub fn chars_to_string(chars: &Vec<char>) -> (r: String)
    ensures
        r@ == chars@,
{
    chars.iter().collect()
}

/// The position of the first occurrence of the needle `n` in the
/// haystack `h` (case-sensitive, exact character match), if any.
pub fn str_find(h: &str, n: &str) -> (r: Option<usize>)
    ensures
        find_is(r, h@, n@),
        r matches Some(i) ==> spec_find(h@, n@) == Some(i as int),
        r is None ==> spec_find(h@, n@) is None,
{
    let hl = h.unicode_len();
    let nl = n.unicode_len();
    if nl > hl {
        assert(forall|i: int| !match_at(h@, n@, i));
        return None;
    }
    let mut i: usize = 0;
    while i <= hl - nl
        invariant
            nl <= hl,
            hl == h@.len(),
            nl == n@.len(),
            i <= hl - nl + 1,
            forall|k: int| 0 <= k < i ==> !match_at(h@, n@, k),
        decreases hl - nl - i + 1,
    {
        let mut j: usize = 0;
        let mut matched = true;
        while matched && j < nl
            invariant
                nl <= hl,
                hl == h@.len(),
                nl == n@.len(),
                i <= hl - nl,
                j <= nl,
                matched ==> forall|t: int| 0 <= t < j ==> h@[i + t] == n@[t],
                !matched ==> !match_at(h@, n@, i as int),
            decreases nl - j + (if matched { 1int } else { 0int }),
        {
            if h.get_char(i + j) == n.get_char(j) {
                j += 1;
            } else {
                assert(!match_at(h@, n@, i as int)) by {
                    if match_at(h@, n@, i as int) {
                        assert(h@.subrange(i as int, i + n@.len())[j as int] == n@[j as int]);
                    }
                }
                matched = false;
            }
        }
        if matched {
            assert(match_at(h@, n@, i as int)) by {
                assert(h@.subrange(i as int, i + n@.len()) =~= n@);
            }
            proof {
                let j2 = choose|i2: int|
                    match_at(h@, n@, i2) && (forall|k: int| 0 <= k < i2 ==> !match_at(h@, n@, k));
                assert(match_at(h@, n@, j2) && (forall|k: int|
                    0 <= k < j2 ==> !match_at(h@, n@, k)));
                assert(j2 == i as int);
            }
            return Some(i);
        }
        assert(nl >= 1) by {
            if n@.len() == 0 {
                assert(h@.subrange(i as int, i as int) =~= n@);
            }
        }
        i += 1;
    }
    assert(forall|k: int| !match_at(h@, n@, k));
    None
}

/// Whether the needle `n` occurs in the haystack `h` (case-sensitive,
/// exact character match).
pub fn str_contains(h: &str, n: &str) -> (r: bool)
    ensures
        r == contains_seq(h@, n@),
{
    str_find(h, n).is_some()
}

/// Whether the needle `n` occurs in the haystack `h` once `h` is
/// lowercased; the needle itself is taken as written.
pub fn str_contains_lower(h: &str, n: &str) -> (r: bool)
    ensures
        r == contains_seq(lower_seq(h@), n@),
{
    let ghost hs = lower_seq(h@);
    assert(hs.len() == h@.len());
    let hl = h.unicode_len();
    let nl = n.unicode_len();
    if nl > hl {
        assert(forall|i: int| !match_at(hs, n@, i));
        return false;
    }
    let mut i: usize = 0;
    while i <= hl - nl
        invariant
            nl <= hl,
            hs == lower_seq(h@),
            hl == hs.len(),
            hl == h@.len(),
            nl == n@.len(),
            i <= hl - nl + 1,
            forall|k: int| 0 <= k < i ==> !match_at(hs, n@, k),
        decreases hl - nl - i + 1,
    {
        let mut j: usize = 0;
        let mut matched = true;
        while matched && j < nl
            invariant
                nl <= hl,
                hs == lower_seq(h@),
                hl == hs.len(),
                hl == h@.len(),
                nl == n@.len(),
                i <= hl - nl,
                j <= nl,
                matched ==> forall|t: int| 0 <= t < j ==> hs[i + t] == n@[t],
                !matched ==> !match_at(hs, n@, i as int),
            decreases nl - j + (if matched { 1int } else { 0int }),
        {
            let hc = lower_char_exec(h.get_char(i + j));
            assert(hc == hs[i + j]);
            if hc == n.get_char(j) {
                j += 1;
            } else {
                assert(!match_at(hs, n@, i as int)) by {
                    if match_at(hs, n@, i as int) {
                        assert(hs.subrange(i as int, i + n@.len())[j as int] == n@[j as int]);
                    }
                }
                matched = false;
            }
        }
        if matched {
            assert(match_at(hs, n@, i as int)) by {
                assert(hs.subrange(i as int, i + n@.len()) =~= n@);
            }
            return true;
        }
        assert(nl >= 1) by {
            if n@.len() == 0 {
                assert(hs.subrange(i as int, i as int) =~= n@);
            }
        }
        i += 1;
    }
    assert(forall|k: int| !match_at(hs, n@, k));
    false
}

} // verus!
