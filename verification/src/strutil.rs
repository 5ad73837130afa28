//! Verified helpers over strings, used by the resolution chain to decode
//! the string-encoded action forms (`"set:"`, `"provider:"`,
//! `"quickactivate:<index>"`) and to compare configuration keys.

use vstd::prelude::*;
use vstd::string::StrSliceExecFns;
use vstd::string::StringExecFns;

verus! {

/// `p` is a prefix of `s`.
pub open spec fn has_prefix(s: Seq<char>, p: Seq<char>) -> bool {
    p.len() <= s.len() && s.subrange(0, p.len() as int) == p
}

/// `n` occurs somewhere in `s` as a contiguous run.
pub open spec fn contains_seq(s: Seq<char>, n: Seq<char>) -> bool {
    exists|i: int| 0 <= i && i + n.len() <= s.len() && #[trigger] s.subrange(i, i + n.len()) == n
}

/// Character-wise equality of two string slices.
pub fn str_eq(a: &str, b: &str) -> (r: bool)
    ensures
        r == (a@ == b@),
{
    let alen = a.unicode_len();
    let blen = b.unicode_len();
    if alen != blen {
        return false;
    }
    let mut i: usize = 0;
    while i < alen
        invariant
            alen == a@.len(),
            alen == b@.len(),
            i <= alen,
            forall|j: int| 0 <= j < i ==> a@[j] == b@[j],
        decreases alen - i,
    {
        let ca = a.get_char(i);
        let cb = b.get_char(i);
        if ca != cb {
            return false;
        }
        i = i + 1;
    }
    proof {
        assert(a@ =~= b@);
    }
    true
}

/// Whether `s` starts with `p`.
pub fn starts_with_str(s: &str, p: &str) -> (r: bool)
    ensures
        r == has_prefix(s@, p@),
{
    let slen = s.unicode_len();
    let plen = p.unicode_len();
    if plen > slen {
        return false;
    }
    let mut i: usize = 0;
    while i < plen
        invariant
            slen == s@.len(),
            plen == p@.len(),
            plen <= slen,
            i <= plen,
            forall|j: int| 0 <= j < i ==> s@[j] == p@[j],
        decreases plen - i,
    {
        let cs = s.get_char(i);
        let cp = p.get_char(i);
        if cs != cp {
            proof {
                assert(s@.subrange(0, p@.len() as int)[i as int] != p@[i as int]);
            }
            return false;
        }
        i = i + 1;
    }
    proof {
        assert(s@.subrange(0, p@.len() as int) =~= p@);
    }
    true
}

/// The remainder of `s` after the prefix `p`, or `None` when `p` is not
/// a prefix of `s`.
pub fn strip_prefix_str(s: &str, p: &str) -> (r: Option<String>)
    ensures
        match r {
            Some(t) => has_prefix(s@, p@) && t@ == s@.subrange(p@.len() as int, s@.len() as int),
            None => !has_prefix(s@, p@),
        },
{
    if starts_with_str(s, p) {
        let suffix = s.substring_char(p.unicode_len(), s.unicode_len());
        Some(suffix.to_owned())
    } else {
        None
    }
}

/// The concatenation of `a` and `b`.
pub fn concat_str(a: &str, b: &str) -> (r: String)
    ensures
        r@ == a@ + b@,
{
    let mut s = a.to_owned();
    s.append(b);
    s
}

/// Whether the characters of `s` starting at `i` match `n`.
fn match_at(s: &str, n: &str, i: usize, slen: usize, nlen: usize) -> (r: bool)
    requires
        slen == s@.len(),
        nlen == n@.len(),
        i + nlen <= slen,
    ensures
        r == (s@.subrange(i as int, i + n@.len()) == n@),
{
    let mut j: usize = 0;
    while j < nlen
        invariant
            slen == s@.len(),
            nlen == n@.len(),
            i + nlen <= slen,
            j <= nlen,
            forall|k: int| 0 <= k < j ==> s@[i + k] == n@[k],
        decreases nlen - j,
    {
        let cs = s.get_char(i + j);
        let cn = n.get_char(j);
        if cs != cn {
            proof {
                assert(s@.subrange(i as int, i + n@.len())[j as int] != n@[j as int]);
            }
            return false;
        }
        j = j + 1;
    }
    proof {
        assert(s@.subrange(i as int, i + n@.len()) =~= n@);
    }
    true
}

/// Whether `needle` occurs in `s`.
pub fn contains_str(s: &str, needle: &str) -> (r: bool)
    ensures
        r == contains_seq(s@, needle@),
{
    let slen = s.unicode_len();
    let nlen = needle.unicode_len();
    if nlen > slen {
        return false;
    }
    if nlen == 0 {
        proof {
            assert(s@.subrange(0, 0 + needle@.len() as int) =~= needle@);
            assert(contains_seq(s@, needle@));
        }
        return true;
    }
    let end = slen - nlen;
    let mut i: usize = 0;
    while i <= end
        invariant
            slen == s@.len(),
            nlen == needle@.len(),
            0 < nlen <= slen,
            end == slen - nlen,
            i <= end + 1,
            forall|k: int| 0 <= k < i ==> #[trigger] s@.subrange(k, k + needle@.len()) != needle@,
        decreases end + 1 - i,
    {
        if match_at(s, needle, i, slen, nlen) {
            return true;
        }
        i = i + 1;
    }
    false
}

/// A decimal digit.
pub open spec fn is_digit(c: char) -> bool {
    48 <= c as int && c as int <= 57
}

/// The numeric value of a decimal digit.
pub open spec fn digit_val(c: char) -> int {
    c as int - 48
}

/// Every character of `s` is a decimal digit.
pub open spec fn all_digits(s: Seq<char>) -> bool {
    forall|i: int| 0 <= i < s.len() ==> is_digit(#[trigger] s[i])
}

/// The value of `s` read as a decimal numeral.
pub open spec fn dec_val(s: Seq<char>) -> int
    decreases s.len(),
{
    if s.len() == 0 {
        0
    } else {
        dec_val(s.drop_last()) * 10 + digit_val(s.last())
    }
}

proof fn lemma_dec_val_take_step(s: Seq<char>, j: int)
    requires
        0 <= j < s.len(),
    ensures
        dec_val(s.take(j + 1)) == dec_val(s.take(j)) * 10 + digit_val(s[j]),
{
    assert(s.take(j + 1).drop_last() =~= s.take(j));
    assert(s.take(j + 1).last() == s[j]);
}

proof fn lemma_dec_val_take_mono(s: Seq<char>, i: int, j: int)
    requires
        0 <= i <= j <= s.len(),
        all_digits(s),
    ensures
        dec_val(s.take(i)) <= dec_val(s.take(j)),
    decreases j - i,
{
    if i < j {
        lemma_dec_val_take_mono(s, i, j - 1);
        lemma_dec_val_take_step(s, j - 1);
        assert(dec_val(s.take(j - 1)) * 10 >= dec_val(s.take(j - 1))) by {
            lemma_dec_val_nonneg(s.take(j - 1));
        }
    }
}

proof fn lemma_dec_val_nonneg(s: Seq<char>)
    ensures
        all_digits(s) ==> dec_val(s) >= 0,
    decreases s.len(),
{
    if s.len() > 0 {
        lemma_dec_val_nonneg(s.drop_last());
        assert(all_digits(s) ==> all_digits(s.drop_last()));
    }
}

/// Parses `s` as a decimal `u32`; `None` when `s` is empty, holds a
/// non-digit, or exceeds `u32::MAX`.
pub fn parse_u32_dec(s: &str) -> (r: Option<u32>)
    ensures
        match r {
            Some(v) => s@.len() > 0 && all_digits(s@) && v as int == dec_val(s@),
            None => s@.len() == 0 || !all_digits(s@) || dec_val(s@) > u32::MAX as int,
        },
{
    let len = s.unicode_len();
    if len == 0 {
        return None;
    }
    let mut acc: u32 = 0;
    let mut i: usize = 0;
    while i < len
        invariant
            len == s@.len(),
            0 < len,
            i <= len,
            all_digits(s@.take(i as int)),
            acc as int == dec_val(s@.take(i as int)),
        decreases len - i,
    {
        let c = s.get_char(i);
        let cv = c as u32;
        if cv < 48 || cv > 57 {
            assert(!is_digit(s@[i as int]));
            return None;
        }
        let d = cv - 48;
        let next = acc as u64 * 10 + d as u64;
        proof {
            lemma_dec_val_take_step(s@, i as int);
            assert(all_digits(s@.take(i + 1)));
        }
        if next > u32::MAX as u64 {
            proof {
                if all_digits(s@) {
                    lemma_dec_val_take_mono(s@, i + 1, s@.len() as int);
                    assert(s@.take(s@.len() as int) =~= s@);
                }
            }
            return None;
        }
        acc = next as u32;
        i = i + 1;
    }
    proof {
        assert(s@.take(len as int) =~= s@);
    }
    Some(acc)
}

/// Whether `t` occurs among the strings of `ss`.
pub open spec fn seq_has_str(ss: Seq<String>, t: Seq<char>) -> bool {
    exists|i: int| 0 <= i < ss.len() && #[trigger] ss[i]@ == t
}

/// Whether `t` occurs among the strings of `v`.
pub fn vec_has_str(v: &Vec<String>, t: &str) -> (r: bool)
    ensures
        r == seq_has_str(v@, t@),
{
    let mut i: usize = 0;
    while i < v.len()
        invariant
            i <= v@.len(),
            forall|k: int| 0 <= k < i ==> #[trigger] v@[k]@ != t@,
        decreases v@.len() - i,
    {
        if str_eq(v[i].as_str(), t) {
            return true;
        }
        i = i + 1;
    }
    false
}

} // verus!
