//! Verified text helpers: decimal rendering of integers and substring search,
//! used when result messages and channel endpoints are assembled.

use vstd::prelude::*;

verus! {

/// The character for one decimal digit.
pub open spec fn digit_char(d: int) -> char {
    if d == 0 {
        '0'
    } else if d == 1 {
        '1'
    } else if d == 2 {
        '2'
    } else if d == 3 {
        '3'
    } else if d == 4 {
        '4'
    } else if d == 5 {
        '5'
    } else if d == 6 {
        '6'
    } else if d == 7 {
        '7'
    } else if d == 8 {
        '8'
    } else {
        '9'
    }
}

/// The decimal representation of `n`, most significant digit first,
/// without leading zeros (except for `n == 0` itself).
pub open spec fn dec_rep(n: nat) -> Seq<char>
    decreases n,
{
    if n < 10 {
        seq![digit_char(n as int)]
    } else {
        dec_rep(n / 10) + seq![digit_char((n % 10) as int)]
    }
}

/// A one-character string slice for the digit `d`.
fn digit_str(d: u64) -> (r: &'static str)
    requires
        d < 10,
    ensures
        r@ =~= seq![digit_char(d as int)],
{
    proof {
        reveal_strlit("0");
        reveal_strlit("1");
        reveal_strlit("2");
        reveal_strlit("3");
        reveal_strlit("4");
        reveal_strlit("5");
        reveal_strlit("6");
        reveal_strlit("7");
        reveal_strlit("8");
        reveal_strlit("9");
    }
    if d == 0 {
        "0"
    } else if d == 1 {
        "1"
    } else if d == 2 {
        "2"
    } else if d == 3 {
        "3"
    } else if d == 4 {
        "4"
    } else if d == 5 {
        "5"
    } else if d == 6 {
        "6"
    } else if d == 7 {
        "7"
    } else if d == 8 {
        "8"
    } else {
        "9"
    }
}

/// Renders `n` in decimal, exactly as `dec_rep` describes.
pub fn fmt_u64(n: u64) -> (r: String)
    ensures
        r@ == dec_rep(n as nat),
    decreases n,
{
    if n < 10 {
        let s = String::from_str(digit_str(n));
        assert(s@ =~= dec_rep(n as nat));
        s
    } else {
        let mut s = fmt_u64(n / 10);
        s.append(digit_str(n % 10));
        assert(s@ =~= dec_rep(n as nat));
        s
    }
}

/// `t` occurs in `s` starting at position `i`.
pub open spec fn has_substr_at(s: Seq<char>, t: Seq<char>, i: int) -> bool {
    0 <= i && i + t.len() <= s.len() && s.subrange(i, i + t.len()) == t
}

/// `t` occurs somewhere in `s`.
pub open spec fn has_substr(s: Seq<char>, t: Seq<char>) -> bool {
    exists|i: int| has_substr_at(s, t, i)
}

/// Substring search by direct comparison, position by position.
pub fn contains_str(s: &str, t: &str) -> (r: bool)
    ensures
        r == has_substr(s@, t@),
{
    let n = s.unicode_len();
    let m = t.unicode_len();
    if m > n {
        assert(forall|i: int| !has_substr_at(s@, t@, i));
        return false;
    }
    let mut i: usize = 0;
    while i <= n - m
        invariant
            m <= n <= usize::MAX,
            i <= n - m + 1,
            n == s@.len(),
            m == t@.len(),
            forall|j: int| 0 <= j < i ==> !has_substr_at(s@, t@, j),
        decreases n - m + 1 - i,
    {
        let mut k: usize = 0;
        let mut all_eq = true;
        while k < m
            invariant
                m <= n <= usize::MAX,
                i <= n - m,
                k <= m,
                n == s@.len(),
                m == t@.len(),
                all_eq == (s@.subrange(i as int, i + k) =~= t@.subrange(0, k as int)),
            decreases m - k,
        {
            let sc = s.get_char(i + k);
            let tc = t.get_char(k);
            proof {
                assert(s@.subrange(i as int, i + k + 1).drop_last() =~= s@.subrange(
                    i as int,
                    i + k,
                ));
                assert(t@.subrange(0, k + 1).drop_last() =~= t@.subrange(0, k as int));
            }
            if sc != tc {
                all_eq = false;
                assert(s@.subrange(i as int, i + k + 1)[k as int] != t@.subrange(0, k + 1)[k as int]);
            } else {
                if all_eq {
                    assert(s@.subrange(i as int, i + k + 1) =~= s@.subrange(i as int, i + k).push(
                        sc,
                    ));
                    assert(t@.subrange(0, k + 1) =~= t@.subrange(0, k as int).push(tc));
                } else {
                    assert(exists|j: int|
                        0 <= j < k && s@.subrange(i as int, i + k)[j] != t@.subrange(
                            0,
                            k as int,
                        )[j]);
                    let ghost j = choose|j: int|
                        0 <= j < k && s@.subrange(i as int, i + k)[j] != t@.subrange(
                            0,
                            k as int,
                        )[j];
                    assert(s@.subrange(i as int, i + k + 1)[j] != t@.subrange(0, k + 1)[j]);
                }
            }
            k = k + 1;
        }
        if all_eq {
            assert(t@.subrange(0, m as int) =~= t@);
            assert(has_substr_at(s@, t@, i as int));
            return true;
        }
        assert(!has_substr_at(s@, t@, i as int));
        i = i + 1;
    }
    assert(forall|j: int| !has_substr_at(s@, t@, j));
    return false;
}

/// A character acceptable in a typed contact field: ASCII letters and
/// digits, `@`, `.`, `-` and `_`.
pub open spec fn contact_char_ok(c: char) -> bool {
    (48 <= c as u32 && c as u32 <= 57) || (65 <= c as u32 && c as u32 <= 90) || (97 <= c as u32
        && c as u32 <= 122) || c == '@' || c == '.' || c == '-' || c == '_'
}

/// Drops every character of a typed contact field that `contact_char_ok`
/// refuses, keeping the rest in order.
pub fn filter_contact(chars: &Vec<char>) -> (r: Vec<char>)
    ensures
        r@ == chars@.filter(|c: char| contact_char_ok(c)),
{
    let mut r: Vec<char> = Vec::new();
    let mut i: usize = 0;
    proof {
        reveal(Seq::filter);
        assert(chars@.subrange(0, 0) =~= Seq::<char>::empty());
    }
    while i < chars.len()
        invariant
            i <= chars@.len(),
            r@ == chars@.subrange(0, i as int).filter(|c: char| contact_char_ok(c)),
        decreases chars@.len() - i,
    {
        let c = chars[i];
        let keep = {
            let v = c as u32;
            (48 <= v && v <= 57) || (65 <= v && v <= 90) || (97 <= v && v <= 122) || c == '@' || c
                == '.' || c == '-' || c == '_'
        };
        proof {
            reveal(Seq::filter);
            assert(chars@.subrange(0, i + 1).drop_last() =~= chars@.subrange(0, i as int));
            assert(chars@.subrange(0, i + 1).last() == chars@[i as int]);
        }
        if keep {
            r.push(c);
        }
        assert(r@ =~= chars@.subrange(0, i + 1).filter(|c: char| contact_char_ok(c)));
        i = i + 1;
    }
    assert(chars@.subrange(0, chars@.len() as int) =~= chars@);
    r
}

} // verus!
