//! Masking of personal identifiers before they are shown on screen.

use vstd::prelude::*;

verus! {

/// `k` copies of the masking character.
pub open spec fn star_run(k: nat) -> Seq<char> {
    Seq::new(k, |i: int| '*')
}

/// What masking does to an identifier: up to six characters it is shown
/// whole; otherwise the first three and last three characters remain and
/// the middle is replaced by at most six asterisks.
pub open spec fn masked_id(s: Seq<char>) -> Seq<char> {
    if s.len() <= 6 {
        s
    } else {
        let hidden = if s.len() - 6 < 6 {
            (s.len() - 6) as nat
        } else {
            6nat
        };
        s.subrange(0, 3) + star_run(hidden) + s.subrange(s.len() - 3, s.len() as int)
    }
}

/// Hides the middle of an identification number, keeping only a short
/// prefix and suffix visible.
pub fn mask_id(id: &str) -> (r: String)
    ensures
        r@ == masked_id(id@),
{
    let n = id.unicode_len();
    if n <= 6 {
        return String::from_str(id);
    }
    let prefix = id.substring_char(0, 3);
    let suffix = id.substring_char(n - 3, n);
    let hidden: usize = if n - 6 < 6 {
        n - 6
    } else {
        6
    };
    proof {
        reveal_strlit("*");
    }
    let mut r = String::from_str(prefix);
    let mut i: usize = 0;
    while i < hidden
        invariant
            i <= hidden,
            id@.len() > 6,
            ("*")@ =~= seq!['*'],
            r@ =~= id@.subrange(0, 3) + star_run(i as nat),
        decreases hidden - i,
    {
        r.append("*");
        i = i + 1;
    }
    r.append(suffix);
    assert(r@ =~= masked_id(id@));
    r
}

} // verus!
