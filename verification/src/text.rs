//! String helpers for PostScript font names.
//!
//! A PostScript name such as `Alpha-BoldItalic` carries the family before
//! the first hyphen and the style variant after it. The functions here pick
//! that variant apart and test suffixes; everything is plain character work.

use vstd::prelude::*;
use vstd::string::StrSliceExecFns;

verus! {

/// The style part of a PostScript font name: everything after the first
/// hyphen, or empty when the name has no hyphen.
pub open spec fn variance_of(s: Seq<char>) -> Seq<char>
    decreases s.len(),
{
    if s.len() == 0 {
        Seq::empty()
    } else if s[0] == '-' {
        s.skip(1)
    } else {
        variance_of(s.skip(1))
    }
}

/// Whether the name holds a hyphen anywhere.
pub open spec fn has_dash(s: Seq<char>) -> bool {
    exists|i: int| 0 <= i < s.len() && s[i] == '-'
}

/// Whether `suffix` closes `s`.
pub open spec fn ends_with(s: Seq<char>, suffix: Seq<char>) -> bool {
    suffix.len() <= s.len() && s.subrange(s.len() - suffix.len(), s.len() as int) == suffix
}

/// A name without a hyphen has no variant part.
proof fn lemma_variance_no_dash(s: Seq<char>)
    requires
        !has_dash(s),
    ensures
        variance_of(s) == Seq::<char>::empty(),
    decreases s.len(),
{
    if s.len() != 0 {
        assert(forall|j: int| 0 <= j < s.skip(1).len() ==> s.skip(1)[j] == s[j + 1]);
        lemma_variance_no_dash(s.skip(1));
    }
}

/// The variant part is exactly what follows the first hyphen.
pub proof fn lemma_variance_at_first_dash(s: Seq<char>, i: int)
    requires
        0 <= i < s.len(),
        s[i] == '-',
        forall|j: int| 0 <= j < i ==> s[j] != '-',
    ensures
        variance_of(s) == s.subrange(i + 1, s.len() as int),
    decreases i,
{
    if i == 0 {
        assert(s.skip(1) =~= s.subrange(1, s.len() as int));
    } else {
        lemma_variance_at_first_dash(s.skip(1), i - 1);
        assert(s.skip(1).subrange(i, s.skip(1).len() as int) =~= s.subrange(
            i + 1,
            s.len() as int,
        ));
    }
}

/// The position of the first hyphen in `s`, if there is one.
pub fn find_dash(s: &str) -> (r: Option<usize>)
    ensures
        match r {
            Some(i) => 0 <= i < s@.len() && s@[i as int] == '-' && (forall|j: int|
                0 <= j < i ==> s@[j] != '-'),
            None => !has_dash(s@),
        },
{
    let n = s.unicode_len();
    let mut k: usize = 0;
    while k < n
        invariant
            k <= n,
            n == s@.len(),
            forall|j: int| 0 <= j < k ==> s@[j] != '-',
        decreases n - k,
    {
        if s.get_char(k) == '-' {
            return Some(k);
        }
        k = k + 1;
    }
    None
}

/// The style variant of a PostScript font name: the text after the first
/// hyphen, or the empty string when the name has no hyphen.
pub fn variance(font_name: &str) -> (r: String)
    ensures
        r@ == variance_of(font_name@),
{
    let n = font_name.unicode_len();
    match find_dash(font_name) {
        Some(i) => {
            proof {
                lemma_variance_at_first_dash(font_name@, i as int);
            }
            let sub = font_name.substring_char(i + 1, n);
            sub.to_owned()
        },
        None => {
            proof {
                lemma_variance_no_dash(font_name@);
            }
            String::new()
        },
    }
}

/// Whether `s` ends in `suffix`, character for character.
pub fn str_ends_with(s: &str, suffix: &str) -> (r: bool)
    ensures
        r == ends_with(s@, suffix@),
{
    let n = s.unicode_len();
    let m = suffix.unicode_len();
    if m > n {
        return false;
    }
    let off = n - m;
    let mut k: usize = 0;
    while k < m
        invariant
            k <= m,
            m <= n,
            off == n - m,
            n == s@.len(),
            m == suffix@.len(),
            forall|j: int| 0 <= j < k ==> s@[off + j] == suffix@[j],
        decreases m - k,
    {
        if s.get_char(off + k) != suffix.get_char(k) {
            assert(s@.subrange(off as int, n as int)[k as int] != suffix@[k as int]);
            return false;
        }
        k = k + 1;
    }
    assert(s@.subrange(off as int, n as int) =~= suffix@);
    true
}

} // verus!
