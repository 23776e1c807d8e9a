//! Helpers for putting generated stub components in a stable order.
use vstd::prelude::*;

use std::cmp::Ordering;

verus! {

/// Lexicographic order of two character sequences, by code point.
///
/// For UTF-8 strings this is the same order as the byte-wise order that
/// `String` uses.
pub open spec fn char_seq_cmp(a: Seq<char>, b: Seq<char>) -> Ordering
    decreases a.len(),
{
    if a.len() == 0 && b.len() == 0 {
        Ordering::Equal
    } else if a.len() == 0 {
        Ordering::Less
    } else if b.len() == 0 {
        Ordering::Greater
    } else if (a[0] as u32) < (b[0] as u32) {
        Ordering::Less
    } else if (a[0] as u32) > (b[0] as u32) {
        Ordering::Greater
    } else {
        char_seq_cmp(a.drop_first(), b.drop_first())
    }
}

/// Compares by the first position where `a` and `b` differ, from `i` on.
proof fn lemma_cmp_from(a: Seq<char>, b: Seq<char>, i: int)
    requires
        0 <= i <= a.len(),
        i <= b.len(),
        forall|j: int| 0 <= j < i ==> a[j] == b[j],
    ensures
        char_seq_cmp(a, b) == char_seq_cmp(a.subrange(i, a.len() as int), b.subrange(i, b.len() as int)),
    decreases i,
{
    if i > 0 {
        let a1 = a.drop_first();
        let b1 = b.drop_first();
        assert forall|j: int| 0 <= j < i - 1 implies a1[j] == b1[j] by {
            assert(a[j + 1] == b[j + 1]);
        }
        lemma_cmp_from(a1, b1, i - 1);
        assert(a1.subrange(i - 1, a1.len() as int) =~= a.subrange(i, a.len() as int));
        assert(b1.subrange(i - 1, b1.len() as int) =~= b.subrange(i, b.len() as int));
    } else {
        assert(a.subrange(0, a.len() as int) =~= a);
        assert(b.subrange(0, b.len() as int) =~= b);
    }
}

/// A comparison of map entries by key alone, usable to sort a map of
/// `String` keys in place without cloning the keys.
pub fn cmp_strings<T>(k1: &String, _v1: &T, k2: &String, _v2: &T) -> (r: Ordering)
    ensures
        r == char_seq_cmp(k1@, k2@),
{
    let a = k1.as_str();
    let b = k2.as_str();
    let n1 = a.unicode_len();
    let n2 = b.unicode_len();
    let mut i: usize = 0;
    while i < n1 && i < n2
        invariant
            n1 == k1@.len(),
            n2 == k2@.len(),
            a@ == k1@,
            b@ == k2@,
            i <= n1,
            i <= n2,
            forall|j: int| 0 <= j < i ==> k1@[j] == k2@[j],
        decreases n1 - i,
    {
        let c1 = a.get_char(i);
        let c2 = b.get_char(i);
        if (c1 as u32) != (c2 as u32) {
            proof {
                lemma_cmp_from(k1@, k2@, i as int);
                let s1 = k1@.subrange(i as int, k1@.len() as int);
                let s2 = k2@.subrange(i as int, k2@.len() as int);
                assert(s1[0] == c1);
                assert(s2[0] == c2);
            }
            if (c1 as u32) < (c2 as u32) {
                return Ordering::Less;
            } else {
                return Ordering::Greater;
            }
        }
        i = i + 1;
    }
    proof {
        lemma_cmp_from(k1@, k2@, i as int);
    }
    if n1 < n2 {
        Ordering::Less
    } else if n1 > n2 {
        Ordering::Greater
    } else {
        Ordering::Equal
    }
}

} // verus!
