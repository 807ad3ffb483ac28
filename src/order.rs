//! Lexicographic order on byte strings, the order of Rust's `[u8]` and `str`.

use vstd::prelude::*;

verus! {

/// `a` comes before `b` or equals it, comparing byte by byte, a proper prefix first.
pub open spec fn lex_le(a: Seq<u8>, b: Seq<u8>) -> bool
    decreases a.len(),
{
    if a.len() == 0 {
        true
    } else if b.len() == 0 {
        false
    } else if a[0] != b[0] {
        a[0] < b[0]
    } else {
        lex_le(a.drop_first(), b.drop_first())
    }
}

/// `(s1, c1)` comes before `(s2, c2)` or equals it: by the byte string first,
/// then by the number.
pub open spec fn pair_le(s1: Seq<u8>, c1: int, s2: Seq<u8>, c2: int) -> bool {
    (lex_le(s1, s2) && s1 != s2) || (s1 == s2 && c1 <= c2)
}

/// The byte order is total, antisymmetric and transitive.
pub proof fn lemma_lex_order(a: Seq<u8>, b: Seq<u8>, c: Seq<u8>)
    ensures
        lex_le(a, b) || lex_le(b, a),
        lex_le(a, b) && lex_le(b, a) ==> a == b,
        lex_le(a, b) && lex_le(b, c) ==> lex_le(a, c),
    decreases a.len(),
{
    if a.len() > 0 && b.len() > 0 && c.len() > 0 {
        lemma_lex_order(a.drop_first(), b.drop_first(), c.drop_first());
        if lex_le(a, b) && lex_le(b, a) {
            assert(a.drop_first() == b.drop_first());
            assert forall|i: int| 0 <= i < a.len() implies a[i] == b[i] by {
                if i > 0 {
                    assert(a[i] == a.drop_first()[i - 1]);
                    assert(b[i] == b.drop_first()[i - 1]);
                }
            }
            assert(a =~= b);
        }
    } else if a.len() > 0 && b.len() > 0 {
        lemma_lex_order(a.drop_first(), b.drop_first(), b.drop_first());
        if lex_le(a, b) && lex_le(b, a) {
            assert(a.drop_first() == b.drop_first());
            assert forall|i: int| 0 <= i < a.len() implies a[i] == b[i] by {
                if i > 0 {
                    assert(a[i] == a.drop_first()[i - 1]);
                    assert(b[i] == b.drop_first()[i - 1]);
                }
            }
            assert(a =~= b);
        }
    } else if a.len() == 0 && b.len() == 0 {
        assert(a =~= b);
    }
}

/// The pair order is total, antisymmetric and transitive.
pub proof fn lemma_pair_order(s1: Seq<u8>, c1: int, s2: Seq<u8>, c2: int, s3: Seq<u8>, c3: int)
    ensures
        pair_le(s1, c1, s2, c2) || pair_le(s2, c2, s1, c1),
        pair_le(s1, c1, s2, c2) && pair_le(s2, c2, s1, c1) ==> s1 == s2 && c1 == c2,
        pair_le(s1, c1, s2, c2) && pair_le(s2, c2, s3, c3) ==> pair_le(s1, c1, s3, c3),
{
    lemma_lex_order(s1, s2, s3);
    lemma_lex_order(s2, s1, s3);
    lemma_lex_order(s1, s3, s2);
    lemma_lex_order(s3, s1, s2);
}

proof fn lemma_lex_le_skip(a: Seq<u8>, b: Seq<u8>, i: int)
    requires
        0 <= i < a.len(),
        i < b.len(),
        a[i] == b[i],
    ensures
        lex_le(a.skip(i), b.skip(i)) == lex_le(a.skip(i + 1), b.skip(i + 1)),
{
    assert(a.skip(i).drop_first() =~= a.skip(i + 1));
    assert(b.skip(i).drop_first() =~= b.skip(i + 1));
}

/// Whether `a` comes before `b` or equals it, byte by byte.
pub fn bytes_le(a: &[u8], b: &[u8]) -> (r: bool)
    ensures
        r == lex_le(a@, b@),
{
    let mut i: usize = 0;
    assert(a@.skip(0) =~= a@);
    assert(b@.skip(0) =~= b@);
    while i < a.len() && i < b.len()
        invariant
            i <= a@.len(),
            i <= b@.len(),
            lex_le(a@, b@) == lex_le(a@.skip(i as int), b@.skip(i as int)),
        decreases a@.len() - i,
    {
        if a[i] != b[i] {
            return a[i] < b[i];
        }
        proof {
            lemma_lex_le_skip(a@, b@, i as int);
        }
        i = i + 1;
    }
    i == a.len()
}

} // verus!
