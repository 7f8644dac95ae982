//! Lexicographic ordering of byte strings.
//!
//! The signing-key ledger iterates in ascending key-byte order and a
//! contract-creation draft keeps its storage slots sorted ascending by key;
//! both orders are this one.

use vstd::prelude::*;

verus! {

/// `a` comes strictly before `b` in lexicographic byte order.
pub open spec fn lex_lt(a: Seq<u8>, b: Seq<u8>) -> bool
    decreases a.len(),
{
    if b.len() == 0 {
        false
    } else if a.len() == 0 {
        true
    } else if a[0] < b[0] {
        true
    } else if a[0] == b[0] {
        lex_lt(a.skip(1), b.skip(1))
    } else {
        false
    }
}

pub proof fn lemma_lex_irreflexive(a: Seq<u8>)
    ensures
        !lex_lt(a, a),
    decreases a.len(),
{
    if a.len() > 0 {
        lemma_lex_irreflexive(a.skip(1));
    }
}

/// If the two strings agree strictly below `j` and differ at `j`, the one
/// with the smaller byte at `j` comes first.
pub proof fn lemma_lex_lt_from_first_diff(a: Seq<u8>, b: Seq<u8>, j: int)
    requires
        0 <= j < a.len(),
        j < b.len(),
        forall|k: int| 0 <= k < j ==> a[k] == b[k],
        a[j] < b[j],
    ensures
        lex_lt(a, b),
    decreases j,
{
    if j > 0 {
        assert(a[0] == b[0]);
        assert forall|k: int| 0 <= k < j - 1 implies a.skip(1)[k] == b.skip(1)[k] by {
            assert(a.skip(1)[k] == a[k + 1]);
            assert(b.skip(1)[k] == b[k + 1]);
        }
        assert(a.skip(1)[j - 1] == a[j]);
        assert(b.skip(1)[j - 1] == b[j]);
        lemma_lex_lt_from_first_diff(a.skip(1), b.skip(1), j - 1);
    }
}

pub proof fn lemma_lex_transitive(a: Seq<u8>, b: Seq<u8>, c: Seq<u8>)
    requires
        lex_lt(a, b),
        lex_lt(b, c),
    ensures
        lex_lt(a, c),
    decreases a.len(),
{
    if a.len() == 0 {
        assert(c.len() > 0);
    } else {
        assert(b.len() > 0);
        assert(c.len() > 0);
        if a[0] == b[0] && b[0] == c[0] {
            lemma_lex_transitive(a.skip(1), b.skip(1), c.skip(1));
        }
    }
}

/// Any two byte strings are ordered or equal.
pub proof fn lemma_lex_trichotomy(a: Seq<u8>, b: Seq<u8>)
    ensures
        lex_lt(a, b) || lex_lt(b, a) || a == b,
    decreases a.len(),
{
    if a.len() == 0 && b.len() == 0 {
        assert(a =~= b);
    } else if a.len() > 0 && b.len() > 0 && a[0] == b[0] {
        lemma_lex_trichotomy(a.skip(1), b.skip(1));
        if a.skip(1) == b.skip(1) {
            assert forall|i: int| 0 <= i < a.len() implies a[i] == b[i] by {
                if i > 0 {
                    assert(a.skip(1)[i - 1] == a[i]);
                    assert(b.skip(1)[i - 1] == b[i]);
                }
            }
            assert(a.len() == b.len());
            assert(a =~= b);
        }
    }
}

pub proof fn lemma_lex_asymmetric(a: Seq<u8>, b: Seq<u8>)
    requires
        lex_lt(a, b),
    ensures
        !lex_lt(b, a),
        a != b,
{
    lemma_lex_irreflexive(a);
    if lex_lt(b, a) {
        lemma_lex_transitive(a, b, a);
    }
}

/// Outcome of comparing two byte strings.
#[derive(Clone, Copy, Debug, PartialEq, Eq, Structural)]
pub enum ByteOrder {
    Less,
    Equal,
    Greater,
}

/// Compare two 32-byte words in lexicographic order.
pub fn cmp_bytes32(a: &[u8; 32], b: &[u8; 32]) -> (r: ByteOrder)
    ensures
        r == ByteOrder::Less ==> lex_lt(a@, b@),
        r == ByteOrder::Equal ==> a@ == b@,
        r == ByteOrder::Greater ==> lex_lt(b@, a@),
{
    let mut i: usize = 0;
    while i < 32
        invariant
            0 <= i <= 32,
            forall|k: int| 0 <= k < i ==> a@[k] == b@[k],
        decreases 32 - i,
    {
        if a[i] < b[i] {
            proof {
                lemma_lex_lt_from_first_diff(a@, b@, i as int);
            }
            return ByteOrder::Less;
        }
        if a[i] > b[i] {
            proof {
                lemma_lex_lt_from_first_diff(b@, a@, i as int);
            }
            return ByteOrder::Greater;
        }
        i += 1;
    }
    proof {
        assert(a@ =~= b@);
    }
    ByteOrder::Equal
}

} // verus!
