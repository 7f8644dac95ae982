//! The signing-key ledger: a deterministic ordered map from signing key to
//! witness slot index.
//!
//! Entries are kept sorted ascending by key bytes, so iteration follows the
//! natural key-byte order, not insertion order. The witness index of a key is
//! fixed at first insertion and never changes.

use vstd::prelude::*;
use crate::bytes::{
    ByteOrder, cmp_bytes32, lex_lt, lemma_lex_transitive, lemma_lex_trichotomy,
    lemma_lex_asymmetric,
};
use crate::crypto::SigningKey;

verus! {

/// One ledger entry: a signing key and the witness slot it was assigned.
#[derive(Clone, Copy, Debug)]
pub struct LedgerEntry {
    pub key: SigningKey,
    pub index: u8,
}

/// The mathematical value of a [`LedgerEntry`].
pub ghost struct LedgerEntryV {
    pub key: Seq<u8>,
    pub index: u8,
}

impl View for LedgerEntry {
    type V = LedgerEntryV;

    open spec fn view(&self) -> LedgerEntryV {
        LedgerEntryV { key: self.key@, index: self.index }
    }
}

/// Some entry of `s` holds the key `k`.
pub open spec fn ledger_contains(s: Seq<LedgerEntryV>, k: Seq<u8>) -> bool {
    exists|i: int| 0 <= i < s.len() && s[i].key == k
}

/// The witness index recorded for `k` (meaningful only when `s` holds `k`).
pub open spec fn ledger_index_of(s: Seq<LedgerEntryV>, k: Seq<u8>) -> u8
    decreases s.len(),
{
    if s.len() == 0 {
        0
    } else if s[0].key == k {
        s[0].index
    } else {
        ledger_index_of(s.skip(1), k)
    }
}

/// Entries strictly ascending by key bytes (so keys are distinct).
pub open spec fn ledger_sorted(s: Seq<LedgerEntryV>) -> bool {
    forall|i: int, j: int| 0 <= i < j < s.len() ==> lex_lt(s[i].key, s[j].key)
}

/// `e` inserted into `s` at its key-order position.
pub open spec fn spec_ledger_insert(s: Seq<LedgerEntryV>, e: LedgerEntryV) -> Seq<LedgerEntryV>
    decreases s.len(),
{
    if s.len() == 0 {
        seq![e]
    } else if lex_lt(e.key, s[0].key) {
        seq![e] + s
    } else {
        seq![s[0]] + spec_ledger_insert(s.skip(1), e)
    }
}

/// Every element of the inserted sequence is `e` or an element of `s`.
pub proof fn lemma_ledger_insert_elements(s: Seq<LedgerEntryV>, e: LedgerEntryV)
    ensures
        spec_ledger_insert(s, e).len() == s.len() + 1,
        forall|i: int|
            0 <= i < spec_ledger_insert(s, e).len() ==> spec_ledger_insert(s, e)[i] == e
                || s.contains(#[trigger] spec_ledger_insert(s, e)[i]),
    decreases s.len(),
{
    let r = spec_ledger_insert(s, e);
    if s.len() == 0 {
    } else if lex_lt(e.key, s[0].key) {
        assert forall|i: int| 0 <= i < r.len() implies r[i] == e || s.contains(r[i]) by {
            if i > 0 {
                assert(r[i] == s[i - 1]);
            }
        }
    } else {
        lemma_ledger_insert_elements(s.skip(1), e);
        let rt = spec_ledger_insert(s.skip(1), e);
        assert forall|i: int| 0 <= i < r.len() implies r[i] == e || s.contains(r[i]) by {
            if i == 0 {
                assert(s.contains(s[0]));
            } else {
                assert(r[i] == rt[i - 1]);
                if rt[i - 1] != e {
                    assert(s.skip(1).contains(rt[i - 1]));
                    let w = choose|w: int|
                        0 <= w < s.skip(1).len() && s.skip(1)[w] == rt[i - 1];
                    assert(s[w + 1] == rt[i - 1]);
                }
            }
        }
    }
}

/// Inserting a fresh key keeps the ledger sorted, adds exactly that entry,
/// and leaves every other key's recorded index unchanged.
pub proof fn lemma_ledger_insert_properties(s: Seq<LedgerEntryV>, e: LedgerEntryV)
    requires
        ledger_sorted(s),
        !ledger_contains(s, e.key),
    ensures
        ledger_sorted(spec_ledger_insert(s, e)),
        spec_ledger_insert(s, e).len() == s.len() + 1,
        ledger_contains(spec_ledger_insert(s, e), e.key),
        ledger_index_of(spec_ledger_insert(s, e), e.key) == e.index,
        forall|k: Seq<u8>|
            k != e.key ==> #[trigger] ledger_contains(spec_ledger_insert(s, e), k)
                == ledger_contains(s, k),
        forall|k: Seq<u8>|
            k != e.key && ledger_contains(s, k) ==> #[trigger] ledger_index_of(
                spec_ledger_insert(s, e),
                k,
            ) == ledger_index_of(s, k),
    decreases s.len(),
{
    let r = spec_ledger_insert(s, e);
    lemma_ledger_insert_elements(s, e);
    if s.len() == 0 {
        assert(r =~= seq![e]);
        assert(r[0].key == e.key);
        assert(ledger_contains(r, e.key));
        assert forall|k: Seq<u8>| k != e.key implies #[trigger] ledger_contains(r, k)
            == ledger_contains(s, k) by {
            assert(!ledger_contains(r, k));
        }
    } else if lex_lt(e.key, s[0].key) {
        assert(r =~= seq![e] + s);
        assert forall|i: int, j: int| 0 <= i < j < r.len() implies lex_lt(
            r[i].key,
            r[j].key,
        ) by {
            if i == 0 {
                if j == 1 {
                } else {
                    lemma_lex_transitive(e.key, s[0].key, s[j - 1].key);
                }
            }
        }
        assert(r[0].key == e.key);
        assert(ledger_contains(r, e.key));
        assert forall|k: Seq<u8>| k != e.key implies #[trigger] ledger_contains(r, k)
            == ledger_contains(s, k) by {
            if ledger_contains(r, k) {
                let i = choose|i: int| 0 <= i < r.len() && r[i].key == k;
                assert(i > 0);
                assert(s[i - 1].key == k);
            }
            if ledger_contains(s, k) {
                let i = choose|i: int| 0 <= i < s.len() && s[i].key == k;
                assert(r[i + 1].key == k);
            }
        }
        assert(r.skip(1) =~= s);
    } else {
        lemma_lex_trichotomy(e.key, s[0].key);
        assert(s[0].key != e.key) by {
            assert(s.contains(s[0]));
        }
        assert(lex_lt(s[0].key, e.key));
        assert(ledger_sorted(s.skip(1))) by {
            assert forall|i: int, j: int| 0 <= i < j < s.skip(1).len() implies lex_lt(
                s.skip(1)[i].key,
                s.skip(1)[j].key,
            ) by {
                assert(s.skip(1)[i] == s[i + 1]);
                assert(s.skip(1)[j] == s[j + 1]);
            }
        }
        assert(!ledger_contains(s.skip(1), e.key)) by {
            if ledger_contains(s.skip(1), e.key) {
                let i = choose|i: int| 0 <= i < s.skip(1).len() && s.skip(1)[i].key == e.key;
                assert(s[i + 1].key == e.key);
            }
        }
        lemma_ledger_insert_properties(s.skip(1), e);
        let rt = spec_ledger_insert(s.skip(1), e);
        assert(r =~= seq![s[0]] + rt);
        lemma_ledger_insert_elements(s.skip(1), e);
        // s[0] comes before everything in the tail insertion
        assert forall|i: int, j: int| 0 <= i < j < r.len() implies lex_lt(
            r[i].key,
            r[j].key,
        ) by {
            if i == 0 {
                assert(r[j] == rt[j - 1]);
                if rt[j - 1] == e {
                } else {
                    assert(s.skip(1).contains(rt[j - 1]));
                    let w = choose|w: int|
                        0 <= w < s.skip(1).len() && s.skip(1)[w] == rt[j - 1];
                    assert(s.skip(1)[w] == s[w + 1]);
                }
            } else {
                assert(r[i] == rt[i - 1]);
                assert(r[j] == rt[j - 1]);
            }
        }
        // containment and indices
        assert(r[0].key != e.key);
        assert(ledger_contains(rt, e.key));
        let ei = choose|i: int| 0 <= i < rt.len() && rt[i].key == e.key;
        assert(r[ei + 1].key == e.key);
        assert(ledger_contains(r, e.key));
        assert(r.skip(1) =~= rt);
        assert(ledger_index_of(r, e.key) == ledger_index_of(rt, e.key));
        assert forall|k: Seq<u8>| k != e.key implies #[trigger] ledger_contains(r, k)
            == ledger_contains(s, k) by {
            if ledger_contains(r, k) {
                let i = choose|i: int| 0 <= i < r.len() && r[i].key == k;
                if i == 0 {
                    assert(s[0].key == k);
                } else {
                    assert(rt[i - 1].key == k);
                    assert(ledger_contains(s.skip(1), k));
                    let w = choose|w: int|
                        0 <= w < s.skip(1).len() && s.skip(1)[w].key == k;
                    assert(s[w + 1].key == k);
                }
            }
            if ledger_contains(s, k) {
                let i = choose|i: int| 0 <= i < s.len() && s[i].key == k;
                if i == 0 {
                    assert(r[0].key == k);
                } else {
                    assert(s.skip(1)[i - 1].key == k);
                    assert(ledger_contains(s.skip(1), k));
                    assert(ledger_contains(rt, k));
                    let w = choose|w: int| 0 <= w < rt.len() && rt[w].key == k;
                    assert(r[w + 1].key == k);
                }
            }
        }
        assert forall|k: Seq<u8>| k != e.key && ledger_contains(s, k) implies
            #[trigger] ledger_index_of(r, k) == ledger_index_of(s, k) by {
            assert(r[0] == s[0]);
            if s[0].key == k {
                assert(ledger_index_of(r, k) == s[0].index);
                assert(ledger_index_of(s, k) == s[0].index);
            } else {
                assert(ledger_contains(s.skip(1), k)) by {
                    let i = choose|i: int| 0 <= i < s.len() && s[i].key == k;
                    assert(i > 0);
                    assert(s.skip(1)[i - 1].key == k);
                }
                assert(ledger_index_of(r, k) == ledger_index_of(r.skip(1), k));
                assert(r.skip(1) =~= rt);
                assert(ledger_index_of(rt, k) == ledger_index_of(s.skip(1), k));
                assert(ledger_index_of(s, k) == ledger_index_of(s.skip(1), k));
            }
        }
    }
}

/// Inserting at the position where every earlier key comes before and the
/// next key (if any) comes after is exactly the key-order insertion.
pub proof fn lemma_ledger_insert_at_position(s: Seq<LedgerEntryV>, e: LedgerEntryV, p: int)
    requires
        0 <= p <= s.len(),
        forall|t: int| 0 <= t < p ==> lex_lt(#[trigger] s[t].key, e.key),
        p < s.len() ==> lex_lt(e.key, s[p].key),
    ensures
        s.insert(p, e) == spec_ledger_insert(s, e),
    decreases p,
{
    if p == 0 {
        if s.len() == 0 {
            assert(s.insert(0, e) =~= seq![e]);
        } else {
            assert(s.insert(0, e) =~= seq![e] + s);
        }
    } else {
        lemma_lex_asymmetric(s[0].key, e.key);
        assert forall|t: int| 0 <= t < p - 1 implies lex_lt(
            #[trigger] s.skip(1)[t].key,
            e.key,
        ) by {
            assert(s.skip(1)[t] == s[t + 1]);
        }
        if p - 1 < s.skip(1).len() {
            assert(s.skip(1)[p - 1] == s[p]);
        }
        lemma_ledger_insert_at_position(s.skip(1), e, p - 1);
        assert(spec_ledger_insert(s, e) == seq![s[0]] + spec_ledger_insert(s.skip(1), e));
        assert(s.insert(p, e) =~= seq![s[0]] + s.skip(1).insert(p - 1, e));
    }
}

/// If the first match for `k` in `s` is at position `j`, the recorded index
/// is that entry's.
pub proof fn lemma_ledger_index_at_match(s: Seq<LedgerEntryV>, k: Seq<u8>, j: int)
    requires
        0 <= j < s.len(),
        s[j].key == k,
        forall|t: int| 0 <= t < j ==> s[t].key != k,
    ensures
        ledger_contains(s, k),
        ledger_index_of(s, k) == s[j].index,
    decreases j,
{
    if j > 0 {
        assert forall|t: int| 0 <= t < j - 1 implies s.skip(1)[t].key != k by {
            assert(s.skip(1)[t] == s[t + 1]);
        }
        assert(s.skip(1)[j - 1] == s[j]);
        lemma_ledger_index_at_match(s.skip(1), k, j - 1);
    }
}

/// The views of a sequence of ledger entries.
pub open spec fn views_of_entries(s: Seq<LedgerEntry>) -> Seq<LedgerEntryV> {
    s.map_values(|e: LedgerEntry| e@)
}

/// The signing-key ledger. Entries are sorted strictly ascending by key
/// bytes; each key's witness index was fixed when the key was first added.
#[derive(Debug)]
pub struct KeyLedger {
    entries: Vec<LedgerEntry>,
}

impl View for KeyLedger {
    type V = Seq<LedgerEntryV>;

    closed spec fn view(&self) -> Seq<LedgerEntryV> {
        views_of_entries(self.entries@)
    }
}

impl KeyLedger {
    /// The empty ledger.
    pub fn new() -> (r: KeyLedger)
        ensures
            r@ == Seq::<LedgerEntryV>::empty(),
            ledger_sorted(r@),
    {
        let r = KeyLedger { entries: Vec::new() };
        proof {
            assert(r@ =~= Seq::<LedgerEntryV>::empty());
        }
        r
    }

    /// Number of distinct keys.
    pub fn len(&self) -> (r: usize)
        ensures
            r == self@.len(),
    {
        self.entries.len()
    }

    /// The key of the entry at position `i` in key order.
    pub fn key_at(&self, i: usize) -> (r: SigningKey)
        requires
            i < self@.len(),
        ensures
            r@ == self@[i as int].key,
    {
        self.entries[i].key
    }

    /// The witness index of the entry at position `i` in key order.
    pub fn index_at(&self, i: usize) -> (r: u8)
        requires
            i < self@.len(),
        ensures
            r == self@[i as int].index,
    {
        self.entries[i].index
    }

    /// The witness index recorded for `key`, if the key is known.
    pub fn get(&self, key: &SigningKey) -> (r: Option<u8>)
        ensures
            r == if ledger_contains(self@, key@) {
                Some(ledger_index_of(self@, key@))
            } else {
                None::<u8>
            },
    {
        let n = self.entries.len();
        let mut i: usize = 0;
        while i < n
            invariant
                0 <= i <= n,
                n == self@.len(),
                forall|t: int| 0 <= t < i ==> self@[t].key != key@,
            decreases n - i,
        {
            match cmp_bytes32(self.entries[i].key.as_bytes(), key.as_bytes()) {
                ByteOrder::Equal => {
                    proof {
                        lemma_ledger_index_at_match(self@, key@, i as int);
                    }
                    return Some(self.entries[i].index);
                },
                ByteOrder::Less => {
                    proof {
                        lemma_lex_asymmetric(self@[i as int].key, key@);
                    }
                },
                ByteOrder::Greater => {
                    proof {
                        lemma_lex_asymmetric(key@, self@[i as int].key);
                    }
                },
            }
            i += 1;
        }
        None
    }

    /// Record a fresh key with the witness index it was assigned. The entry
    /// takes its key-order position; nothing else moves.
    pub fn insert_new(&mut self, key: &SigningKey, index: u8)
        requires
            ledger_sorted(old(self)@),
            !ledger_contains(old(self)@, key@),
        ensures
            final(self)@ == spec_ledger_insert(
                old(self)@,
                LedgerEntryV { key: key@, index },
            ),
    {
        let ghost e = LedgerEntryV { key: key@, index };
        let ghost pre = self@;
        let n = self.entries.len();
        let mut p: usize = 0;
        let mut scanning = true;
        while scanning && p < n
            invariant
                0 <= p <= n,
                n == self@.len(),
                self@ == pre,
                !ledger_contains(pre, key@),
                forall|t: int| 0 <= t < p ==> lex_lt(#[trigger] pre[t].key, key@),
                !scanning ==> p < n && lex_lt(key@, pre[p as int].key),
            decreases n - p + if scanning { 1int } else { 0int },
        {
            match cmp_bytes32(key.as_bytes(), self.entries[p].key.as_bytes()) {
                ByteOrder::Less => {
                    scanning = false;
                },
                ByteOrder::Equal => {
                    proof {
                        assert(pre[p as int].key == key@);
                        assert(false);
                    }
                    scanning = false;
                },
                ByteOrder::Greater => {
                    p += 1;
                },
            }
        }
        self.entries.insert(p, LedgerEntry { key: *key, index });
        proof {
            assert(self@ =~= pre.insert(p as int, e));
            lemma_ledger_insert_at_position(pre, e, p as int);
        }
    }

    /// The keys in ascending key-byte order.
    pub fn keys(&self) -> (r: Vec<SigningKey>)
        ensures
            r@.len() == self@.len(),
            forall|i: int| 0 <= i < r@.len() ==> r@[i]@ == self@[i].key,
    {
        let mut r: Vec<SigningKey> = Vec::new();
        let mut i: usize = 0;
        let n = self.entries.len();
        while i < n
            invariant
                0 <= i <= n,
                n == self@.len(),
                r@.len() == i,
                forall|t: int| 0 <= t < i ==> r@[t]@ == self@[t].key,
            decreases n - i,
        {
            r.push(self.entries[i].key);
            i += 1;
        }
        r
    }
}

} // verus!
