//! The order in which an update's cosignature entries are held does not
//! reach what its content hash covers or what its operator signs.

use vstd::prelude::*;

use crate::bytes::{lemma_bytes_lt_irreflexive, lemma_bytes_lt_total, lemma_bytes_lt_transitive};
use crate::updates::{
    content_preimage, entry_before, insert_sorted, operator_data_of, sort_entries, CosignEntry,
    SignedLedgerUpdate,
};

verus! {

/// No two entries name the same cosigner.
pub open spec fn distinct_cosigners(s: Seq<CosignEntry>) -> bool {
    forall|i: int, j: int|
        0 <= i < s.len() && 0 <= j < s.len() && i != j ==> #[trigger] s[i].cosigner_pubkey@
            != #[trigger] s[j].cosigner_pubkey@
}

/// Every entry comes strictly before every later one.
pub open spec fn strictly_sorted(s: Seq<CosignEntry>) -> bool {
    forall|i: int, j: int| 0 <= i < j < s.len() ==> entry_before(#[trigger] s[i], #[trigger] s[j])
}

/// No entry of `s` names the cosigner of `x`.
pub open spec fn cosigner_absent(s: Seq<CosignEntry>, x: CosignEntry) -> bool {
    forall|i: int| 0 <= i < s.len() ==> #[trigger] s[i].cosigner_pubkey@ != x.cosigner_pubkey@
}

/// An entry is never strictly before itself.
proof fn lemma_entry_irreflexive(a: CosignEntry)
    ensures
        !entry_before(a, a),
{
    lemma_bytes_lt_irreflexive(a.cosigner_pubkey@);
}

/// Inserting an entry with a fresh cosigner into a strictly sorted sequence
/// keeps it strictly sorted and adds exactly that entry.
proof fn lemma_insert_sorted_facts(s: Seq<CosignEntry>, x: CosignEntry)
    requires
        strictly_sorted(s),
        cosigner_absent(s, x),
    ensures
        strictly_sorted(insert_sorted(s, x)),
        insert_sorted(s, x).len() == s.len() + 1,
        forall|y: CosignEntry| #[trigger] insert_sorted(s, x).contains(y) <==> (s.contains(y) || y == x),
    decreases s.len(),
{
    if s.len() == 0 {
        assert(insert_sorted(s, x) == seq![x]);
        assert forall|y: CosignEntry| #[trigger] insert_sorted(s, x).contains(y) <==> (s.contains(y) || y
            == x) by {
            if y == x {
                assert(seq![x][0] == x);
            }
        }
    } else if entry_before(x, s.last()) {
        let init = s.drop_last();
        let last = s.last();
        assert forall|i: int, j: int| 0 <= i < j < init.len() implies entry_before(
            #[trigger] init[i],
            #[trigger] init[j],
        ) by {
            assert(init[i] == s[i] && init[j] == s[j]);
        }
        assert forall|i: int| 0 <= i < init.len() implies #[trigger] init[i].cosigner_pubkey@
            != x.cosigner_pubkey@ by {
            assert(init[i] == s[i]);
        }
        lemma_insert_sorted_facts(init, x);
        let t = insert_sorted(init, x);
        assert forall|k: int| 0 <= k < t.len() implies entry_before(#[trigger] t[k], last) by {
            assert(t.contains(t[k]));
            if t[k] != x {
                assert(init.contains(t[k]));
                let m = choose|m: int| 0 <= m < init.len() && init[m] == t[k];
                assert(s[m] == init[m]);
                assert(s[s.len() - 1] == last);
            }
        }
        let r = t.push(last);
        assert(insert_sorted(s, x) == r);
        assert forall|i: int, j: int| 0 <= i < j < r.len() implies entry_before(
            #[trigger] r[i],
            #[trigger] r[j],
        ) by {
            assert(r[i] == t[i]);
            if j < r.len() - 1 {
                assert(r[j] == t[j]);
            } else {
                assert(r[j] == last);
            }
        }
        assert forall|y: CosignEntry| #[trigger] r.contains(y) <==> (s.contains(y) || y == x) by {
            if r.contains(y) {
                let k = choose|k: int| 0 <= k < r.len() && r[k] == y;
                if k == r.len() - 1 {
                    assert(s[s.len() - 1] == y);
                } else {
                    assert(t[k] == y);
                    assert(t.contains(y));
                    if y != x {
                        let m = choose|m: int| 0 <= m < init.len() && init[m] == y;
                        assert(s[m] == y);
                    }
                }
            }
            if s.contains(y) {
                let m = choose|m: int| 0 <= m < s.len() && s[m] == y;
                if m == s.len() - 1 {
                    assert(r[r.len() - 1] == y);
                } else {
                    assert(init[m] == y);
                    assert(init.contains(y));
                    assert(t.contains(y));
                    let k = choose|k: int| 0 <= k < t.len() && t[k] == y;
                    assert(r[k] == y);
                }
            }
            if y == x {
                assert(t.contains(x));
                let k = choose|k: int| 0 <= k < t.len() && t[k] == x;
                assert(r[k] == x);
            }
        }
    } else {
        let last = s.last();
        assert(s[s.len() - 1] == last);
        lemma_bytes_lt_total(x.cosigner_pubkey@, last.cosigner_pubkey@);
        assert(entry_before(last, x));
        let r = s.push(x);
        assert(insert_sorted(s, x) == r);
        assert forall|i: int| 0 <= i < s.len() implies entry_before(#[trigger] s[i], x) by {
            if i < s.len() - 1 {
                lemma_bytes_lt_transitive(
                    s[i].cosigner_pubkey@,
                    last.cosigner_pubkey@,
                    x.cosigner_pubkey@,
                );
            }
        }
        assert forall|i: int, j: int| 0 <= i < j < r.len() implies entry_before(
            #[trigger] r[i],
            #[trigger] r[j],
        ) by {
            assert(r[i] == s[i]);
            if j < s.len() {
                assert(r[j] == s[j]);
            }
        }
        assert forall|y: CosignEntry| #[trigger] r.contains(y) <==> (s.contains(y) || y == x) by {
            if r.contains(y) {
                let k = choose|k: int| 0 <= k < r.len() && r[k] == y;
                if k < s.len() {
                    assert(s[k] == y);
                }
            }
            if s.contains(y) {
                let m = choose|m: int| 0 <= m < s.len() && s[m] == y;
                assert(r[m] == y);
            }
            if y == x {
                assert(r[s.len() as int] == x);
            }
        }
    }
}

/// Sorting entries with distinct cosigners gives a strictly sorted sequence
/// of the same length holding the same entries.
proof fn lemma_sort_entries_facts(s: Seq<CosignEntry>)
    requires
        distinct_cosigners(s),
    ensures
        strictly_sorted(sort_entries(s)),
        sort_entries(s).len() == s.len(),
        forall|y: CosignEntry| #[trigger] sort_entries(s).contains(y) <==> s.contains(y),
    decreases s.len(),
{
    if s.len() == 0 {
    } else {
        let init = s.drop_last();
        let last = s.last();
        assert(s[s.len() - 1] == last);
        assert forall|i: int, j: int|
            0 <= i < init.len() && 0 <= j < init.len() && i != j implies #[trigger] init[i].cosigner_pubkey@
            != #[trigger] init[j].cosigner_pubkey@ by {
            assert(init[i] == s[i] && init[j] == s[j]);
        }
        lemma_sort_entries_facts(init);
        let r0 = sort_entries(init);
        assert forall|i: int| 0 <= i < r0.len() implies #[trigger] r0[i].cosigner_pubkey@
            != last.cosigner_pubkey@ by {
            assert(r0.contains(r0[i]));
            let m = choose|m: int| 0 <= m < init.len() && init[m] == r0[i];
            assert(s[m] == init[m]);
        }
        lemma_insert_sorted_facts(r0, last);
        assert forall|y: CosignEntry| #[trigger] sort_entries(s).contains(y) <==> s.contains(y) by {
            if s.contains(y) && y != last {
                let m = choose|m: int| 0 <= m < s.len() && s[m] == y;
                assert(init[m] == y);
                assert(init.contains(y));
            }
            if init.contains(y) {
                let m = choose|m: int| 0 <= m < init.len() && init[m] == y;
                assert(s[m] == y);
            }
        }
    }
}

/// Two strictly sorted sequences of one length holding the same entries are
/// equal.
proof fn lemma_strictly_sorted_unique(a: Seq<CosignEntry>, b: Seq<CosignEntry>)
    requires
        strictly_sorted(a),
        strictly_sorted(b),
        a.len() == b.len(),
        forall|y: CosignEntry| #[trigger] a.contains(y) <==> b.contains(y),
    ensures
        a == b,
    decreases a.len(),
{
    if a.len() == 0 {
        assert(a =~= b);
    } else {
        let n = a.len() as int;
        let la = a[n - 1];
        let lb = b[n - 1];
        assert(a.contains(la));
        assert(b.contains(lb));
        if la != lb {
            assert(b.contains(la));
            assert(a.contains(lb));
            let k = choose|k: int| 0 <= k < n && b[k] == la;
            let m = choose|m: int| 0 <= m < n && a[m] == lb;
            assert(k != n - 1);
            assert(m != n - 1);
            assert(entry_before(b[k], b[n - 1]));
            assert(entry_before(a[m], a[n - 1]));
            lemma_bytes_lt_transitive(la.cosigner_pubkey@, lb.cosigner_pubkey@, la.cosigner_pubkey@);
            lemma_entry_irreflexive(la);
        }
        let a0 = a.drop_last();
        let b0 = b.drop_last();
        assert forall|i: int, j: int| 0 <= i < j < a0.len() implies entry_before(
            #[trigger] a0[i],
            #[trigger] a0[j],
        ) by {
            assert(a0[i] == a[i] && a0[j] == a[j]);
        }
        assert forall|i: int, j: int| 0 <= i < j < b0.len() implies entry_before(
            #[trigger] b0[i],
            #[trigger] b0[j],
        ) by {
            assert(b0[i] == b[i] && b0[j] == b[j]);
        }
        assert forall|y: CosignEntry| #[trigger] a0.contains(y) <==> b0.contains(y) by {
            if a0.contains(y) {
                let m = choose|m: int| 0 <= m < a0.len() && a0[m] == y;
                assert(a[m] == y);
                assert(entry_before(a[m], a[n - 1]));
                lemma_entry_irreflexive(y);
                assert(a.contains(y));
                assert(b.contains(y));
                let k = choose|k: int| 0 <= k < n && b[k] == y;
                assert(k != n - 1);
                assert(b0[k] == y);
            }
            if b0.contains(y) {
                let k = choose|k: int| 0 <= k < b0.len() && b0[k] == y;
                assert(b[k] == y);
                assert(entry_before(b[k], b[n - 1]));
                lemma_entry_irreflexive(y);
                assert(b.contains(y));
                assert(a.contains(y));
                let m = choose|m: int| 0 <= m < n && a[m] == y;
                assert(m != n - 1);
                assert(a0[m] == y);
            }
        }
        lemma_strictly_sorted_unique(a0, b0);
        assert(a =~= a0.push(la));
        assert(b =~= b0.push(lb));
    }
}

/// A reordering of entries with distinct cosigners has distinct cosigners
/// too.
proof fn lemma_reordering_keeps_distinct(s1: Seq<CosignEntry>, s2: Seq<CosignEntry>)
    requires
        s1.to_multiset() == s2.to_multiset(),
        distinct_cosigners(s1),
    ensures
        distinct_cosigners(s2),
        s1.len() == s2.len(),
        forall|y: CosignEntry| #[trigger] s1.contains(y) <==> s2.contains(y),
{
    vstd::seq_lib::to_multiset_len(s1);
    vstd::seq_lib::to_multiset_len(s2);
    assert forall|i: int, j: int| 0 <= i < s1.len() && 0 <= j < s1.len() && i != j implies s1[i]
        != s1[j] by {
        assert(s1[i].cosigner_pubkey@ != s1[j].cosigner_pubkey@);
    }
    assert(s1.no_duplicates());
    s1.lemma_multiset_has_no_duplicates();
    s2.lemma_multiset_has_no_duplicates_conv();
    assert forall|y: CosignEntry| #[trigger] s1.contains(y) <==> s2.contains(y) by {
        vstd::seq_lib::to_multiset_contains(s1, y);
        vstd::seq_lib::to_multiset_contains(s2, y);
    }
    assert forall|i: int, j: int|
        0 <= i < s2.len() && 0 <= j < s2.len() && i != j implies #[trigger] s2[i].cosigner_pubkey@
        != #[trigger] s2[j].cosigner_pubkey@ by {
        assert(s2[i] != s2[j]);
        assert(s2.contains(s2[i]) && s2.contains(s2[j]));
        assert(s1.contains(s2[i]) && s1.contains(s2[j]));
        let m = choose|m: int| 0 <= m < s1.len() && s1[m] == s2[i];
        let k = choose|k: int| 0 <= k < s1.len() && s1[k] == s2[j];
        assert(m != k);
    }
}

/// Holding an update's cosignature entries, whose cosigners are distinct, in
/// another order changes neither what its content hash covers nor what its
/// operator signs.
pub proof fn lemma_cosignature_order_irrelevant(u1: SignedLedgerUpdate, u2: SignedLedgerUpdate)
    requires
        u1.sequence_number == u2.sequence_number,
        u1.previous_hash@ == u2.previous_hash@,
        u1.message@ == u2.message@,
        u1.member_ledger_hash == u2.member_ledger_hash,
        u1.cosign_signature@ == u2.cosign_signature@,
        u1.cosignatures@.to_multiset() == u2.cosignatures@.to_multiset(),
        distinct_cosigners(u1.cosignatures@),
    ensures
        content_preimage(u1) == content_preimage(u2),
        operator_data_of(u1) == operator_data_of(u2),
{
    let s1 = u1.cosignatures@;
    let s2 = u2.cosignatures@;
    lemma_reordering_keeps_distinct(s1, s2);
    lemma_sort_entries_facts(s1);
    lemma_sort_entries_facts(s2);
    assert forall|y: CosignEntry| #[trigger] sort_entries(s1).contains(y) <==> sort_entries(
        s2,
    ).contains(y) by {
        assert(sort_entries(s1).contains(y) <==> s1.contains(y));
        assert(sort_entries(s2).contains(y) <==> s2.contains(y));
    }
    lemma_strictly_sorted_unique(sort_entries(s1), sort_entries(s2));
}

} // verus!
