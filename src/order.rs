use vstd::prelude::*;
use vstd::seq_lib::{to_multiset_insert, to_multiset_remove, to_multiset_contains};
use vstd::utf8::{encode_utf8, encode_utf8_decode_utf8};
use core::cmp::Ordering;
use crate::git_change::{change_cmp, GitChange, GitChangeStatus};

verus! {

/// Lexicographic order of two byte sequences: the first differing byte decides,
/// and a proper prefix comes first.
pub open spec fn bytes_cmp(a: Seq<u8>, b: Seq<u8>) -> Ordering
    decreases a.len(),
{
    if a.len() == 0 {
        if b.len() == 0 {
            Ordering::Equal
        } else {
            Ordering::Less
        }
    } else if b.len() == 0 {
        Ordering::Greater
    } else if a[0] < b[0] {
        Ordering::Less
    } else if a[0] > b[0] {
        Ordering::Greater
    } else {
        bytes_cmp(a.drop_first(), b.drop_first())
    }
}

/// Compares two byte slices lexicographically.
pub fn compare_bytes(a: &[u8], b: &[u8]) -> (r: Ordering)
    ensures
        r == bytes_cmp(a@, b@),
{
    let mut i: usize = 0;
    assert(a@.skip(0) =~= a@);
    assert(b@.skip(0) =~= b@);
    while i < a.len() && i < b.len()
        invariant
            i <= a@.len(),
            i <= b@.len(),
            bytes_cmp(a@, b@) == bytes_cmp(a@.skip(i as int), b@.skip(i as int)),
        decreases a@.len() - i,
    {
        if a[i] < b[i] {
            return Ordering::Less;
        } else if a[i] > b[i] {
            return Ordering::Greater;
        }
        assert(a@.skip(i as int).drop_first() =~= a@.skip(i + 1));
        assert(b@.skip(i as int).drop_first() =~= b@.skip(i + 1));
        i = i + 1;
    }
    assert(a@.skip(i as int).len() == a@.len() - i);
    assert(b@.skip(i as int).len() == b@.len() - i);
    if i < b.len() {
        Ordering::Less
    } else if i < a.len() {
        Ordering::Greater
    } else {
        Ordering::Equal
    }
}

/// Swapping the operands of `bytes_cmp` swaps `Less` and `Greater`, and the two
/// sequences compare equal exactly when they are the same.
pub proof fn lemma_bytes_cmp_antisymmetric(a: Seq<u8>, b: Seq<u8>)
    ensures
        (bytes_cmp(a, b) == Ordering::Less) == (bytes_cmp(b, a) == Ordering::Greater),
        (bytes_cmp(a, b) == Ordering::Equal) == (a == b),
    decreases a.len(),
{
    if a.len() > 0 && b.len() > 0 && a[0] == b[0] {
        lemma_bytes_cmp_antisymmetric(a.drop_first(), b.drop_first());
        if a.drop_first() == b.drop_first() {
            assert forall|k: int| 0 <= k < a.len() implies a[k] == b[k] by {
                if k > 0 {
                    assert(a[k] == a.drop_first()[k - 1]);
                    assert(b[k] == b.drop_first()[k - 1]);
                }
            }
            assert(a =~= b);
        }
    }
    if a.len() == 0 && b.len() == 0 {
        assert(a =~= b);
    }
}

/// `bytes_cmp` never answers `Greater` along a chain of `Less`-or-`Equal` answers.
pub proof fn lemma_bytes_cmp_transitive(a: Seq<u8>, b: Seq<u8>, c: Seq<u8>)
    requires
        bytes_cmp(a, b) != Ordering::Greater,
        bytes_cmp(b, c) != Ordering::Greater,
    ensures
        bytes_cmp(a, c) != Ordering::Greater,
    decreases a.len(),
{
    if a.len() > 0 && b.len() > 0 && c.len() > 0 && a[0] == b[0] && b[0] == c[0] {
        lemma_bytes_cmp_transitive(a.drop_first(), b.drop_first(), c.drop_first());
    }
}

/// The three statuses are ordered by rank, staged before unstaged before untracked,
/// and two statuses share a rank only when they are the same status.
pub proof fn lemma_status_rank_order(a: GitChangeStatus, b: GitChangeStatus)
    ensures
        GitChangeStatus::Staged.rank() < GitChangeStatus::Unstaged.rank(),
        GitChangeStatus::Unstaged.rank() < GitChangeStatus::Untracked.rank(),
        (a.rank() == b.rank()) == (a == b),
        a.rank() < b.rank() || a.rank() == b.rank() || b.rank() < a.rank(),
{
}

/// Two records of the same status are ordered by their paths alone.
pub proof fn lemma_same_status_orders_by_path(a: GitChange, b: GitChange)
    requires
        a.status == b.status,
    ensures
        change_cmp(a, b) == bytes_cmp(encode_utf8(a.path@), encode_utf8(b.path@)),
{
}

/// Two records of different status are ordered by status rank, whatever their paths.
pub proof fn lemma_different_status_orders_by_rank(a: GitChange, b: GitChange)
    requires
        a.status != b.status,
    ensures
        change_cmp(a, b) == (if a.status.rank() < b.status.rank() {
            Ordering::Less
        } else {
            Ordering::Greater
        }),
{
}

/// The display order is antisymmetric, and two records compare equal exactly when
/// their statuses and paths are the same.
pub proof fn lemma_change_cmp_antisymmetric(a: GitChange, b: GitChange)
    ensures
        (change_cmp(a, b) == Ordering::Less) == (change_cmp(b, a) == Ordering::Greater),
        (change_cmp(a, b) == Ordering::Equal) == (a.status == b.status && a.path@ == b.path@),
{
    lemma_bytes_cmp_antisymmetric(encode_utf8(a.path@), encode_utf8(b.path@));
    encode_utf8_decode_utf8(a.path@);
    encode_utf8_decode_utf8(b.path@);
}

/// The display order is transitive.
pub proof fn lemma_change_cmp_transitive(a: GitChange, b: GitChange, c: GitChange)
    requires
        change_cmp(a, b) != Ordering::Greater,
        change_cmp(b, c) != Ordering::Greater,
    ensures
        change_cmp(a, c) != Ordering::Greater,
{
    if a.status == b.status && b.status == c.status {
        lemma_bytes_cmp_transitive(
            encode_utf8(a.path@),
            encode_utf8(b.path@),
            encode_utf8(c.path@),
        );
    }
}

/// Every record is ordered no later than every record after it.
pub open spec fn is_sorted(s: Seq<GitChange>) -> bool {
    forall|i: int, j: int| 0 <= i < j < s.len() ==> change_cmp(s[i], s[j]) != Ordering::Greater
}

/// Sorts a collection into display order, keeping every record.
pub fn sort_changes(v: &mut Vec<GitChange>)
    ensures
        is_sorted(final(v)@),
        final(v)@.len() == old(v)@.len(),
        final(v)@.to_multiset() == old(v)@.to_multiset(),
{
    let n = v.len();
    let mut i: usize = 1;
    while i < n
        invariant
            n == v@.len(),
            1 <= i,
            forall|a: int, b: int|
                0 <= a < b < i && b < n ==> change_cmp(v@[a], v@[b]) != Ordering::Greater,
            v@.to_multiset() == old(v)@.to_multiset(),
        decreases n - i,
    {
        let ghost before = v@;
        let x = v.remove(i);
        proof {
            to_multiset_remove(before, i as int);
            to_multiset_contains(before, x);
        }
        let mut j: usize = 0;
        while j < i && v[j].orders_no_later_than(&x)
            invariant
                j <= i,
                v@.len() == n - 1,
                i < n,
                forall|k: int| 0 <= k < j ==> change_cmp(#[trigger] v@[k], x) != Ordering::Greater,
            decreases i - j,
        {
            j = j + 1;
        }
        let ghost mid = v@;
        v.insert(j, x);
        proof {
            to_multiset_insert(mid, j as int, x);
            assert(v@.to_multiset() =~= before.to_multiset());
            assert forall|a: int, b: int| 0 <= a < b < i + 1 implies change_cmp(v@[a], v@[b])
                != Ordering::Greater by {
                assert(forall|k: int| 0 <= k < i ==> mid[k] == before[k]);
                if b == j {
                    assert(v@[a] == mid[a]);
                } else if a == j {
                    assert(v@[b] == mid[b - 1]);
                    lemma_change_cmp_antisymmetric(mid[j as int], x);
                    if b - 1 > j {
                        lemma_change_cmp_transitive(x, mid[j as int], mid[b - 1]);
                    }
                } else if a < j && b > j {
                    assert(v@[a] == mid[a]);
                    assert(v@[b] == mid[b - 1]);
                } else if b < j {
                    assert(v@[a] == mid[a]);
                    assert(v@[b] == mid[b]);
                } else {
                    assert(v@[a] == mid[a - 1]);
                    assert(v@[b] == mid[b - 1]);
                }
            }
        }
        i = i + 1;
    }
}

} // verus!
