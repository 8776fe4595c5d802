//! The order of config backups: newest first when they are listed, oldest
//! first when rotation picks the ones to delete. Both orders are stable:
//! backups made at the same moment keep the order they were found in.

use vstd::prelude::*;
use crate::config_files::{backups_beyond, BackupInfo, ConfigBackupManager};

verus! {

/// `a` goes strictly before `b`: it is newer (for `newest`) or older.
pub open spec fn goes_before(a: BackupInfo, b: BackupInfo, newest: bool) -> bool {
    if newest {
        a.created@ > b.created@
    } else {
        a.created@ < b.created@
    }
}

/// Where a stable sort places `x` among already sorted backups: after every
/// backup that `x` does not go before.
pub open spec fn insertion_index(s: Seq<BackupInfo>, x: BackupInfo, newest: bool) -> int
    decreases s.len(),
{
    if s.len() == 0 {
        0
    } else if goes_before(x, s.last(), newest) {
        insertion_index(s.drop_last(), x, newest)
    } else {
        s.len() as int
    }
}

/// The backups sorted by creation time, newest or oldest first, as a stable
/// sort (`sort_by`) leaves them.
pub open spec fn sorted_backups(s: Seq<BackupInfo>, newest: bool) -> Seq<BackupInfo>
    decreases s.len(),
{
    if s.len() == 0 {
        Seq::empty()
    } else {
        let rest = sorted_backups(s.drop_last(), newest);
        rest.insert(insertion_index(rest, s.last(), newest), s.last())
    }
}

/// No backup goes before one that comes earlier.
pub open spec fn in_order(s: Seq<BackupInfo>, newest: bool) -> bool {
    forall|i: int, j: int| 0 <= i < j < s.len() ==> !goes_before(#[trigger] s[j], #[trigger] s[i], newest)
}

/// The backups that rotation deletes: the oldest ones, as many as are beyond
/// the limit.
pub open spec fn rotated_out(s: Seq<BackupInfo>, limit: nat) -> Seq<BackupInfo> {
    sorted_backups(s, false).take(backups_beyond(s.len(), limit) as int)
}

/// The backups that rotation keeps.
pub open spec fn kept_after_rotation(s: Seq<BackupInfo>, limit: nat) -> Seq<BackupInfo> {
    sorted_backups(s, false).skip(backups_beyond(s.len(), limit) as int)
}

proof fn lemma_insertion_index_bounds(s: Seq<BackupInfo>, x: BackupInfo, newest: bool)
    ensures
        0 <= insertion_index(s, x, newest) <= s.len(),
    decreases s.len(),
{
    if s.len() > 0 && goes_before(x, s.last(), newest) {
        lemma_insertion_index_bounds(s.drop_last(), x, newest);
    }
}

proof fn lemma_insertion_index_place(s: Seq<BackupInfo>, x: BackupInfo, newest: bool)
    ensures
        forall|j: int|
            insertion_index(s, x, newest) <= j < s.len() ==> goes_before(x, #[trigger] s[j], newest),
        insertion_index(s, x, newest) > 0 ==> !goes_before(
            x,
            s[insertion_index(s, x, newest) - 1],
            newest,
        ),
    decreases s.len(),
{
    if s.len() > 0 && goes_before(x, s.last(), newest) {
        lemma_insertion_index_place(s.drop_last(), x, newest);
        lemma_insertion_index_bounds(s.drop_last(), x, newest);
        let k = insertion_index(s, x, newest);
        assert forall|j: int| k <= j < s.len() implies goes_before(x, #[trigger] s[j], newest) by {
            if j < s.len() - 1 {
                assert(s.drop_last()[j] == s[j]);
            }
        }
        if k > 0 {
            assert(s.drop_last()[k - 1] == s[k - 1]);
        }
    }
}

proof fn lemma_insert_keeps_order(s: Seq<BackupInfo>, x: BackupInfo, newest: bool)
    requires
        in_order(s, newest),
    ensures
        in_order(s.insert(insertion_index(s, x, newest), x), newest),
{
    lemma_insertion_index_bounds(s, x, newest);
    lemma_insertion_index_place(s, x, newest);
    let k = insertion_index(s, x, newest);
    let r = s.insert(k, x);
    assert forall|i: int, j: int| 0 <= i < j < r.len() implies !goes_before(
        #[trigger] r[j],
        #[trigger] r[i],
        newest,
    ) by {
        if j < k {
            assert(r[i] == s[i] && r[j] == s[j]);
        } else if i > k {
            assert(r[i] == s[i - 1] && r[j] == s[j - 1]);
        } else if i == k {
            assert(r[j] == s[j - 1]);
        } else if j == k {
            assert(r[i] == s[i]);
            if i < k - 1 {
                assert(!goes_before(s[k - 1], s[i], newest));
            }
        } else {
            assert(r[i] == s[i] && r[j] == s[j - 1]);
        }
    }
}

/// Sorting backups puts them in order (newest or oldest first) and keeps
/// every backup: the result is a reordering of the input.
pub proof fn law_backup_sort_orders_and_keeps(s: Seq<BackupInfo>, newest: bool)
    ensures
        in_order(sorted_backups(s, newest), newest),
        sorted_backups(s, newest).to_multiset() == s.to_multiset(),
        sorted_backups(s, newest).len() == s.len(),
    decreases s.len(),
{
    broadcast use vstd::seq_lib::group_to_multiset_ensures;

    if s.len() > 0 {
        let rest = sorted_backups(s.drop_last(), newest);
        law_backup_sort_orders_and_keeps(s.drop_last(), newest);
        lemma_insertion_index_bounds(rest, s.last(), newest);
        lemma_insert_keeps_order(rest, s.last(), newest);
        assert(s.drop_last().push(s.last()) =~= s);
    }
}

/// Rotation deletes exactly the backups beyond the limit, keeps the rest,
/// and deletes none newer than a backup it keeps.
pub proof fn law_rotation_deletes_the_oldest(s: Seq<BackupInfo>, limit: nat)
    ensures
        rotated_out(s, limit).len() == backups_beyond(s.len(), limit),
        kept_after_rotation(s, limit).len() == if s.len() > limit {
            limit as int
        } else {
            s.len() as int
        },
        rotated_out(s, limit).to_multiset().add(kept_after_rotation(s, limit).to_multiset())
            == s.to_multiset(),
        forall|i: int, j: int|
            0 <= i < rotated_out(s, limit).len() && 0 <= j < kept_after_rotation(s, limit).len()
                ==> (#[trigger] rotated_out(s, limit)[i]).created@
                <= (#[trigger] kept_after_rotation(s, limit)[j]).created@,
{
    broadcast use vstd::seq_lib::group_to_multiset_ensures;

    law_backup_sort_orders_and_keeps(s, false);
    let sorted = sorted_backups(s, false);
    let n = backups_beyond(s.len(), limit) as int;
    assert(sorted.take(n) + sorted.skip(n) =~= sorted);
    vstd::seq_lib::lemma_multiset_commutative(sorted.take(n), sorted.skip(n));
    assert forall|i: int, j: int|
        0 <= i < rotated_out(s, limit).len() && 0 <= j < kept_after_rotation(s, limit).len()
        implies (#[trigger] rotated_out(s, limit)[i]).created@
        <= (#[trigger] kept_after_rotation(s, limit)[j]).created@ by {
        assert(rotated_out(s, limit)[i] == sorted[i]);
        assert(kept_after_rotation(s, limit)[j] == sorted[n + j]);
        assert(!goes_before(sorted[n + j], sorted[i], false));
    }
}

/// `x` goes strictly before `y`.
fn backup_goes_before(x: &BackupInfo, y: &BackupInfo, newest: bool) -> (r: bool)
    ensures
        r == goes_before(*x, *y, newest),
{
    if newest {
        x.created.as_millis() > y.created.as_millis()
    } else {
        x.created.as_millis() < y.created.as_millis()
    }
}

/// A stable sort of the backups by creation time.
fn sort_backups(backups: Vec<BackupInfo>, newest: bool) -> (r: Vec<BackupInfo>)
    ensures
        r@ == sorted_backups(backups@, newest),
{
    let ghost orig = backups@;
    let mut sorted: Vec<BackupInfo> = Vec::new();
    let mut rest = backups;
    let ghost mut i: int = 0;
    while rest.len() > 0
        invariant
            orig == backups@,
            0 <= i <= orig.len(),
            rest@ == orig.subrange(i, orig.len() as int),
            sorted@ == sorted_backups(orig.subrange(0, i), newest),
        decreases rest.len(),
    {
        let x = rest.remove(0);
        proof {
            assert(x == orig[i]);
            assert(rest@ =~= orig.subrange(i + 1, orig.len() as int));
        }
        let ghost done = sorted@;
        proof {
            assert(done.subrange(0, done.len() as int) =~= done);
        }
        let mut k: usize = sorted.len();
        while k > 0 && backup_goes_before(&x, &sorted[k - 1], newest)
            invariant
                k <= sorted.len(),
                done == sorted@,
                insertion_index(done, x, newest) == insertion_index(
                    done.subrange(0, k as int),
                    x,
                    newest,
                ),
            decreases k,
        {
            proof {
                assert(done.subrange(0, k as int).drop_last() =~= done.subrange(0, k - 1));
            }
            k = k - 1;
        }
        proof {
            lemma_insertion_index_bounds(done, x, newest);
            if k as int == done.len() {
                assert(done.subrange(0, k as int) =~= done);
            }
        }
        sorted.insert(k, x);
        proof {
            assert(orig.subrange(0, i + 1).drop_last() =~= orig.subrange(0, i));
            assert(orig.subrange(0, i + 1).last() == orig[i]);
            i = i + 1;
        }
    }
    proof {
        assert(orig.subrange(0, i) =~= orig);
    }
    sorted
}

/// The backups as listing shows them: newest first, backups made at the same
/// moment in the order they were found.
pub fn newest_backups_first(backups: Vec<BackupInfo>) -> (r: Vec<BackupInfo>)
    ensures
        r@ == sorted_backups(backups@, true),
{
    sort_backups(backups, true)
}

impl ConfigBackupManager {
    /// The backups that rotation deletes: the oldest, as many as are beyond
    /// the limit.
    pub fn backups_to_delete(&self, backups: Vec<BackupInfo>) -> (r: Vec<BackupInfo>)
        ensures
            r@ == rotated_out(backups@, self.limit()),
    {
        let excess = self.excess_backups(backups.len());
        let mut oldest = sort_backups(backups, false);
        proof {
            law_backup_sort_orders_and_keeps(backups@, false);
        }
        oldest.truncate(excess);
        proof {
            assert(oldest@ =~= sorted_backups(backups@, false).take(excess as int));
        }
        oldest
    }
}

} // verus!
