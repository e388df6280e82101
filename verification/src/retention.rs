//! Retention policy for the log directory: a file is stale, and is to be
//! deleted, exactly when the calendar month of its last-modified timestamp is
//! strictly earlier than the calendar month of the reference time.

use vstd::prelude::*;

verus! {

/// Strict "earlier calendar month" order on (year, month) pairs.
pub open spec fn month_earlier(y1: int, m1: int, y2: int, m2: int) -> bool {
    y1 < y2 || (y1 == y2 && m1 < m2)
}

/// A calendar month, as the retention policy reads it off a file's
/// last-modified timestamp or off the reference clock.
#[derive(Clone, Copy, PartialEq, Eq, Structural, Debug)]
pub struct FileMonth {
    pub year: i32,
    pub month: u8,
}

impl FileMonth {
    /// Whether `self` is a strictly earlier calendar month than `other`.
    pub open spec fn earlier_than(self, other: FileMonth) -> bool {
        month_earlier(self.year as int, self.month as int, other.year as int, other.month as int)
    }
}

/// Decides whether a file whose last-modified month is `file` is stale
/// relative to `reference`: stale exactly when its month is strictly earlier.
pub fn is_stale(file: FileMonth, reference: FileMonth) -> (b: bool)
    ensures
        b == file.earlier_than(reference),
{
    file.year < reference.year || (file.year == reference.year && file.month < reference.month)
}

/// The retention decision over a whole directory listing: the indices of
/// exactly the stale files, in listing order. The caller deletes those files
/// and no others.
pub fn select_stale(files: &Vec<FileMonth>, reference: FileMonth) -> (out: Vec<usize>)
    ensures
        out@.map_values(|i: usize| files@[i as int]) == files@.filter(
            |f: FileMonth| f.earlier_than(reference),
        ),
        forall|k: int|
            0 <= k < out@.len() ==> out@[k] < files@.len() && files@[out@[k] as int].earlier_than(
                reference,
            ),
        forall|k1: int, k2: int| 0 <= k1 < k2 < out@.len() ==> out@[k1] < out@[k2],
        forall|i: int|
            0 <= i < files@.len() && files@[i].earlier_than(reference) ==> out@.contains(
                i as usize,
            ),
{
    let ghost pred = |f: FileMonth| f.earlier_than(reference);
    let mut out: Vec<usize> = Vec::new();
    let mut i: usize = 0;
    while i < files.len()
        invariant
            i <= files.len(),
            out@.map_values(|j: usize| files@[j as int]) == files@.take(i as int).filter(pred),
            forall|k: int| 0 <= k < out@.len() ==> out@[k] < i && pred(files@[out@[k] as int]),
            forall|k1: int, k2: int| 0 <= k1 < k2 < out@.len() ==> out@[k1] < out@[k2],
            forall|j: int| 0 <= j < i && pred(files@[j]) ==> out@.contains(j as usize),
            pred == (|f: FileMonth| f.earlier_than(reference)),
        decreases files.len() - i,
    {
        let ghost prev = out@;
        if is_stale(files[i], reference) {
            out.push(i);
        }
        proof {
            reveal(Seq::filter);
            let taken = files@.take(i + 1);
            assert(taken.drop_last() =~= files@.take(i as int));
            assert(taken.last() == files@[i as int]);
            if pred(files@[i as int]) {
                assert(out@ == prev.push(i as usize));
                assert(out@.map_values(|j: usize| files@[j as int]) =~= prev.map_values(
                    |j: usize| files@[j as int],
                ).push(files@[i as int]));
                assert(out@.contains(i as usize)) by {
                    assert(out@[out@.len() - 1] == i as usize);
                }
            } else {
                assert(taken.filter(pred) == files@.take(i as int).filter(pred));
            }
            assert forall|j: int| 0 <= j < i && pred(files@[j]) implies out@.contains(
                j as usize,
            ) by {
                assert(prev.contains(j as usize));
                let k = choose|k: int| 0 <= k < prev.len() && prev[k] == j as usize;
                assert(out@[k] == j as usize);
            }
        }
        i = i + 1;
    }
    proof {
        assert(files@.take(files@.len() as int) =~= files@);
    }
    out
}

/// Whether the instant `secs` falls in a strictly earlier calendar month,
/// in UTC, than the instant `ref_secs`.
pub open spec fn stale_at(secs: i64, ref_secs: i64) -> bool {
    month_earlier(
        crate::clock::utc_year(secs),
        crate::clock::utc_month(secs),
        crate::clock::utc_year(ref_secs),
        crate::clock::utc_month(ref_secs),
    )
}

/// Whether the calendar library represents the date of the instant `secs`.
pub open spec fn representable(secs: i64) -> bool {
    0 <= secs <= crate::clock::MAX_CALENDAR_SECS
}

/// The whole retention decision from raw timestamps: given the last-modified
/// Unix timestamps of the files directly under the log directory and the
/// reference time, returns the indices of the files to delete, in listing
/// order.
///
/// Every selected file is stale; and every stale file whose timestamp the
/// calendar library represents is selected, provided the reference time is
/// itself representable. A file whose timestamp cannot be read as a date is
/// skipped, never deleted: the cleanup is best effort and total, so a bad
/// timestamp can never make startup fail.
pub fn plan_prune(mtimes: &Vec<i64>, reference_secs: i64) -> (out: Vec<usize>)
    ensures
        forall|k: int|
            0 <= k < out@.len() ==> out@[k] < mtimes@.len() && stale_at(
                mtimes@[out@[k] as int],
                reference_secs,
            ),
        forall|k1: int, k2: int| 0 <= k1 < k2 < out@.len() ==> out@[k1] < out@[k2],
        representable(reference_secs) ==> forall|i: int|
            0 <= i < mtimes@.len() && representable(mtimes@[i]) && stale_at(
                mtimes@[i],
                reference_secs,
            ) ==> out@.contains(i as usize),
{
    let reference = match crate::clock::utc_file_month(reference_secs) {
        Some(fm) => fm,
        None => {
            return Vec::new();
        },
    };
    let mut out: Vec<usize> = Vec::new();
    let mut i: usize = 0;
    while i < mtimes.len()
        invariant
            i <= mtimes.len(),
            reference.year as int == crate::clock::utc_year(reference_secs),
            reference.month as int == crate::clock::utc_month(reference_secs),
            forall|k: int|
                0 <= k < out@.len() ==> out@[k] < i && stale_at(
                    mtimes@[out@[k] as int],
                    reference_secs,
                ),
            forall|k1: int, k2: int| 0 <= k1 < k2 < out@.len() ==> out@[k1] < out@[k2],
            forall|j: int|
                0 <= j < i && representable(mtimes@[j]) && stale_at(mtimes@[j], reference_secs)
                    ==> out@.contains(j as usize),
        decreases mtimes.len() - i,
    {
        let ghost prev = out@;
        match crate::clock::utc_file_month(mtimes[i]) {
            Some(fm) => {
                if is_stale(fm, reference) {
                    out.push(i);
                    proof {
                        assert(out@[out@.len() - 1] == i as usize);
                    }
                }
            },
            None => {},
        }
        proof {
            assert forall|j: int|
                0 <= j < i && representable(mtimes@[j]) && stale_at(
                    mtimes@[j],
                    reference_secs,
                ) implies out@.contains(j as usize) by {
                assert(prev.contains(j as usize));
                let k = choose|k: int| 0 <= k < prev.len() && prev[k] == j as usize;
                assert(out@[k] == j as usize);
            }
        }
        i = i + 1;
    }
    out
}

/// Best-effort accounting of the deletions the caller attempted: `deleted`
/// deletions succeeded, `failed` were refused by the filesystem and skipped.
#[derive(Clone, Copy, PartialEq, Eq, Structural, Debug)]
pub struct PruneReport {
    pub deleted: usize,
    pub failed: usize,
}

/// Totals up per-file deletion outcomes. The function is total and returns no
/// error: a deletion the filesystem refused is counted and skipped, so a
/// locked or unreadable file can never make the startup sequence fail.
pub fn summarize_prune(outcomes: &Vec<bool>) -> (r: PruneReport)
    ensures
        r.deleted + r.failed == outcomes@.len(),
        r.deleted == outcomes@.filter(|b: bool| b).len(),
        r.failed == outcomes@.filter(|b: bool| !b).len(),
{
    let mut deleted: usize = 0;
    let mut failed: usize = 0;
    let mut i: usize = 0;
    while i < outcomes.len()
        invariant
            i <= outcomes.len(),
            deleted + failed == i,
            deleted == outcomes@.take(i as int).filter(|b: bool| b).len(),
            failed == outcomes@.take(i as int).filter(|b: bool| !b).len(),
        decreases outcomes.len() - i,
    {
        if outcomes[i] {
            deleted = deleted + 1;
        } else {
            failed = failed + 1;
        }
        proof {
            reveal(Seq::filter);
            let taken = outcomes@.take(i + 1);
            assert(taken.drop_last() =~= outcomes@.take(i as int));
            assert(taken.last() == outcomes@[i as int]);
        }
        i = i + 1;
    }
    proof {
        assert(outcomes@.take(outcomes@.len() as int) =~= outcomes@);
    }
    PruneReport { deleted, failed }
}


/// Filtering a listing and then counting it as a multiset is the same as
/// filtering the multiset of the listing: the link between the
/// order-sensitive decision and its order-free content.
proof fn lemma_filter_to_multiset<A>(s: Seq<A>, pred: spec_fn(A) -> bool)
    ensures
        s.filter(pred).to_multiset() == s.to_multiset().filter(pred),
    decreases s.len(),
{
    broadcast use vstd::seq_lib::group_to_multiset_ensures;
    broadcast use vstd::multiset::group_multiset_axioms;

    reveal(Seq::filter);
    if s.len() == 0 {
        assert(s.filter(pred).to_multiset() =~= s.to_multiset().filter(pred));
    } else {
        let dl = s.drop_last();
        let last = s.last();
        lemma_filter_to_multiset(dl, pred);
        assert(s =~= dl.push(last));
        assert(s.to_multiset() == dl.push(last).to_multiset());
        assert(dl.push(last).to_multiset() =~= dl.to_multiset().insert(last));
        if pred(last) {
            assert(s.filter(pred) == dl.filter(pred).push(last));
            assert(dl.filter(pred).push(last).to_multiset() =~= dl.filter(pred).to_multiset().insert(last));
            assert(s.filter(pred).to_multiset() =~= s.to_multiset().filter(pred));
        } else {
            assert(s.filter(pred) == dl.filter(pred));
            assert(s.filter(pred).to_multiset() =~= s.to_multiset().filter(pred));
        }
    }
}

/// Law: the retention decision does not depend on the order of the listing.
/// Two listings that hold the same files, as multisets, have the same stale
/// files deleted and the same files retained, as multisets.
pub proof fn lemma_prune_order_independent(
    a: Seq<FileMonth>,
    b: Seq<FileMonth>,
    reference: FileMonth,
)
    requires
        a.to_multiset() == b.to_multiset(),
    ensures
        a.filter(|f: FileMonth| f.earlier_than(reference)).to_multiset() == b.filter(
            |f: FileMonth| f.earlier_than(reference),
        ).to_multiset(),
        a.filter(|f: FileMonth| !f.earlier_than(reference)).to_multiset() == b.filter(
            |f: FileMonth| !f.earlier_than(reference),
        ).to_multiset(),
{
    lemma_filter_to_multiset(a, |f: FileMonth| f.earlier_than(reference));
    lemma_filter_to_multiset(b, |f: FileMonth| f.earlier_than(reference));
    lemma_filter_to_multiset(a, |f: FileMonth| !f.earlier_than(reference));
    lemma_filter_to_multiset(b, |f: FileMonth| !f.earlier_than(reference));
}

/// No file of the current or of a later month is selected: pruning an empty
/// listing, or one whose files all fall in the reference month or later,
/// deletes nothing.
pub proof fn lemma_prune_noop(files: Seq<FileMonth>, reference: FileMonth)
    requires
        forall|i: int| 0 <= i < files.len() ==> !files[i].earlier_than(reference),
    ensures
        files.filter(|f: FileMonth| f.earlier_than(reference)) =~= Seq::<FileMonth>::empty(),
    decreases files.len(),
{
    reveal(Seq::filter);
    if files.len() > 0 {
        assert(forall|i: int|
            0 <= i < files.drop_last().len() ==> !files.drop_last()[i].earlier_than(reference));
        lemma_prune_noop(files.drop_last(), reference);
    }
}

} // verus!
