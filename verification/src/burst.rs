//! Groups photos of one directory that were taken in rapid succession.
//! The input is sorted by resolved timestamp; consecutive photos whose gap
//! stays below the threshold share a group, and each member carries a
//! 1-based ordinal in chronological order.

use vstd::prelude::*;

use crate::fsutil::BurstPhotoFolder;

verus! {

/// Whether a run of timestamps is nondecreasing.
pub open spec fn ts_sorted(ts: Seq<i64>) -> bool {
    forall|i: int| 0 < i < ts.len() ==> ts[i - 1] <= #[trigger] ts[i]
}

/// Whether the intervals cut `[0, n)` exactly at the places where the gap
/// between neighbours reaches the threshold.
pub open spec fn bursts_of(r: Seq<(usize, usize)>, ts: Seq<i64>, threshold: i64) -> bool {
    let n = ts.len() as int;
    &&& (r.len() == 0 <==> n == 0)
    &&& (r.len() > 0 ==> r[0].0 == 0 && r[r.len() - 1].1 == n)
    &&& forall|k: int| 0 <= k < r.len() ==> (#[trigger] r[k]).0 < r[k].1 <= n
    &&& forall|k: int| 0 < k < r.len() ==> (#[trigger] r[k]).0 == r[k - 1].1
    &&& forall|k: int, i: int|
        0 <= k < r.len() && (#[trigger] r[k]).0 < i < r[k].1 ==> #[trigger] ts[i] - ts[i - 1]
            < threshold
    &&& forall|k: int|
        0 < k < r.len() ==> ts[(#[trigger] r[k]).0 as int] - ts[r[k].0 - 1] >= threshold
}

/// Cuts a sorted run of timestamps into burst intervals: neighbours closer
/// than the threshold share an interval, and a gap of at least the
/// threshold opens a new one.
pub fn burst_intervals(ts: &Vec<i64>, threshold: i64) -> (r: Vec<(usize, usize)>)
    requires
        ts_sorted(ts@),
        threshold >= 0,
        forall|i: int|
            0 <= i < ts@.len() ==> -1_000_000_000_000 <= #[trigger] ts@[i] <= 1_000_000_000_000,
    ensures
        bursts_of(r@, ts@, threshold),
{
    let n = ts.len();
    let mut r: Vec<(usize, usize)> = Vec::new();
    if n == 0 {
        return r;
    }
    let mut start: usize = 0;
    let mut i: usize = 1;
    while i < n
        invariant
            n == ts@.len(),
            1 <= i <= n,
            start < i,
            ts_sorted(ts@),
            forall|j: int|
                0 <= j < ts@.len() ==> -1_000_000_000_000 <= #[trigger] ts@[j]
                    <= 1_000_000_000_000,
            // the intervals so far partition [0, start)
            (r@.len() == 0 <==> start == 0),
            r@.len() > 0 ==> r@[0].0 == 0 && r@[r@.len() - 1].1 == start,
            forall|k: int| 0 <= k < r@.len() ==> (#[trigger] r@[k]).0 < r@[k].1 <= start,
            forall|k: int| 0 < k < r@.len() ==> (#[trigger] r@[k]).0 == r@[k - 1].1,
            forall|k: int, j: int|
                0 <= k < r@.len() && (#[trigger] r@[k]).0 < j < r@[k].1 ==> #[trigger] ts@[j]
                    - ts@[j - 1] < threshold,
            forall|k: int|
                0 < k < r@.len() ==> ts@[(#[trigger] r@[k]).0 as int] - ts@[r@[k].0 - 1]
                    >= threshold,
            // the open interval [start, i) is gap-free inside, and starts
            // either at 0 or at a wide gap
            forall|j: int| start < j < i ==> #[trigger] ts@[j] - ts@[j - 1] < threshold,
            start > 0 ==> ts@[start as int] - ts@[start - 1] >= threshold,
        decreases n - i,
    {
        if ts[i] - ts[i - 1] >= threshold {
            r.push((start, i));
            start = i;
        }
        i = i + 1;
    }
    r.push((start, n));
    r
}

/// The 1-based ordinal of member `i` of an interval.
pub fn burst_ordinal(interval: (usize, usize), i: usize) -> (r: usize)
    requires
        interval.0 <= i < interval.1,
    ensures
        r == i - interval.0 + 1,
{
    i - interval.0 + 1
}

/// Builds the burst folders of one directory: one record per interval,
/// holding the member paths in order and the first member's timestamp.
pub fn make_burst_groups(
    folder: &str,
    photos: &Vec<String>,
    ts: &Vec<i64>,
    threshold: i64,
) -> (r: Vec<BurstPhotoFolder>)
    requires
        photos@.len() == ts@.len(),
        ts_sorted(ts@),
        threshold >= 0,
        forall|i: int|
            0 <= i < ts@.len() ==> -1_000_000_000_000 <= #[trigger] ts@[i] <= 1_000_000_000_000,
    ensures
        exists|iv: Seq<(usize, usize)>|
            {
                &&& bursts_of(iv, ts@, threshold)
                &&& r@.len() == iv.len()
                &&& forall|k: int|
                    0 <= k < r.len() ==> {
                        &&& (#[trigger] r@[k]).folder_path@ == folder@
                        &&& r@[k].photos@ == photos@.subrange(iv[k].0 as int, iv[k].1 as int)
                        &&& r@[k].timestamp == ts@[iv[k].0 as int]
                    }
            },
{
    let intervals = burst_intervals(ts, threshold);
    let mut r: Vec<BurstPhotoFolder> = Vec::new();
    let m = intervals.len();
    let mut k: usize = 0;
    while k < m
        invariant
            m == intervals@.len(),
            k <= m,
            photos@.len() == ts@.len(),
            bursts_of(intervals@, ts@, threshold),
            r@.len() == k,
            forall|q: int|
                0 <= q < k ==> {
                    &&& (#[trigger] r@[q]).folder_path@ == folder@
                    &&& r@[q].photos@ == photos@.subrange(
                        intervals@[q].0 as int,
                        intervals@[q].1 as int,
                    )
                    &&& r@[q].timestamp == ts@[intervals@[q].0 as int]
                },
        decreases m - k,
    {
        let (a, b) = intervals[k];
        let mut members: Vec<String> = Vec::new();
        let mut i: usize = a;
        while i < b
            invariant
                a <= i <= b,
                b <= photos@.len(),
                members@ =~= photos@.subrange(a as int, i as int),
            decreases b - i,
        {
            members.push(photos[i].clone());
            proof {
                assert(photos@[i as int]@ == photos@[i as int]@);
            }
            i = i + 1;
        }
        let g = BurstPhotoFolder {
            folder_path: folder.to_owned(),
            photos: members,
            timestamp: ts[a],
        };
        r.push(g);
        k = k + 1;
    }
    proof {
        let iv = intervals@;
        assert(bursts_of(iv, ts@, threshold) && r@.len() == iv.len());
    }
    r
}

} // verus!
