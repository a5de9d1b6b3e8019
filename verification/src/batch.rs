//! Batch summaries. Per-file result matrices are concatenated into one
//! summary: sorted by absolute start time when every file resolved one, else
//! kept in discovery order with a warning surfaced to the caller; spectra
//! whose bin columns differ cannot be concatenated.

use vstd::prelude::*;
use crate::config::AnalysisType;
use crate::errors::AnalysisError;

verus! {

/// What batch concatenation reads of one analysed file: its resolved start
/// time (milliseconds since the epoch) when the filename yielded one, and the
/// shape of its result matrix after the time column and the header row.
#[derive(Clone, Copy, Debug, PartialEq, Eq, Structural)]
pub struct FileMeta {
    pub start_millis: Option<i64>,
    pub n_value_cols: usize,
    pub n_data_rows: usize,
}

/// Every file resolved an absolute start time.
pub open spec fn all_timed(files: Seq<FileMeta>) -> bool {
    forall|i: int| 0 <= i < files.len() ==> (#[trigger] files[i].start_millis) is Some
}

/// File `i`'s start time; meaningful only under `all_timed`.
pub open spec fn start_of(files: Seq<FileMeta>, i: int) -> int {
    files[i].start_millis->Some_0 as int
}

/// `order` lists each index below `n` exactly once.
pub open spec fn is_index_permutation(order: Seq<usize>, n: int) -> bool {
    &&& order.len() == n
    &&& (forall|j: int| 0 <= j < n ==> (#[trigger] order[j]) < n)
    &&& (forall|a: int, b: int| 0 <= a < b < n ==> order[a] != order[b])
    &&& (forall|v: int| 0 <= v < n ==> #[trigger] order.contains(v as usize))
}

/// The files along `order` start no later than their successors.
pub open spec fn starts_sorted(files: Seq<FileMeta>, order: Seq<usize>) -> bool {
    forall|a: int, b: int|
        0 <= a < b < order.len() ==> start_of(files, #[trigger] order[a] as int) <= start_of(
            files,
            #[trigger] order[b] as int,
        )
}

/// Files with equal start times keep their discovery order: wherever two
/// positions carry the same start, the earlier position holds the smaller
/// original index.
pub open spec fn stable_by_start(files: Seq<FileMeta>, order: Seq<usize>) -> bool {
    forall|a: int, b: int|
        0 <= a < b < order.len() && start_of(files, #[trigger] order[a] as int) == start_of(
            files,
            #[trigger] order[b] as int,
        ) ==> order[a] < order[b]
}

/// Reads a resolved start time.
fn start_at(files: &Vec<FileMeta>, i: usize) -> (r: i64)
    requires
        i < files@.len(),
        files@[i as int].start_millis is Some,
    ensures
        r as int == start_of(files@, i as int),
{
    match files[i].start_millis {
        Some(s) => s,
        None => vstd::pervasive::unreached(),
    }
}

/// Sorts the file indices by start time, stably: among equal start times the
/// discovery order is kept.
fn sort_indices_by_start(files: &Vec<FileMeta>) -> (order: Vec<usize>)
    requires
        all_timed(files@),
    ensures
        is_index_permutation(order@, files@.len() as int),
        starts_sorted(files@, order@),
        stable_by_start(files@, order@),
{
    let n = files.len();
    let mut order: Vec<usize> = Vec::new();
    let mut i: usize = 0;
    while i < n
        invariant
            i <= n,
            n == files@.len(),
            all_timed(files@),
            order@.len() == i,
            forall|j: int| 0 <= j < i ==> (#[trigger] order@[j]) < i,
            forall|a: int, b: int| 0 <= a < b < i ==> order@[a] != order@[b],
            forall|v: int| 0 <= v < i ==> #[trigger] order@.contains(v as usize),
            starts_sorted(files@, order@),
            stable_by_start(files@, order@),
        decreases n - i,
    {
        let key = start_at(files, i);
        let mut p: usize = 0;
        while p < order.len() && start_at(files, order[p]) <= key
            invariant
                p <= order@.len(),
                n == files@.len(),
                all_timed(files@),
                order@.len() == i < n,
                forall|j: int| 0 <= j < i ==> (#[trigger] order@[j]) < i,
                key as int == start_of(files@, i as int),
                forall|q: int|
                    0 <= q < p ==> start_of(files@, #[trigger] order@[q] as int) <= key as int,
            decreases order@.len() - p,
        {
            p = p + 1;
        }
        let ghost old_order = order@;
        order.insert(p, i);
        proof {
            old_order.insert_ensures(p as int, i);
            assert(order@ == old_order.insert(p as int, i as usize));
            assert forall|v: int| 0 <= v < i + 1 implies #[trigger] order@.contains(v as usize) by {
                if v == i {
                    assert(order@[p as int] == i as usize);
                } else {
                    assert(old_order.contains(v as usize));
                    let j = choose|j: int| 0 <= j < old_order.len() && old_order[j] == v as usize;
                    if j < p {
                        assert(order@[j] == old_order[j]);
                        assert(order@[j] == v as usize);
                    } else {
                        assert(order@[j + 1] == old_order[j]);
                        assert(order@[j + 1] == v as usize);
                    }
                }
            }
            assert forall|a: int, b: int|
                0 <= a < b < order@.len() implies start_of(files@, order@[a] as int) <= start_of(
                files@,
                order@[b] as int,
            ) by {
                if b < p {
                } else if a == p {
                    assert(order@[b] == old_order[b - 1]);
                } else if b == p {
                    if a < p {
                        assert(order@[a] == old_order[a]);
                    }
                } else if a < p {
                    assert(order@[b] == old_order[b - 1]);
                } else {
                    assert(order@[a] == old_order[a - 1]);
                    assert(order@[b] == old_order[b - 1]);
                }
            }
            assert forall|a: int, b: int|
                0 <= a < b < order@.len() && start_of(files@, order@[a] as int) == start_of(
                files@,
                order@[b] as int,
            ) implies order@[a] < order@[b] by {
                if b < p {
                } else if b == p {
                    assert(order@[a] == old_order[a]);
                    assert(old_order[a] < i as usize);
                } else if a == p {
                    // entries beyond the insertion point start strictly later
                    assert(order@[b] == old_order[b - 1]);
                    assert(start_of(files@, old_order[p as int] as int) <= start_of(
                        files@,
                        old_order[b - 1] as int,
                    ));
                } else if a < p {
                    assert(order@[a] == old_order[a]);
                    assert(order@[b] == old_order[b - 1]);
                } else {
                    assert(order@[a] == old_order[a - 1]);
                    assert(order@[b] == old_order[b - 1]);
                }
            }
        }
        i = i + 1;
    }
    order
}

/// The identity order, used when some file lacks a start time.
fn identity_order(n: usize) -> (order: Vec<usize>)
    ensures
        order@.len() == n,
        forall|j: int| 0 <= j < n ==> (#[trigger] order@[j]) as int == j,
        is_index_permutation(order@, n as int),
{
    let mut order: Vec<usize> = Vec::new();
    let mut i: usize = 0;
    while i < n
        invariant
            i <= n,
            order@.len() == i,
            forall|j: int| 0 <= j < i ==> (#[trigger] order@[j]) as int == j,
        decreases n - i,
    {
        order.push(i);
        i = i + 1;
    }
    proof {
        assert forall|v: int| 0 <= v < n implies #[trigger] order@.contains(v as usize) by {
            assert(order@[v] == v as usize);
        }
    }
    order
}

/// Law: in a batch summary whose files are ordered by distinct, resolved
/// start times, any row of an earlier file lies no later than any row of a
/// later file, and rows within one file are already non-decreasing — so the
/// summary's whole time column is non-decreasing.
///
/// `times[f]` is file `f`'s time column: it opens at the file's start time
/// and never decreases. The law asks the recordings not to overlap (a file
/// that starts earlier has ended by the time a later one starts); rows of
/// overlapping recordings can interleave in time and the claim would not
/// hold of them.
pub proof fn lemma_summary_times_non_decreasing(
    files: Seq<FileMeta>,
    times: Seq<Seq<int>>,
    order: Seq<usize>,
    pa: int,
    ra: int,
    pb: int,
    rb: int,
)
    requires
        files.len() == times.len(),
        is_index_permutation(order, files.len() as int),
        all_timed(files),
        starts_sorted(files, order),
        forall|f: int, g: int|
            0 <= f < files.len() && 0 <= g < files.len() && f != g ==> start_of(files, f)
                != start_of(files, g),
        forall|f: int| 0 <= f < files.len() ==> (#[trigger] times[f]).len() >= 1,
        forall|f: int| 0 <= f < files.len() ==> (#[trigger] times[f])[0] == start_of(files, f),
        forall|f: int, r1: int, r2: int|
            0 <= f < files.len() && 0 <= r1 <= r2 < times[f].len() ==> #[trigger] times[f][r1]
                <= #[trigger] times[f][r2],
        forall|f: int, g: int|
            0 <= f < files.len() && 0 <= g < files.len() && f != g && start_of(files, f)
                < #[trigger] start_of(files, g) ==> (#[trigger] times[f])[times[f].len() - 1]
                <= start_of(files, g),
        0 <= pa <= pb < order.len(),
        ra < times[order[pa] as int].len(),
        rb < times[order[pb] as int].len(),
        0 <= ra,
        0 <= rb,
        pa == pb ==> ra <= rb,
    ensures
        times[order[pa] as int][ra] <= times[order[pb] as int][rb],
{
    let fa = order[pa] as int;
    let fb = order[pb] as int;
    if pa == pb {
        assert(times[fa][ra] <= times[fa][rb]);
    } else {
        assert(order[pa] != order[pb]);
        assert(start_of(files, fa) <= start_of(files, fb));
        assert(start_of(files, fa) < start_of(files, fb));
        assert(times[fa][ra] <= times[fa][times[fa].len() - 1]);
        assert(times[fa][times[fa].len() - 1] <= start_of(files, fb));
        assert(times[fb][0] == start_of(files, fb));
        assert(times[fb][0] <= times[fb][rb]);
    }
}

/// How a batch summary is to be assembled: the order in which the per-file
/// matrices follow each other, and whether that order is by start time.
pub struct ConcatPlan {
    pub order: Vec<usize>,
    pub sorted_by_time: bool,
}

/// Plans the concatenation of per-file results into one summary. Spectra can
/// only be concatenated over identical bin columns, so differing column
/// counts fail; broadband results always have one column. When every file
/// resolved an absolute start time the files are ordered by it (stably),
/// otherwise they stay in discovery order and `sorted_by_time` is false — the
/// caller surfaces that as a warning, not an error.
pub fn concat_plan(files: &Vec<FileMeta>, analysis_type: AnalysisType) -> (r: Result<
    ConcatPlan,
    AnalysisError,
>)
    requires
        files@.len() >= 1,
    ensures
        (r is Err <==> analysis_type == AnalysisType::Psd && exists|i: int|
            0 <= i < files@.len() && (#[trigger] files@[i].n_value_cols)
                != files@[0].n_value_cols),
        r is Err ==> r == Err::<ConcatPlan, AnalysisError>(AnalysisError::ColumnMismatch),
        r matches Ok(p) ==> {
            &&& is_index_permutation(p.order@, files@.len() as int)
            &&& p.sorted_by_time == all_timed(files@)
            &&& (p.sorted_by_time ==> starts_sorted(files@, p.order@) && stable_by_start(
                files@,
                p.order@,
            ))
            &&& (!p.sorted_by_time ==> forall|j: int|
                0 <= j < files@.len() ==> (#[trigger] p.order@[j]) as int == j)
        },
{
    let n = files.len();
    if analysis_type == AnalysisType::Psd {
        let first_cols = files[0].n_value_cols;
        let mut i: usize = 1;
        while i < n
            invariant
                1 <= i <= n,
                n == files@.len(),
                analysis_type == AnalysisType::Psd,
                first_cols == files@[0].n_value_cols,
                forall|j: int| 0 <= j < i ==> (#[trigger] files@[j].n_value_cols) == first_cols,
            decreases n - i,
        {
            if files[i].n_value_cols != first_cols {
                proof {
                    assert(exists|k: int|
                        0 <= k < files@.len() && (#[trigger] files@[k].n_value_cols)
                            != files@[0].n_value_cols) by {
                        assert(0 <= (i as int) < files@.len() && files@[i as int].n_value_cols
                            != files@[0].n_value_cols);
                    }
                }
                return Err(AnalysisError::ColumnMismatch);
            }
            i = i + 1;
        }
    }
    let mut timed = true;
    let mut i: usize = 0;
    while i < n
        invariant
            i <= n,
            n == files@.len(),
            timed == (forall|j: int| 0 <= j < i ==> (#[trigger] files@[j].start_millis) is Some),
        decreases n - i,
    {
        if files[i].start_millis.is_none() {
            timed = false;
        }
        i = i + 1;
    }
    if timed {
        let order = sort_indices_by_start(files);
        Ok(ConcatPlan { order, sorted_by_time: true })
    } else {
        let order = identity_order(n);
        Ok(ConcatPlan { order, sorted_by_time: false })
    }
}

} // verus!
