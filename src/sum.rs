use vstd::prelude::*;

use rayon::iter::{IntoParallelIterator, ParallelIterator};

use crate::error::PoolError;
use crate::registry::{accepts_work, run_in_pool, PoolRegistry};

verus! {

/// The sum of `s`, added from the front.
pub open spec fn seq_sum(s: Seq<i32>) -> int
    decreases s.len(),
{
    if s.len() == 0 {
        0
    } else {
        seq_sum(s.drop_last()) + s.last()
    }
}

/// Whether the sum of every contiguous run of `s` fits in an `i32`: then
/// however a parallel reduction groups adjacent runs, no step overflows.
pub open spec fn run_sums_fit(s: Seq<i32>) -> bool {
    forall|i: int, j: int|
        0 <= i <= j <= s.len() ==> i32::MIN <= #[trigger] seq_sum(s.subrange(i, j)) <= i32::MAX
}

/// The work done on one entry: the entry itself.
pub fn process_entry(n: i32) -> (r: i32)
    ensures
        r == n,
{
    n
}

/// Processes one entry on behalf of a parallel sum: tells `report` about it
/// first, then gives its value.
pub fn report_entry<F>(n: i32, report: &F) -> (r: i32) where F: Fn(i32) + Sync + Send,
    requires
        report.requires((n,)),
    ensures
        r == n,
{
    report(n);
    process_entry(n)
}

/// Relies on rayon's `into_par_iter().map(..).sum()` over a vector: each
/// element is mapped once, each chunk is summed from the front and adjacent
/// chunks are added, so every partial sum is the sum of a contiguous run.
#[verifier::external_body]
fn par_map_sum<F>(inputs: Vec<i32>, report: &F) -> (r: i32) where F: Fn(i32) + Sync + Send,
    requires
        run_sums_fit(inputs@),
        forall|n: i32| report.requires((n,)),
    ensures
        r == seq_sum(inputs@),
{
    inputs.into_par_iter().map(|n| report_entry(n, report)).sum()
}

/// Sums `inputs` in parallel on the current pool; the result is the one a
/// single thread adding from the front would get.
pub fn parallel_sum(inputs: Vec<i32>) -> (r: i32)
    requires
        run_sums_fit(inputs@),
    ensures
        r == seq_sum(inputs@),
{
    let quiet = |_n: i32| {};
    par_map_sum(inputs, &quiet)
}

/// As `parallel_sum`, calling `report` with each entry, on whichever worker
/// processes it.
pub fn parallel_sum_reported<F>(inputs: Vec<i32>, report: &F) -> (r: i32) where
    F: Fn(i32) + Sync + Send,

    requires
        run_sums_fit(inputs@),
        forall|n: i32| report.requires((n,)),
    ensures
        r == seq_sum(inputs@),
{
    par_map_sum(inputs, report)
}

/// A sum of entries in `[lo, hi]` lies between `lo` and `hi` times the length.
pub proof fn lemma_sum_bounds(s: Seq<i32>, lo: int, hi: int)
    requires
        forall|k: int| 0 <= k < s.len() ==> lo <= #[trigger] s[k] <= hi,
    ensures
        lo * s.len() <= seq_sum(s) <= hi * s.len(),
    decreases s.len(),
{
    if s.len() > 0 {
        let t = s.drop_last();
        assert forall|k: int| 0 <= k < t.len() implies lo <= #[trigger] t[k] <= hi by {
            assert(t[k] == s[k]);
        }
        lemma_sum_bounds(t, lo, hi);
        let n = t.len() as int;
        assert(lo * (n + 1) == lo * n + lo) by (nonlinear_arith);
        assert(hi * (n + 1) == hi * n + hi) by (nonlinear_arith);
    }
}

/// Taking one entry out of a sequence takes its value out of the sum.
pub proof fn lemma_sum_remove(s: Seq<i32>, i: int)
    requires
        0 <= i < s.len(),
    ensures
        seq_sum(s) == seq_sum(s.remove(i)) + s[i],
    decreases s.len(),
{
    if i == s.len() - 1 {
        assert(s.remove(i) =~= s.drop_last());
    } else {
        lemma_sum_remove(s.drop_last(), i);
        assert(s.remove(i).drop_last() =~= s.drop_last().remove(i));
        assert(s.remove(i).last() == s.last());
    }
}

/// The sum does not depend on the order of the entries: two sequences that
/// hold the same entries, as many times each, have the same sum. Since
/// `parallel_sum` gives `seq_sum` of its input, reordering its input leaves
/// its result unchanged.
pub proof fn lemma_sum_permutation(s: Seq<i32>, t: Seq<i32>)
    requires
        s.to_multiset() == t.to_multiset(),
    ensures
        seq_sum(s) == seq_sum(t),
    decreases s.len(),
{
    broadcast use vstd::seq_lib::group_to_multiset_ensures;

    if s.len() == 0 {
        vstd::seq_lib::to_multiset_len(s);
        vstd::seq_lib::to_multiset_len(t);
        assert(t.len() == 0);
    } else {
        let last = s.len() - 1;
        let x = s[last];
        assert(s.contains(x));
        vstd::seq_lib::to_multiset_contains(s, x);
        vstd::seq_lib::to_multiset_contains(t, x);
        assert(t.contains(x));
        let i = choose|i: int| 0 <= i < t.len() && t[i] == x;
        lemma_sum_remove(t, i);
        lemma_sum_remove(s, last);
        assert(s.remove(last) =~= s.drop_last());
        assert(s.remove(last).to_multiset() == t.remove(i).to_multiset());
        lemma_sum_permutation(s.remove(last), t.remove(i));
    }
}

/// Every run of the numbers 1 to 10 sums within `i32`, and all of them sum to 55.
proof fn lemma_first_ten(s: Seq<i32>)
    requires
        s == seq![1i32, 2, 3, 4, 5, 6, 7, 8, 9, 10],
    ensures
        run_sums_fit(s),
        seq_sum(s) == 55,
{
    assert forall|i: int, j: int| 0 <= i <= j <= s.len() implies i32::MIN <= #[trigger] seq_sum(
        s.subrange(i, j),
    ) <= i32::MAX by {
        let t = s.subrange(i, j);
        assert forall|k: int| 0 <= k < t.len() implies 0 <= #[trigger] t[k] <= 10 by {
            assert(t[k] == s[i + k]);
        }
        lemma_sum_bounds(t, 0, 10);
    }
    reveal_with_fuel(seq_sum, 11);
    assert(s.drop_last() =~= seq![1i32, 2, 3, 4, 5, 6, 7, 8, 9]);
    assert(s.drop_last().drop_last() =~= seq![1i32, 2, 3, 4, 5, 6, 7, 8]);
    assert(s.drop_last().drop_last().drop_last() =~= seq![1i32, 2, 3, 4, 5, 6, 7]);
    assert(s.drop_last().drop_last().drop_last().drop_last() =~= seq![1i32, 2, 3, 4, 5, 6]);
}

/// Sums the numbers 1 to 10 inside the ready pool, calling `report` with
/// each entry: 55. Without a ready pool it gives `NotReadyError` and reports
/// nothing.
pub fn multithreaded_sum<F>(registry: &PoolRegistry, report: F) -> (r: Result<i32, PoolError>) where
    F: Fn(i32) + Sync + Send,

    requires
        registry.wf(),
        forall|n: i32| report.requires((n,)),
    ensures
        accepts_work(registry@) ==> r == Ok::<i32, PoolError>(55),
        !accepts_work(registry@) ==> r == Err::<i32, PoolError>(PoolError::NotReadyError),
{
    let v: Vec<i32> = vec![1i32, 2, 3, 4, 5, 6, 7, 8, 9, 10];
    proof {
        lemma_first_ten(v@);
    }
    let job = move || -> (s: i32)
        requires
            run_sums_fit(v@),
            seq_sum(v@) == 55,
            forall|n: i32| report.requires((n,)),
        ensures
            s == 55,
        { parallel_sum_reported(v, &report) };
    run_in_pool(registry, job)
}

} // verus!
