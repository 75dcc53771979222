//! Which runs the runs table shows in each layout, and in which order.

use vstd::prelude::*;
use vstd::string::*;
use crate::app::RunSort;
use crate::config::DashboardLayout;
use crate::model::{failure_label_text, is_failure_label, Run, Timestamp};
use crate::text::text_eq;

verus! {

/// Whether a run status is one of a run that has not finished.
pub open spec fn is_active_status(s: Seq<char>) -> bool {
    s == "queued"@ || s == "in_progress"@ || s == "requested"@ || s == "waiting"@ || s
        == "pending"@
}

/// Whether the run has not finished.
pub open spec fn spec_run_in_progress(run: Run) -> bool {
    is_active_status(run.status@)
}

/// Whether the run failed.
pub open spec fn spec_run_failed(run: Run) -> bool {
    is_failure_label(run.spec_status_label())
}

/// Whether the run succeeded.
pub open spec fn spec_run_succeeded(run: Run) -> bool {
    run.spec_status_label() == "success"@
}

/// Whether the run has started.
pub open spec fn spec_run_started(run: Run) -> bool {
    run.started_at is Some
}

/// Whether the two runs belong to the same workflow.
pub open spec fn spec_same_workflow(left: Run, right: Run) -> bool {
    left.spec_workflow_label() == right.spec_workflow_label()
}

/// Whether the two runs belong to the same workflow on the same branch.
pub open spec fn spec_same_workflow_branch(left: Run, right: Run) -> bool {
    spec_same_workflow(left, right) && left.head_branch@ == right.head_branch@
}

/// A failed run whose workflow and branch have no newer run that started or
/// succeeded.
pub open spec fn spec_unresolved_failure(run: Run, runs: Seq<Run>) -> bool {
    spec_run_failed(run) && !exists|j: int|
        0 <= j < runs.len() && #[trigger] spec_same_workflow_branch(run, runs[j])
            && run.created_at.spec_before(runs[j].created_at) && (spec_run_started(runs[j])
            || spec_run_succeeded(runs[j]))
}

/// A successful run whose workflow has no newer run on any branch.
pub open spec fn spec_latest_workflow_success(run: Run, runs: Seq<Run>) -> bool {
    spec_run_succeeded(run) && !exists|j: int|
        0 <= j < runs.len() && #[trigger] spec_same_workflow(run, runs[j])
            && run.created_at.spec_before(runs[j].created_at)
}

/// Whether the runs table shows `run` in `layout`.
pub open spec fn spec_run_visible(run: Run, runs: Seq<Run>, layout: DashboardLayout) -> bool {
    match layout {
        DashboardLayout::All => true,
        DashboardLayout::InProgress => spec_run_in_progress(run) || spec_unresolved_failure(
            run,
            runs,
        ) || spec_latest_workflow_success(run, runs),
    }
}

/// Whether the run has not finished.
pub fn run_in_progress(run: &Run) -> (r: bool)
    ensures
        r == spec_run_in_progress(*run),
{
    let s = run.status.as_str();
    text_eq(s, "queued") || text_eq(s, "in_progress") || text_eq(s, "requested") || text_eq(
        s,
        "waiting",
    ) || text_eq(s, "pending")
}

/// Whether the run failed.
pub fn run_failed(run: &Run) -> (r: bool)
    ensures
        r == spec_run_failed(*run),
{
    failure_label_text(run.status_label())
}

/// Whether the run succeeded.
pub fn run_succeeded(run: &Run) -> (r: bool)
    ensures
        r == spec_run_succeeded(*run),
{
    text_eq(run.status_label(), "success")
}

/// Whether the run has started.
pub fn run_started(run: &Run) -> (r: bool)
    ensures
        r == spec_run_started(*run),
{
    run.started_at.is_some()
}

/// Whether the two runs belong to the same workflow.
pub fn same_workflow(left: &Run, right: &Run) -> (r: bool)
    ensures
        r == spec_same_workflow(*left, *right),
{
    text_eq(left.workflow_label(), right.workflow_label())
}

/// Whether the two runs belong to the same workflow on the same branch.
pub fn same_workflow_branch(left: &Run, right: &Run) -> (r: bool)
    ensures
        r == spec_same_workflow_branch(*left, *right),
{
    same_workflow(left, right) && text_eq(left.head_branch.as_str(), right.head_branch.as_str())
}

/// Whether `run` failed and no newer run of its workflow on its branch has
/// started or succeeded since.
pub fn unresolved_failure(run: &Run, runs: &[Run]) -> (r: bool)
    ensures
        r == spec_unresolved_failure(*run, runs@),
{
    if !run_failed(run) {
        return false;
    }
    let mut j: usize = 0;
    while j < runs.len()
        invariant
            j <= runs@.len(),
            forall|k: int|
                0 <= k < j ==> !(#[trigger] spec_same_workflow_branch(*run, runs@[k])
                    && run.created_at.spec_before(runs@[k].created_at) && (spec_run_started(
                    runs@[k],
                ) || spec_run_succeeded(runs@[k]))),
        decreases runs@.len() - j,
    {
        let candidate = &runs[j];
        if same_workflow_branch(run, candidate) && run.created_at.is_before(&candidate.created_at)
            && (run_started(candidate) || run_succeeded(candidate)) {
            return false;
        }
        j = j + 1;
    }
    true
}

/// Whether `run` succeeded and no newer run of its workflow exists.
pub fn latest_workflow_success(run: &Run, runs: &[Run]) -> (r: bool)
    ensures
        r == spec_latest_workflow_success(*run, runs@),
{
    if !run_succeeded(run) {
        return false;
    }
    let mut j: usize = 0;
    while j < runs.len()
        invariant
            j <= runs@.len(),
            forall|k: int|
                0 <= k < j ==> !(#[trigger] spec_same_workflow(*run, runs@[k])
                    && run.created_at.spec_before(runs@[k].created_at)),
        decreases runs@.len() - j,
    {
        let candidate = &runs[j];
        if same_workflow(run, candidate) && run.created_at.is_before(&candidate.created_at) {
            return false;
        }
        j = j + 1;
    }
    true
}

/// Whether the runs table shows `run` in `layout`.
pub fn run_visible_in_layout(run: &Run, runs: &[Run], layout: DashboardLayout) -> (r: bool)
    ensures
        r == spec_run_visible(*run, runs@, layout),
{
    match layout {
        DashboardLayout::All => true,
        DashboardLayout::InProgress => run_in_progress(run) || unresolved_failure(run, runs)
            || latest_workflow_success(run, runs),
    }
}

/// Whether successful runs go after the others.
pub open spec fn successes_last(layout: DashboardLayout, sort: RunSort) -> bool {
    layout == DashboardLayout::InProgress && sort == RunSort::TimeDescSuccessesLast
}

/// Whether the run at index `i` comes before the run at index `j`: with
/// successes last, a run that did not succeed before one that did; then the
/// newer creation time first; then the larger id first; then the lower
/// index first, as a stable sort keeps them.
pub open spec fn sorts_before(
    runs: Seq<Run>,
    layout: DashboardLayout,
    sort: RunSort,
    i: int,
    j: int,
) -> bool {
    let a = runs[i];
    let b = runs[j];
    if successes_last(layout, sort) && spec_run_succeeded(a) != spec_run_succeeded(b) {
        !spec_run_succeeded(a)
    } else if a.created_at != b.created_at {
        b.created_at.spec_before(a.created_at)
    } else if a.database_id != b.database_id {
        a.database_id > b.database_id
    } else {
        i < j
    }
}

fn sorts_before_exec(runs: &[Run], layout: DashboardLayout, sort: RunSort, i: usize, j: usize) -> (r: bool)
    requires
        i < runs@.len(),
        j < runs@.len(),
    ensures
        r == sorts_before(runs@, layout, sort, i as int, j as int),
{
    let a = &runs[i];
    let b = &runs[j];
    let sa = run_succeeded(a);
    let sb = run_succeeded(b);
    if layout == DashboardLayout::InProgress && sort == RunSort::TimeDescSuccessesLast && sa != sb {
        !sa
    } else if a.created_at != b.created_at {
        b.created_at.is_before(&a.created_at)
    } else if a.database_id != b.database_id {
        a.database_id > b.database_id
    } else {
        i < j
    }
}

/// `s` with `x` placed before the first element that `x` sorts before.
pub open spec fn insert_sorted(
    runs: Seq<Run>,
    layout: DashboardLayout,
    sort: RunSort,
    s: Seq<usize>,
    x: usize,
) -> Seq<usize>
    decreases s.len(),
{
    if s.len() == 0 {
        seq![x]
    } else if sorts_before(runs, layout, sort, x as int, s[0] as int) {
        seq![x] + s
    } else {
        seq![s[0]] + insert_sorted(runs, layout, sort, s.drop_first(), x)
    }
}

/// The visible indices among the first `n` runs, in table order.
pub open spec fn sorted_visible_prefix(
    runs: Seq<Run>,
    layout: DashboardLayout,
    sort: RunSort,
    n: nat,
) -> Seq<usize>
    decreases n,
{
    if n == 0 {
        seq![]
    } else {
        let prev = sorted_visible_prefix(runs, layout, sort, (n - 1) as nat);
        if spec_run_visible(runs[n - 1], runs, layout) {
            insert_sorted(runs, layout, sort, prev, (n - 1) as usize)
        } else {
            prev
        }
    }
}

/// The indices of the runs that the table shows, in table order.
pub open spec fn spec_sorted_visible(runs: Seq<Run>, layout: DashboardLayout, sort: RunSort) -> Seq<
    usize,
> {
    sorted_visible_prefix(runs, layout, sort, runs.len())
}


proof fn lemma_insert_sorted_contents(
    runs: Seq<Run>,
    layout: DashboardLayout,
    sort: RunSort,
    s: Seq<usize>,
    x: usize,
)
    ensures
        insert_sorted(runs, layout, sort, s, x).len() == s.len() + 1,
        forall|y: usize|
            #[trigger] insert_sorted(runs, layout, sort, s, x).contains(y) <==> (y == x
                || s.contains(y)),
    decreases s.len(),
{
    let r = insert_sorted(runs, layout, sort, s, x);
    if s.len() == 0 {
        assert(r =~= seq![x]);
        assert forall|y: usize| r.contains(y) <==> (y == x || s.contains(y)) by {
            if r.contains(y) {
                assert(r[0] == y);
            }
            if y == x {
                assert(r[0] == x);
            }
        }
    } else if sorts_before(runs, layout, sort, x as int, s[0] as int) {
        assert forall|y: usize| r.contains(y) <==> (y == x || s.contains(y)) by {
            if r.contains(y) {
                let k = choose|k: int| 0 <= k < r.len() && r[k] == y;
                if k > 0 {
                    assert(s[k - 1] == y);
                }
            }
            if y == x {
                assert(r[0] == x);
            }
            if s.contains(y) {
                let k = choose|k: int| 0 <= k < s.len() && s[k] == y;
                assert(r[k + 1] == y);
            }
        }
    } else {
        let t = s.drop_first();
        lemma_insert_sorted_contents(runs, layout, sort, t, x);
        let rt = insert_sorted(runs, layout, sort, t, x);
        assert forall|y: usize| r.contains(y) <==> (y == x || s.contains(y)) by {
            if r.contains(y) {
                let k = choose|k: int| 0 <= k < r.len() && r[k] == y;
                if k > 0 {
                    assert(rt[k - 1] == y);
                    assert(rt.contains(y));
                    if t.contains(y) {
                        let m = choose|m: int| 0 <= m < t.len() && t[m] == y;
                        assert(s[m + 1] == y);
                    }
                } else {
                    assert(s[0] == y);
                }
            }
            if y == x {
                assert(rt.contains(x));
                let m = choose|m: int| 0 <= m < rt.len() && rt[m] == x;
                assert(r[m + 1] == x);
            }
            if s.contains(y) {
                let k = choose|k: int| 0 <= k < s.len() && s[k] == y;
                if k == 0 {
                    assert(r[0] == y);
                } else {
                    assert(t[k - 1] == y);
                    assert(rt.contains(y));
                    let m = choose|m: int| 0 <= m < rt.len() && rt[m] == y;
                    assert(r[m + 1] == y);
                }
            }
        }
    }
}

/// The shown indices among the first `n` runs are exactly the visible ones
/// below `n`, and there is one entry for each.
pub proof fn lemma_prefix_contents(
    runs: Seq<Run>,
    layout: DashboardLayout,
    sort: RunSort,
    n: nat,
)
    requires
        n <= runs.len(),
        runs.len() <= usize::MAX,
    ensures
        forall|k: int|
            0 <= k < sorted_visible_prefix(runs, layout, sort, n).len() ==> #[trigger] sorted_visible_prefix(
                runs,
                layout,
                sort,
                n,
            )[k] < n,
        forall|y: usize|
            #[trigger] sorted_visible_prefix(runs, layout, sort, n).contains(y) <==> (y < n
                && spec_run_visible(runs[y as int], runs, layout)),
    decreases n,
{
    if n > 0 {
        let prev = sorted_visible_prefix(runs, layout, sort, (n - 1) as nat);
        lemma_prefix_contents(runs, layout, sort, (n - 1) as nat);
        let cur = sorted_visible_prefix(runs, layout, sort, n);
        if spec_run_visible(runs[n - 1], runs, layout) {
            lemma_insert_sorted_contents(runs, layout, sort, prev, (n - 1) as usize);
        }
        assert forall|k: int| 0 <= k < cur.len() implies #[trigger] cur[k] < n by {
            assert(cur.contains(cur[k]));
            if cur[k] != n - 1 {
                assert(prev.contains(cur[k]));
            }
        }
    }
}

proof fn lemma_insert_at(
    runs: Seq<Run>,
    layout: DashboardLayout,
    sort: RunSort,
    s: Seq<usize>,
    x: usize,
    p: int,
)
    requires
        0 <= p <= s.len(),
        forall|k: int| 0 <= k < p ==> !sorts_before(runs, layout, sort, x as int, #[trigger] s[k] as int),
        p < s.len() ==> sorts_before(runs, layout, sort, x as int, s[p] as int),
    ensures
        insert_sorted(runs, layout, sort, s, x) =~= s.insert(p, x),
    decreases p,
{
    if p > 0 {
        assert(!sorts_before(runs, layout, sort, x as int, s[0] as int));
        let t = s.drop_first();
        assert forall|k: int| 0 <= k < p - 1 implies !sorts_before(runs, layout, sort, x as int, #[trigger] t[k] as int) by {
            assert(t[k] == s[k + 1]);
        }
        if p - 1 < t.len() {
            assert(t[p - 1] == s[p]);
        }
        lemma_insert_at(runs, layout, sort, t, x, p - 1);
        assert(seq![s[0]] + t.insert(p - 1, x) =~= s.insert(p, x));
    }
}

/// The indices of the runs that the table shows in `layout`, ordered by
/// `sort`: newest first, ties broken by the larger id and then by the
/// order of `runs`, with successful runs last where `sort` asks for it in
/// the in-progress layout.
pub fn sorted_visible_run_indices(runs: &[Run], layout: DashboardLayout, sort: RunSort) -> (r: Vec<usize>)
    ensures
        r@ == spec_sorted_visible(runs@, layout, sort),
{
    let mut res: Vec<usize> = Vec::new();
    let mut i: usize = 0;
    while i < runs.len()
        invariant
            i <= runs@.len(),
            res@ == sorted_visible_prefix(runs@, layout, sort, i as nat),
        decreases runs@.len() - i,
    {
        proof {
            lemma_prefix_contents(runs@, layout, sort, i as nat);
        }
        if run_visible_in_layout(&runs[i], runs, layout) {
            let mut p: usize = 0;
            while p < res.len() && !sorts_before_exec(runs, layout, sort, i, res[p])
                invariant
                    i < runs@.len(),
                    p <= res@.len(),
                    forall|k: int| 0 <= k < res@.len() ==> #[trigger] res@[k] < runs@.len(),
                    forall|k: int| 0 <= k < p ==> !sorts_before(runs@, layout, sort, i as int, #[trigger] res@[k] as int),
                decreases res@.len() - p,
            {
                p = p + 1;
            }
            proof {
                lemma_insert_at(runs@, layout, sort, res@, i, p as int);
            }
            res.insert(p, i);
        }
        i = i + 1;
    }
    res
}

/// Whether every entry of `s` sorts before every later entry.
pub open spec fn strictly_sorted(
    runs: Seq<Run>,
    layout: DashboardLayout,
    sort: RunSort,
    s: Seq<usize>,
) -> bool {
    forall|a: int, b: int|
        0 <= a < b < s.len() ==> sorts_before(runs, layout, sort, #[trigger] s[a] as int, #[trigger] s[b] as int)
}

/// The table order is a strict total order on the indices of the runs.
pub proof fn lemma_sorts_before_total_order(
    runs: Seq<Run>,
    layout: DashboardLayout,
    sort: RunSort,
    i: int,
    j: int,
    k: int,
)
    requires
        0 <= i < runs.len(),
        0 <= j < runs.len(),
        0 <= k < runs.len(),
    ensures
        !sorts_before(runs, layout, sort, i, i),
        i != j ==> sorts_before(runs, layout, sort, i, j) || sorts_before(runs, layout, sort, j, i),
        !(sorts_before(runs, layout, sort, i, j) && sorts_before(runs, layout, sort, j, i)),
        sorts_before(runs, layout, sort, i, j) && sorts_before(runs, layout, sort, j, k)
            ==> sorts_before(runs, layout, sort, i, k),
{
}

proof fn lemma_insert_sorted_sorted(
    runs: Seq<Run>,
    layout: DashboardLayout,
    sort: RunSort,
    s: Seq<usize>,
    x: usize,
)
    requires
        x < runs.len(),
        forall|k: int| 0 <= k < s.len() ==> #[trigger] s[k] < runs.len(),
        !s.contains(x),
        strictly_sorted(runs, layout, sort, s),
    ensures
        strictly_sorted(runs, layout, sort, insert_sorted(runs, layout, sort, s, x)),
    decreases s.len(),
{
    let r = insert_sorted(runs, layout, sort, s, x);
    if s.len() == 0 {
    } else if sorts_before(runs, layout, sort, x as int, s[0] as int) {
        assert forall|a: int, b: int| 0 <= a < b < r.len() implies sorts_before(runs, layout, sort, #[trigger] r[a] as int, #[trigger] r[b] as int) by {
            if a == 0 {
                assert(r[b] == s[b - 1]);
                if b - 1 > 0 {
                    assert(sorts_before(runs, layout, sort, s[0] as int, s[b - 1] as int));
                    lemma_sorts_before_total_order(runs, layout, sort, x as int, s[0] as int, s[b - 1] as int);
                }
            } else {
                assert(r[a] == s[a - 1] && r[b] == s[b - 1]);
            }
        }
    } else {
        let t = s.drop_first();
        assert(!t.contains(x)) by {
            if t.contains(x) {
                let m = choose|m: int| 0 <= m < t.len() && t[m] == x;
                assert(s[m + 1] == x);
            }
        }
        assert(strictly_sorted(runs, layout, sort, t)) by {
            assert forall|a: int, b: int| 0 <= a < b < t.len() implies sorts_before(runs, layout, sort, #[trigger] t[a] as int, #[trigger] t[b] as int) by {
                assert(t[a] == s[a + 1] && t[b] == s[b + 1]);
            }
        }
        lemma_insert_sorted_sorted(runs, layout, sort, t, x);
        lemma_insert_sorted_contents(runs, layout, sort, t, x);
        let rt = insert_sorted(runs, layout, sort, t, x);
        assert(x != s[0]) by {
            assert(s[0] == s[0]);
            if x == s[0] {
                assert(s.contains(x));
            }
        }
        lemma_sorts_before_total_order(runs, layout, sort, x as int, s[0] as int, x as int);
        assert forall|a: int, b: int| 0 <= a < b < r.len() implies sorts_before(runs, layout, sort, #[trigger] r[a] as int, #[trigger] r[b] as int) by {
            if a == 0 {
                let y = rt[b - 1];
                assert(r[b] == y);
                assert(rt.contains(y));
                if y != x {
                    assert(t.contains(y));
                    let m = choose|m: int| 0 <= m < t.len() && t[m] == y;
                    assert(s[m + 1] == y);
                }
            } else {
                assert(r[a] == rt[a - 1] && r[b] == rt[b - 1]);
            }
        }
    }
}

/// The shown prefix is in strict table order.
proof fn lemma_prefix_sorted(
    runs: Seq<Run>,
    layout: DashboardLayout,
    sort: RunSort,
    n: nat,
)
    requires
        n <= runs.len(),
        runs.len() <= usize::MAX,
    ensures
        strictly_sorted(runs, layout, sort, sorted_visible_prefix(runs, layout, sort, n)),
    decreases n,
{
    if n > 0 {
        let prev = sorted_visible_prefix(runs, layout, sort, (n - 1) as nat);
        lemma_prefix_sorted(runs, layout, sort, (n - 1) as nat);
        lemma_prefix_contents(runs, layout, sort, (n - 1) as nat);
        if spec_run_visible(runs[n - 1], runs, layout) {
            assert forall|k: int| 0 <= k < prev.len() implies #[trigger] prev[k] < runs.len() by {}
            lemma_insert_sorted_sorted(runs, layout, sort, prev, (n - 1) as usize);
        }
    }
}

/// The runs table lists each visible run once and no other run, and lists
/// them in strict table order.
pub proof fn lemma_sorted_visible_exact(runs: Seq<Run>, layout: DashboardLayout, sort: RunSort)
    requires
        runs.len() <= usize::MAX,
    ensures
        forall|y: usize|
            #[trigger] spec_sorted_visible(runs, layout, sort).contains(y) <==> (y < runs.len()
                && spec_run_visible(runs[y as int], runs, layout)),
        spec_sorted_visible(runs, layout, sort).no_duplicates(),
        strictly_sorted(runs, layout, sort, spec_sorted_visible(runs, layout, sort)),
{
    let s = spec_sorted_visible(runs, layout, sort);
    lemma_prefix_contents(runs, layout, sort, runs.len());
    lemma_prefix_sorted(runs, layout, sort, runs.len());
    assert forall|a: int, b: int| 0 <= a < s.len() && 0 <= b < s.len() && a != b implies s[a] != s[b] by {
        if a < b {
            assert(sorts_before(runs, layout, sort, s[a] as int, s[b] as int));
            lemma_sorts_before_total_order(runs, layout, sort, s[a] as int, s[a] as int, s[a] as int);
        } else {
            assert(sorts_before(runs, layout, sort, s[b] as int, s[a] as int));
            lemma_sorts_before_total_order(runs, layout, sort, s[b] as int, s[b] as int, s[b] as int);
        }
    }
}

/// In the in-progress layout with successes last, no successful run is
/// listed before a run that did not succeed.
pub proof fn lemma_successes_listed_last(runs: Seq<Run>)
    requires
        runs.len() <= usize::MAX,
    ensures
        ({
            let s = spec_sorted_visible(runs, DashboardLayout::InProgress, RunSort::TimeDescSuccessesLast);
            forall|a: int, b: int|
                0 <= a < b < s.len() && spec_run_succeeded(runs[#[trigger] s[a] as int])
                    ==> spec_run_succeeded(runs[#[trigger] s[b] as int])
        }),
{
    lemma_sorted_visible_exact(runs, DashboardLayout::InProgress, RunSort::TimeDescSuccessesLast);
}

/// Except in the in-progress layout with the successes-last order, the
/// table lists newer runs first: creation times never increase down the
/// table. The all layout does so for every order.
pub proof fn lemma_newest_first(runs: Seq<Run>, layout: DashboardLayout, sort: RunSort)
    requires
        runs.len() <= usize::MAX,
        layout == DashboardLayout::All || sort == RunSort::TimeDesc,
    ensures
        ({
            let s = spec_sorted_visible(runs, layout, sort);
            forall|a: int, b: int|
                0 <= a < b < s.len() ==> !runs[#[trigger] s[a] as int].created_at.spec_before(
                    runs[#[trigger] s[b] as int].created_at,
                )
        }),
{
    lemma_sorted_visible_exact(runs, layout, sort);
}

/// In the in-progress layout with the successes-last order, runs that both
/// succeeded, or both did not, are listed newer first.
pub proof fn lemma_newest_first_within_outcome(runs: Seq<Run>)
    requires
        runs.len() <= usize::MAX,
    ensures
        ({
            let s = spec_sorted_visible(runs, DashboardLayout::InProgress, RunSort::TimeDescSuccessesLast);
            forall|a: int, b: int|
                0 <= a < b < s.len() && spec_run_succeeded(runs[#[trigger] s[a] as int])
                    == spec_run_succeeded(runs[#[trigger] s[b] as int])
                    ==> !runs[s[a] as int].created_at.spec_before(runs[s[b] as int].created_at)
        }),
{
    lemma_sorted_visible_exact(runs, DashboardLayout::InProgress, RunSort::TimeDescSuccessesLast);
}

/// The all layout lists every run.
pub proof fn lemma_all_layout_lists_every_run(runs: Seq<Run>, sort: RunSort)
    requires
        runs.len() <= usize::MAX,
    ensures
        spec_sorted_visible(runs, DashboardLayout::All, sort).len() == runs.len(),
        forall|y: usize|
            y < runs.len() ==> #[trigger] spec_sorted_visible(runs, DashboardLayout::All, sort).contains(y),
{
    lemma_sorted_visible_exact(runs, DashboardLayout::All, sort);
    lemma_prefix_len(runs, DashboardLayout::All, sort, runs.len());
}

/// The number of visible runs among the first `n`.
pub open spec fn visible_count(runs: Seq<Run>, layout: DashboardLayout, n: nat) -> nat
    decreases n,
{
    if n == 0 {
        0
    } else {
        visible_count(runs, layout, (n - 1) as nat) + if spec_run_visible(runs[n - 1], runs, layout) {
            1nat
        } else {
            0nat
        }
    }
}

/// The shown prefix has one entry per visible run.
pub proof fn lemma_prefix_len(runs: Seq<Run>, layout: DashboardLayout, sort: RunSort, n: nat)
    requires
        n <= runs.len(),
    ensures
        sorted_visible_prefix(runs, layout, sort, n).len() == visible_count(runs, layout, n),
        layout == DashboardLayout::All ==> visible_count(runs, layout, n) == n,
    decreases n,
{
    if n > 0 {
        lemma_prefix_len(runs, layout, sort, (n - 1) as nat);
        if spec_run_visible(runs[n - 1], runs, layout) {
            lemma_insert_sorted_contents(
                runs,
                layout,
                sort,
                sorted_visible_prefix(runs, layout, sort, (n - 1) as nat),
                (n - 1) as usize,
            );
        }
    }
}

/// The table shows no more runs than there are.
pub proof fn lemma_visible_at_most_runs(runs: Seq<Run>, layout: DashboardLayout, sort: RunSort)
    ensures
        spec_sorted_visible(runs, layout, sort).len() <= runs.len(),
{
    lemma_prefix_len(runs, layout, sort, runs.len());
    lemma_visible_count_at_most(runs, layout, runs.len());
}

proof fn lemma_visible_count_at_most(runs: Seq<Run>, layout: DashboardLayout, n: nat)
    ensures
        visible_count(runs, layout, n) <= n,
    decreases n,
{
    if n > 0 {
        lemma_visible_count_at_most(runs, layout, (n - 1) as nat);
    }
}

/// What the in-progress layout shows of a run, in terms of the run and the
/// other runs: every run still queued, in progress, requested, waiting or
/// pending; a finished run that failed exactly when no newer run of its
/// workflow on its branch has started or succeeded; a finished run that
/// succeeded exactly when no newer run of its workflow exists on any
/// branch; no other finished run. The all layout shows every run.
pub proof fn lemma_in_progress_layout_shows(run: Run, runs: Seq<Run>)
    ensures
        spec_run_visible(run, runs, DashboardLayout::All),
        ({
            let st = run.status@;
            st == "queued"@ || st == "in_progress"@ || st == "requested"@ || st == "waiting"@
                || st == "pending"@
        }) ==> spec_run_visible(run, runs, DashboardLayout::InProgress),
        !spec_run_in_progress(run) && is_failure_label(run.spec_status_label()) ==> (spec_run_visible(
            run,
            runs,
            DashboardLayout::InProgress,
        ) <==> forall|j: int|
            0 <= j < runs.len() && runs[j].spec_workflow_label() == run.spec_workflow_label()
                && runs[j].head_branch@ == run.head_branch@ && #[trigger] run.created_at.spec_before(
                runs[j].created_at,
            ) ==> runs[j].started_at is None && runs[j].spec_status_label() != "success"@),
        !spec_run_in_progress(run) && run.spec_status_label() == "success"@ ==> (spec_run_visible(
            run,
            runs,
            DashboardLayout::InProgress,
        ) <==> forall|j: int|
            0 <= j < runs.len() && runs[j].spec_workflow_label() == run.spec_workflow_label()
                ==> !#[trigger] run.created_at.spec_before(runs[j].created_at)),
        !spec_run_in_progress(run) && !is_failure_label(run.spec_status_label())
            && run.spec_status_label() != "success"@ ==> !spec_run_visible(
            run,
            runs,
            DashboardLayout::InProgress,
        ),
{
    reveal_strlit("success");
    reveal_strlit("failure");
    reveal_strlit("cancelled");
    reveal_strlit("timed_out");
    reveal_strlit("startup_failure");
    reveal_strlit("action_required");
    let label = run.spec_status_label();
    if is_failure_label(label) {
        assert(label[0] != "success"@[0] || label.len() != "success"@.len());
    }
    if !spec_run_in_progress(run) && is_failure_label(label) {
        if spec_run_visible(run, runs, DashboardLayout::InProgress) {
            assert forall|j: int|
                0 <= j < runs.len() && runs[j].spec_workflow_label() == run.spec_workflow_label()
                    && runs[j].head_branch@ == run.head_branch@ && #[trigger] run.created_at.spec_before(
                    runs[j].created_at,
                ) implies runs[j].started_at is None && runs[j].spec_status_label() != "success"@ by {
                assert(spec_same_workflow_branch(run, runs[j]));
            }
        } else {
            let j = choose|j: int|
                0 <= j < runs.len() && #[trigger] spec_same_workflow_branch(run, runs[j])
                    && run.created_at.spec_before(runs[j].created_at) && (spec_run_started(runs[j])
                    || spec_run_succeeded(runs[j]));
            assert(run.created_at.spec_before(runs[j].created_at));
        }
    }
    if !spec_run_in_progress(run) && label == "success"@ {
        if !spec_run_visible(run, runs, DashboardLayout::InProgress) {
            let j = choose|j: int|
                0 <= j < runs.len() && #[trigger] spec_same_workflow(run, runs[j])
                    && run.created_at.spec_before(runs[j].created_at);
            assert(run.created_at.spec_before(runs[j].created_at));
        } else {
            assert forall|j: int|
                0 <= j < runs.len() && runs[j].spec_workflow_label() == run.spec_workflow_label()
                    implies !#[trigger] run.created_at.spec_before(runs[j].created_at) by {
                assert(spec_same_workflow(run, runs[j]));
            }
        }
    }
}

} // verus!
