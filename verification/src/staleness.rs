//! The staleness classifier: a pure function from the last fetch time, the
//! project identifier and the configured windows to a three-valued freshness
//! verdict.
//!
//! Refresh instants lie on a per-project grid: within a window of `window`
//! seconds, each project is assigned the phase `project_id % window`, so that
//! refreshes spread evenly over the window instead of synchronizing.

use vstd::arithmetic::div_mod::{
    lemma_add_mod_noop, lemma_fundamental_div_mod, lemma_mod_bound, lemma_mod_multiples_vanish,
    lemma_small_mod,
};
use vstd::prelude::*;

verus! {

/// The current freshness of a cached project snapshot.
#[derive(Clone, Copy, Debug, Eq, PartialEq, Hash, Structural)]
pub enum Outdated {
    /// The snapshot is up to date.
    Updated,
    /// The snapshot is outdated, but requests may still be served from it
    /// while it is refreshed in the background.
    SoftOutdated,
    /// The snapshot is completely outdated and callers must wait for a new
    /// one to be fetched.
    HardOutdated,
}

/// Orders the three verdicts from freshest to stalest.
pub open spec fn staleness_rank(v: Outdated) -> int {
    match v {
        Outdated::Updated => 0,
        Outdated::SoftOutdated => 1,
        Outdated::HardOutdated => 2,
    }
}

/// The deterministic phase of a project within the refresh window.
pub open spec fn project_shift(project_id: int, window: int) -> int
    recommends
        window >= 1,
{
    project_id % window
}

/// The first instant strictly after `last_fetch` that is congruent to the
/// project's phase modulo `window`. If `last_fetch` itself lies on the grid,
/// the next fetch is one full window later, never the same instant.
pub open spec fn next_fetch_time(last_fetch: int, project_id: int, window: int) -> int
    recommends
        window >= 1,
        last_fetch >= 0,
        project_id >= 0,
{
    let shift = project_shift(project_id, window);
    let diff = (last_fetch + window - shift) % window;
    last_fetch + window - diff
}

/// The staleness verdict at time `now` for a snapshot fetched at
/// `last_fetch`: `Updated` strictly before the next grid instant,
/// `SoftOutdated` from the grid instant up to the end of the grace period,
/// and `HardOutdated` from then on.
pub open spec fn classify(
    last_fetch: int,
    project_id: int,
    window: int,
    grace: int,
    now: int,
) -> Outdated
    recommends
        window >= 1,
        last_fetch >= 0,
        project_id >= 0,
{
    let next = next_fetch_time(last_fetch, project_id, window);
    if now >= next + grace {
        Outdated::HardOutdated
    } else if now >= next {
        Outdated::SoftOutdated
    } else {
        Outdated::Updated
    }
}

/// Computes the staleness verdict of a snapshot.
///
/// The arithmetic is carried out in 128 bits, so no combination of inputs
/// overflows.
pub fn classify_at(
    last_fetch: u64,
    project_id: u64,
    window: u64,
    grace: u64,
    now: u64,
) -> (v: Outdated)
    requires
        window >= 1,
    ensures
        v == classify(last_fetch as int, project_id as int, window as int, grace as int, now as int),
{
    let w: u128 = window as u128;
    let shift: u128 = (project_id as u128) % w;
    let lf: u128 = last_fetch as u128;
    let diff: u128 = (lf + w - shift) % w;
    let next: u128 = lf + w - diff;
    proof {
        lemma_mod_bound(project_id as int, window as int);
        lemma_mod_bound(last_fetch + window - project_shift(project_id as int, window as int),
            window as int);
    }
    if (now as u128) >= next + (grace as u128) {
        Outdated::HardOutdated
    } else if (now as u128) >= next {
        Outdated::SoftOutdated
    } else {
        Outdated::Updated
    }
}

/// The next fetch instant lies strictly after the last fetch, at most one
/// window later, and on the project's grid.
pub proof fn lemma_next_fetch_bounds(last_fetch: int, project_id: int, window: int)
    requires
        window >= 1,
        last_fetch >= 0,
        project_id >= 0,
    ensures
        last_fetch < next_fetch_time(last_fetch, project_id, window),
        next_fetch_time(last_fetch, project_id, window) <= last_fetch + window,
        next_fetch_time(last_fetch, project_id, window) % window == project_id % window,
{
    let shift = project_shift(project_id, window);
    lemma_mod_bound(project_id, window);
    let m = last_fetch + window - shift;
    lemma_mod_bound(m, window);
    let next = next_fetch_time(last_fetch, project_id, window);
    lemma_fundamental_div_mod(m, window);
    assert(next == shift + window * (m / window));
    lemma_mod_multiples_vanish(m / window, shift, window);
    lemma_small_mod(shift as nat, window as nat);
}

/// Grid alignment is independent of absolute time: two last-fetch instants
/// that are congruent modulo the window schedule their next fetch at the
/// same offset.
pub proof fn lemma_grid_alignment(lf1: int, lf2: int, project_id: int, window: int)
    requires
        window >= 1,
        lf1 >= 0,
        lf2 >= 0,
        project_id >= 0,
        lf1 % window == lf2 % window,
    ensures
        next_fetch_time(lf1, project_id, window) - lf1
            == next_fetch_time(lf2, project_id, window) - lf2,
{
    let shift = project_shift(project_id, window);
    lemma_mod_bound(project_id, window);
    lemma_add_mod_noop(lf1, window - shift, window);
    lemma_add_mod_noop(lf2, window - shift, window);
}

/// The verdict over time: `Updated` from the moment of the fetch up to the
/// next grid instant, `SoftOutdated` from there for exactly the grace
/// period, `HardOutdated` afterwards — never earlier.
pub proof fn lemma_staleness_thresholds(last_fetch: int, project_id: int, window: int, grace: int)
    requires
        window >= 1,
        grace >= 0,
        last_fetch >= 0,
        project_id >= 0,
    ensures
        classify(last_fetch, project_id, window, grace, last_fetch) == Outdated::Updated,
        forall|now: int|
            now < next_fetch_time(last_fetch, project_id, window) ==> classify(
                last_fetch,
                project_id,
                window,
                grace,
                now,
            ) == Outdated::Updated,
        forall|now: int|
            next_fetch_time(last_fetch, project_id, window) <= now < next_fetch_time(
                last_fetch,
                project_id,
                window,
            ) + grace ==> classify(last_fetch, project_id, window, grace, now)
                == Outdated::SoftOutdated,
        forall|now: int|
            now >= next_fetch_time(last_fetch, project_id, window) + grace ==> classify(
                last_fetch,
                project_id,
                window,
                grace,
                now,
            ) == Outdated::HardOutdated,
{
    lemma_next_fetch_bounds(last_fetch, project_id, window);
}

/// The verdict is monotonic in `now`: as time advances it only moves from
/// `Updated` towards `HardOutdated`, never back.
pub proof fn lemma_staleness_monotonic(
    last_fetch: int,
    project_id: int,
    window: int,
    grace: int,
    n1: int,
    n2: int,
)
    requires
        window >= 1,
        grace >= 0,
        last_fetch >= 0,
        project_id >= 0,
        n1 <= n2,
    ensures
        staleness_rank(classify(last_fetch, project_id, window, grace, n1)) <= staleness_rank(
            classify(last_fetch, project_id, window, grace, n2),
        ),
{
}

} // verus!
