use vstd::prelude::*;

use crate::grid::{grid_wf, grid_write, in_bounds, GRID_SIZE};
use crate::status::{MoleError, MoleStatus};
use crate::whacker::{
    apply_writes, count_hits, detect_prefix, detect_row_prefix, detect_spec, handle_whack_rel,
    is_escape_result, is_hit, is_miss_result, spawn_phase, spawn_rel, spawn_write_ok,
    style_points_spec, whack_chain, whack_phase, whack_rel, wrap_inc, WhackResult, WhackerModel,
    PERFECT_FORCE_TENTHS,
};

verus! {

/// Overwriting one in-bounds cell keeps the grid well formed and changes no
/// other cell.
pub proof fn lemma_grid_write_cells(g: Seq<Seq<MoleStatus>>, x: int, y: int, s: MoleStatus)
    requires
        grid_wf(g),
        in_bounds(x, y),
    ensures
        grid_wf(grid_write(g, x, y, s)),
        grid_write(g, x, y, s)[x][y] == s,
        forall|i: int, j: int|
            in_bounds(i, j) && (i != x || j != y) ==> #[trigger] grid_write(g, x, y, s)[i][j]
                == g[i][j],
{
}

/// A whack outside the bounds fails with `OutOfBounds` and mutates nothing:
/// not the grid, not the counters.
pub proof fn lemma_out_of_bounds_whack_is_harmless(
    pre: WhackerModel,
    post: WhackerModel,
    x: int,
    y: int,
    r: Result<WhackResult, MoleError>,
)
    requires
        !in_bounds(x, y),
        whack_rel(pre, post, x, y, r),
    ensures
        r == Err::<WhackResult, MoleError>(MoleError::OutOfBounds),
        post == pre,
{
}

/// Whacking an `Exposed` cell succeeds: the cell becomes `Whacked`, every
/// other cell stands, and the success counter grows by exactly one.
pub proof fn lemma_exposed_whack_succeeds(
    pre: WhackerModel,
    post: WhackerModel,
    x: int,
    y: int,
    r: Result<WhackResult, MoleError>,
)
    requires
        pre.wf(),
        in_bounds(x, y),
        pre.grid[x][y] == MoleStatus::Exposed,
        pre.moles_whacked < u64::MAX,
        whack_rel(pre, post, x, y, r),
    ensures
        r matches Ok(res) && res.success == true && res.mole_escaped == false,
        post.grid[x][y] == MoleStatus::Whacked,
        forall|i: int, j: int|
            in_bounds(i, j) && (i != x || j != y) ==> #[trigger] post.grid[i][j] == pre.grid[i][j],
        post.moles_whacked == pre.moles_whacked + 1,
{
    lemma_grid_write_cells(pre.grid, x, y, MoleStatus::Whacked);
}

/// Whacking the same cell a second time, after a successful whack, is a
/// miss: style penalty of -10, counter and grid untouched.
pub proof fn lemma_second_whack_misses(
    s0: WhackerModel,
    s1: WhackerModel,
    s2: WhackerModel,
    x: int,
    y: int,
    r1: Result<WhackResult, MoleError>,
    r2: Result<WhackResult, MoleError>,
)
    requires
        s0.wf(),
        in_bounds(x, y),
        s0.grid[x][y] == MoleStatus::Exposed,
        whack_rel(s0, s1, x, y, r1),
        whack_rel(s1, s2, x, y, r2),
    ensures
        r2 matches Ok(res) && is_miss_result(res),
        s2.grid == s1.grid,
        s2.moles_whacked == s1.moles_whacked,
{
    lemma_grid_write_cells(s0.grid, x, y, MoleStatus::Whacked);
    assert(s1.grid[x][y] == MoleStatus::Whacked);
}

/// A `QuantumTunneling` cell always escapes, and repeated whacks at it are
/// idempotent: the cell keeps its status, the counter never moves, and every
/// attempt returns the identical escape outcome.
pub proof fn lemma_tunneling_escape_idempotent(
    s0: WhackerModel,
    s1: WhackerModel,
    s2: WhackerModel,
    x: int,
    y: int,
    r1: Result<WhackResult, MoleError>,
    r2: Result<WhackResult, MoleError>,
)
    requires
        s0.wf(),
        in_bounds(x, y),
        s0.grid[x][y] == MoleStatus::QuantumTunneling,
        whack_rel(s0, s1, x, y, r1),
        whack_rel(s1, s2, x, y, r2),
    ensures
        r1 matches Ok(a) && is_escape_result(a),
        r2 matches Ok(b) && is_escape_result(b),
        s1.grid == s0.grid,
        s2.grid == s0.grid,
        s1.moles_whacked == s0.moles_whacked,
        s2.moles_whacked == s0.moles_whacked,
{
}

proof fn lemma_detect_row_prefix_only_exposed(g: Seq<Seq<MoleStatus>>, x: int, n: int)
    requires
        grid_wf(g),
        0 <= x < GRID_SIZE,
        0 <= n <= GRID_SIZE,
    ensures
        forall|i: int|
            0 <= i < detect_row_prefix(g, x, n).len() ==> {
                let c = #[trigger] detect_row_prefix(g, x, n)[i];
                &&& c.0 == x
                &&& c.1 < n
                &&& g[c.0 as int][c.1 as int] == MoleStatus::Exposed
            },
    decreases n,
{
    if n > 0 {
        lemma_detect_row_prefix_only_exposed(g, x, n - 1);
        let prev = detect_row_prefix(g, x, n - 1);
        let cur = detect_row_prefix(g, x, n);
        assert forall|i: int| 0 <= i < cur.len() implies {
            let c = #[trigger] cur[i];
            &&& c.0 == x
            &&& c.1 < n
            &&& g[c.0 as int][c.1 as int] == MoleStatus::Exposed
        } by {
            if i < prev.len() {
                assert(cur[i] == prev[i]);
            } else {
                assert(cur[i] == (x as usize, (n - 1) as usize));
            }
        }
    }
}

proof fn lemma_detect_prefix_only_exposed(g: Seq<Seq<MoleStatus>>, m: int)
    requires
        grid_wf(g),
        0 <= m <= GRID_SIZE,
    ensures
        forall|i: int|
            0 <= i < detect_prefix(g, m).len() ==> {
                let c = #[trigger] detect_prefix(g, m)[i];
                &&& c.0 < m
                &&& c.1 < GRID_SIZE
                &&& g[c.0 as int][c.1 as int] == MoleStatus::Exposed
            },
    decreases m,
{
    if m > 0 {
        lemma_detect_prefix_only_exposed(g, m - 1);
        lemma_detect_row_prefix_only_exposed(g, m - 1, GRID_SIZE as int);
        let prev = detect_prefix(g, m - 1);
        let row = detect_row_prefix(g, m - 1, GRID_SIZE as int);
        let cur = detect_prefix(g, m);
        assert forall|i: int| 0 <= i < cur.len() implies {
            let c = #[trigger] cur[i];
            &&& c.0 < m
            &&& c.1 < GRID_SIZE
            &&& g[c.0 as int][c.1 as int] == MoleStatus::Exposed
        } by {
            if i < prev.len() {
                assert(cur[i] == prev[i]);
            } else {
                assert(cur[i] == row[i - prev.len()]);
            }
        }
    }
}

/// The detection sweep reports only `Exposed` cells: no coordinate it
/// returns is `Whacked`, `Hidden`, `Emerging` or `QuantumTunneling`.
pub proof fn lemma_detect_only_exposed(g: Seq<Seq<MoleStatus>>)
    requires
        grid_wf(g),
    ensures
        forall|i: int|
            0 <= i < detect_spec(g).len() ==> {
                let c = #[trigger] detect_spec(g)[i];
                &&& in_bounds(c.0 as int, c.1 as int)
                &&& g[c.0 as int][c.1 as int] == MoleStatus::Exposed
            },
{
    lemma_detect_prefix_only_exposed(g, GRID_SIZE as int);
}

proof fn lemma_apply_writes_changes(g: Seq<Seq<MoleStatus>>, ws: Seq<((usize, usize), MoleStatus)>)
    requires
        grid_wf(g),
        forall|i: int| 0 <= i < ws.len() ==> spawn_write_ok(#[trigger] ws[i]),
    ensures
        grid_wf(apply_writes(g, ws)),
        forall|x: int, y: int|
            in_bounds(x, y) && #[trigger] apply_writes(g, ws)[x][y] != g[x][y] ==> (apply_writes(
                g,
                ws,
            )[x][y] == MoleStatus::Exposed || apply_writes(g, ws)[x][y]
                == MoleStatus::QuantumTunneling),
    decreases ws.len(),
{
    if ws.len() > 0 {
        let w = ws[0];
        let g1 = grid_write(g, w.0.0 as int, w.0.1 as int, w.1);
        assert(spawn_write_ok(w));
        lemma_grid_write_cells(g, w.0.0 as int, w.0.1 as int, w.1);
        assert(forall|i: int| 0 <= i < ws.drop_first().len() ==> spawn_write_ok(
            #[trigger] ws.drop_first()[i],
        ));
        lemma_apply_writes_changes(g1, ws.drop_first());
        assert forall|x: int, y: int|
            in_bounds(x, y) && #[trigger] apply_writes(g, ws)[x][y] != g[x][y] implies (apply_writes(
            g,
            ws,
        )[x][y] == MoleStatus::Exposed || apply_writes(g, ws)[x][y]
            == MoleStatus::QuantumTunneling) by {
            assert(apply_writes(g, ws) == apply_writes(g1, ws.drop_first()));
            if apply_writes(g1, ws.drop_first())[x][y] != g1[x][y] {
            } else {
                assert(g1[x][y] != g[x][y]);
                assert(x == w.0.0 as int && y == w.0.1 as int);
                assert(g1[x][y] == w.1);
            }
        }
    }
}

/// A spawn pass leaves the counters alone, and every cell it changed holds a
/// freshly spawned mole: `Exposed` or `QuantumTunneling`.
pub proof fn lemma_spawn_changes_are_moles(pre: WhackerModel, post: WhackerModel)
    requires
        pre.wf(),
        spawn_rel(pre, post),
    ensures
        post.moles_whacked == pre.moles_whacked,
        post.whack_latency_ns == pre.whack_latency_ns,
        forall|x: int, y: int|
            in_bounds(x, y) && #[trigger] post.grid[x][y] != pre.grid[x][y] ==> (post.grid[x][y]
                == MoleStatus::Exposed || post.grid[x][y] == MoleStatus::QuantumTunneling),
{
    let ws = choose|ws: Seq<((usize, usize), MoleStatus)>|
        {
            &&& ws.len() == crate::whacker::SPAWN_BATCH
            &&& (forall|i: int| 0 <= i < ws.len() ==> spawn_write_ok(#[trigger] ws[i]))
            &&& post.grid == #[trigger] apply_writes(pre.grid, ws)
        };
    lemma_apply_writes_changes(pre.grid, ws);
}

/// No whack outcome reports a success and an escape at once, though both
/// flags are false on a plain miss.
pub proof fn lemma_success_escape_exclusive(
    pre: WhackerModel,
    post: WhackerModel,
    x: int,
    y: int,
    r: Result<WhackResult, MoleError>,
)
    requires
        whack_rel(pre, post, x, y, r),
    ensures
        r matches Ok(res) ==> !(res.success && res.mole_escaped),
{
}

/// The facade's responses keep the same exclusion, the collapsed
/// out-of-bounds response included.
pub proof fn lemma_handle_result_exclusive(
    pre: WhackerModel,
    post: WhackerModel,
    x: int,
    y: int,
    r: WhackResult,
)
    requires
        handle_whack_rel(pre, post, x, y, r),
    ensures
        !(r.success && r.mole_escaped),
{
    let mid = choose|mid: WhackerModel|
        #[trigger] spawn_phase(pre, mid) && whack_phase(mid, post, x, y, r);
    if in_bounds(x, y) {
        lemma_success_escape_exclusive(mid, post, x, y, Ok(r));
    }
}

/// A force of exactly 42.0 units scores the perfect 100 style points,
/// whatever the latency.
pub proof fn lemma_answer_force_scores_perfect(latency_ns: u64)
    ensures
        style_points_spec(PERFECT_FORCE_TENTHS, latency_ns) == 100,
{
}

/// One whack transition moves the counter by one exactly when it is a hit.
pub proof fn lemma_whack_counter_step(
    pre: WhackerModel,
    post: WhackerModel,
    x: int,
    y: int,
    r: Result<WhackResult, MoleError>,
)
    requires
        whack_rel(pre, post, x, y, r),
    ensures
        is_hit(r) ==> post.moles_whacked == wrap_inc(pre.moles_whacked),
        !is_hit(r) ==> post.moles_whacked == pre.moles_whacked,
{
}

proof fn lemma_count_hits_nonneg(steps: Seq<((int, int), Result<WhackResult, MoleError>)>)
    ensures
        0 <= count_hits(steps) <= steps.len(),
    decreases steps.len(),
{
    if steps.len() > 0 {
        lemma_count_hits_nonneg(steps.drop_first());
    }
}

/// No update to the success counter is ever lost: after any serialized chain
/// of whack transitions, from any callers in any order, the counter has
/// grown by exactly the number of successful whacks in the chain.
pub proof fn lemma_no_lost_counter_updates(
    states: Seq<WhackerModel>,
    steps: Seq<((int, int), Result<WhackResult, MoleError>)>,
)
    requires
        whack_chain(states, steps),
        states[0].moles_whacked + count_hits(steps) <= u64::MAX,
    ensures
        states.last().moles_whacked == states[0].moles_whacked + count_hits(steps),
    decreases steps.len(),
{
    lemma_count_hits_nonneg(steps);
    if steps.len() == 0 {
        assert(states.last() == states[0]);
    } else {
        let states1 = states.drop_first();
        let steps1 = steps.drop_first();
        assert(whack_rel(states[0], states[1], steps[0].0.0, steps[0].0.1, steps[0].1));
        lemma_whack_counter_step(states[0], states[1], steps[0].0.0, steps[0].0.1, steps[0].1);
        lemma_count_hits_nonneg(steps1);
        assert forall|i: int| 0 <= i < steps1.len() implies whack_rel(
            states1[i],
            states1[i + 1],
            (#[trigger] steps1[i]).0.0,
            steps1[i].0.1,
            steps1[i].1,
        ) by {
            assert(steps1[i] == steps[i + 1]);
            assert(states1[i] == states[i + 1]);
            assert(states1[i + 1] == states[i + 2]);
            assert(whack_rel(states[i + 1], states[i + 2], steps[i + 1].0.0, steps[i + 1].0.1,
                steps[i + 1].1));
        }
        lemma_no_lost_counter_updates(states1, steps1);
        assert(states1.last() == states.last());
    }
}

} // verus!
