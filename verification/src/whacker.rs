use vstd::prelude::*;

use crate::clock::{elapsed_ns, instant_now};
use crate::grid::{grid_wf, grid_write, in_bounds, Grid, GRID_SIZE};
use crate::random::{random_below, random_ratio};
use crate::status::{HammerType, MoleError, MoleStatus, Statistics};

verus! {

broadcast use vstd::string::group_string_axioms;

/// Force values are held in tenths of a force unit, so that a force of 10.0
/// units is the value 100. The truncated whole-unit part of a force `f` is
/// `f / 10`.
pub const FOAM_FORCE_TENTHS: u64 = 100;

pub const RUBBER_FORCE_TENTHS: u64 = 250;

pub const MJOLNIR_FORCE_TENTHS: u64 = 9999 * 10;

/// The `Quantum` tier draws a force under 100.0 units.
pub const QUANTUM_FORCE_LIMIT_TENTHS: u64 = 1000;

/// A force of exactly 42.0 units scores a perfect 100 style points.
pub const PERFECT_FORCE_TENTHS: u64 = 42 * 10;

/// How many cells one spawn pass writes.
pub const SPAWN_BATCH: usize = 10;

/// Abstract state of the service: the grid, the two counters, and the
/// configured hammer tier.
pub ghost struct WhackerModel {
    pub grid: Seq<Seq<MoleStatus>>,
    pub moles_whacked: u64,
    pub whack_latency_ns: u64,
    pub hammer_type: HammerType,
}

impl WhackerModel {
    pub open spec fn wf(self) -> bool {
        grid_wf(self.grid)
    }
}

/// Which force values the configured tier can produce: the three constant
/// tiers are exact, the `Quantum` tier is any draw under its limit.
pub open spec fn force_matches_tier(t: HammerType, f: u64) -> bool {
    match t {
        HammerType::Foam => f == FOAM_FORCE_TENTHS,
        HammerType::Rubber => f == RUBBER_FORCE_TENTHS,
        HammerType::Quantum => f < QUANTUM_FORCE_LIMIT_TENTHS,
        HammerType::Mjolnir => f == MJOLNIR_FORCE_TENTHS,
    }
}

/// Style points for a successful whack: a force of exactly 42.0 units scores
/// 100 outright; otherwise +10 when the truncated whole-unit part of the
/// force is divisible by 10, plus +20 when the latency of the previous
/// operation was under 1000 ns.
pub open spec fn style_points_spec(force_tenths: u64, latency_ns: u64) -> i32 {
    if force_tenths == PERFECT_FORCE_TENTHS {
        100
    } else if (force_tenths / 10) % 10 == 0 && latency_ns < 1000 {
        30
    } else if (force_tenths / 10) % 10 == 0 {
        10
    } else if latency_ns < 1000 {
        20
    } else {
        0
    }
}

/// The successful-whack counter after one more success; the counter wraps as
/// a machine word rather than fail.
pub open spec fn wrap_inc(c: u64) -> u64 {
    if c == u64::MAX {
        0
    } else {
        (c + 1) as u64
    }
}

/// Coordinate plus an optional, currently unused force label.
pub struct WhackRequest {
    pub x: usize,
    pub y: usize,
    pub force: Option<String>,
}

/// Outcome of one whack. `mole_escaped` and `success` are mutually
/// exclusive, but both are false on a plain miss.
#[derive(Debug)]
pub struct WhackResult {
    pub success: bool,
    pub force_tenths: u64,
    pub mole_escaped: bool,
    pub style_points: i32,
    pub message: String,
}

/// The outcome of whacking an `Exposed` cell: a success, scored against the
/// latency of the previous operation.
pub open spec fn is_hit_result(r: WhackResult, prev_latency_ns: u64) -> bool {
    &&& r.success == true
    &&& r.mole_escaped == false
    &&& r.style_points == style_points_spec(r.force_tenths, prev_latency_ns)
    &&& r.message@ == "WHACK! Mole successfully neutralized!"@
}

/// The outcome of whacking a `QuantumTunneling` cell.
pub open spec fn is_escape_result(r: WhackResult) -> bool {
    &&& r.success == false
    &&& r.force_tenths == 0
    &&& r.mole_escaped == true
    &&& r.style_points == 0
    &&& r.message@ == "Mole quantum tunneled to safety!"@
}

/// The outcome of whacking a cell with no whackable mole.
pub open spec fn is_miss_result(r: WhackResult) -> bool {
    &&& r.success == false
    &&& r.force_tenths == 0
    &&& r.mole_escaped == false
    &&& r.style_points == -10
    &&& r.message@ == "Miss! No mole at this location."@
}

/// How one whack call relates the state before it to the state after it and
/// to its result. An out-of-bounds coordinate fails without any mutation; in
/// bounds, the branch is decided by the target cell's status, and the stored
/// latency is a fresh clock reading that the relation leaves open.
pub open spec fn whack_rel(
    pre: WhackerModel,
    post: WhackerModel,
    x: int,
    y: int,
    r: Result<WhackResult, MoleError>,
) -> bool {
    if !in_bounds(x, y) {
        &&& r == Err::<WhackResult, MoleError>(MoleError::OutOfBounds)
        &&& post == pre
    } else {
        &&& post.hammer_type == pre.hammer_type
        &&& match pre.grid[x][y] {
            MoleStatus::Exposed => {
                &&& r matches Ok(res)
                &&& is_hit_result(res, pre.whack_latency_ns)
                &&& force_matches_tier(pre.hammer_type, res.force_tenths)
                &&& post.grid == grid_write(pre.grid, x, y, MoleStatus::Whacked)
                &&& post.moles_whacked == wrap_inc(pre.moles_whacked)
            },
            MoleStatus::QuantumTunneling => {
                &&& r matches Ok(res)
                &&& is_escape_result(res)
                &&& post.grid == pre.grid
                &&& post.moles_whacked == pre.moles_whacked
            },
            _ => {
                &&& r matches Ok(res)
                &&& is_miss_result(res)
                &&& post.grid == pre.grid
                &&& post.moles_whacked == pre.moles_whacked
            },
        }
    }
}

/// A spawn pass writes `Exposed` or `QuantumTunneling` to an in-bounds
/// cell.
pub open spec fn spawn_write_ok(w: ((usize, usize), MoleStatus)) -> bool {
    &&& in_bounds(w.0.0 as int, w.0.1 as int)
    &&& (w.1 == MoleStatus::Exposed || w.1 == MoleStatus::QuantumTunneling)
}

/// The grid after the listed cell writes are applied in order.
pub open spec fn apply_writes(
    g: Seq<Seq<MoleStatus>>,
    ws: Seq<((usize, usize), MoleStatus)>,
) -> Seq<Seq<MoleStatus>>
    decreases ws.len(),
{
    if ws.len() == 0 {
        g
    } else {
        apply_writes(grid_write(g, ws[0].0.0 as int, ws[0].0.1 as int, ws[0].1), ws.drop_first())
    }
}

/// How one spawn pass relates states: the counters and the tier stand, and
/// the grid is the old grid with exactly `SPAWN_BATCH` in-bounds writes
/// applied in order, each `Exposed` or `QuantumTunneling`; duplicate targets
/// are permitted.
pub open spec fn spawn_rel(pre: WhackerModel, post: WhackerModel) -> bool {
    &&& post.moles_whacked == pre.moles_whacked
    &&& post.whack_latency_ns == pre.whack_latency_ns
    &&& post.hammer_type == pre.hammer_type
    &&& exists|ws: Seq<((usize, usize), MoleStatus)>|
        {
            &&& ws.len() == SPAWN_BATCH
            &&& (forall|i: int| 0 <= i < ws.len() ==> spawn_write_ok(#[trigger] ws[i]))
            &&& post.grid == #[trigger] apply_writes(pre.grid, ws)
        }
}

/// Appending one write applies it after all the earlier ones.
pub proof fn lemma_apply_writes_push(
    g: Seq<Seq<MoleStatus>>,
    ws: Seq<((usize, usize), MoleStatus)>,
    w: ((usize, usize), MoleStatus),
)
    ensures
        apply_writes(g, ws.push(w)) == grid_write(
            apply_writes(g, ws),
            w.0.0 as int,
            w.0.1 as int,
            w.1,
        ),
    decreases ws.len(),
{
    if ws.len() == 0 {
        let g1 = grid_write(g, w.0.0 as int, w.0.1 as int, w.1);
        assert(ws.push(w)[0] == w);
        assert(ws.push(w).drop_first() =~= ws);
        assert(apply_writes(g, ws.push(w)) == apply_writes(g1, ws.push(w).drop_first()));
        assert(apply_writes(g1, ws) == g1);
        assert(apply_writes(g, ws) == g);
    } else {
        let g1 = grid_write(g, ws[0].0.0 as int, ws[0].0.1 as int, ws[0].1);
        assert(ws.push(w)[0] == ws[0]);
        assert(ws.push(w).drop_first() =~= ws.drop_first().push(w));
        assert(apply_writes(g, ws.push(w)) == apply_writes(g1, ws.drop_first().push(w)));
        lemma_apply_writes_push(g1, ws.drop_first(), w);
        assert(apply_writes(g, ws) == apply_writes(g1, ws.drop_first()));
    }
}

/// The coordinates of row `x` whose status is `Exposed`, among columns
/// `[0, n)`, in column order.
pub open spec fn detect_row_prefix(g: Seq<Seq<MoleStatus>>, x: int, n: int) -> Seq<
    (usize, usize),
>
    decreases n,
{
    if n <= 0 {
        Seq::empty()
    } else if g[x][n - 1] == MoleStatus::Exposed {
        detect_row_prefix(g, x, n - 1) + seq![(x as usize, (n - 1) as usize)]
    } else {
        detect_row_prefix(g, x, n - 1)
    }
}

/// The `Exposed` coordinates of rows `[0, m)`, in row-major order.
pub open spec fn detect_prefix(g: Seq<Seq<MoleStatus>>, m: int) -> Seq<(usize, usize)>
    decreases m,
{
    if m <= 0 {
        Seq::empty()
    } else {
        detect_prefix(g, m - 1) + detect_row_prefix(g, m - 1, GRID_SIZE as int)
    }
}

/// Every `Exposed` coordinate of the grid, in row-major order.
pub open spec fn detect_spec(g: Seq<Seq<MoleStatus>>) -> Seq<(usize, usize)> {
    detect_prefix(g, GRID_SIZE as int)
}

/// A whack result that hit: it returned a success.
pub open spec fn is_hit(r: Result<WhackResult, MoleError>) -> bool {
    r matches Ok(res) && res.success
}

/// How many of the listed whack outcomes were hits.
pub open spec fn count_hits(steps: Seq<((int, int), Result<WhackResult, MoleError>)>) -> int
    decreases steps.len(),
{
    if steps.len() == 0 {
        0
    } else {
        (if is_hit(steps[0].1) {
            1int
        } else {
            0int
        }) + count_hits(steps.drop_first())
    }
}

/// A serialized chain of whack transitions: each step whacks some coordinate
/// against the state the step before it left.
pub open spec fn whack_chain(
    states: Seq<WhackerModel>,
    steps: Seq<((int, int), Result<WhackResult, MoleError>)>,
) -> bool {
    &&& states.len() == steps.len() + 1
    &&& forall|i: int|
        0 <= i < steps.len() ==> whack_rel(
            states[i],
            states[i + 1],
            (#[trigger] steps[i]).0.0,
            steps[i].0.1,
            steps[i].1,
        )
}

/// The transport-facing shape of an out-of-bounds failure: the error is
/// collapsed into an unsuccessful result with a generic message, so callers
/// cannot tell a bounds error from any other failure.
pub open spec fn is_invalid_coords_result(r: WhackResult) -> bool {
    &&& r.success == false
    &&& r.force_tenths == 0
    &&& r.mole_escaped == false
    &&& r.style_points == 0
    &&& r.message@ == "Error: Invalid whack coordinates"@
}

/// The facade's spawn policy: a spawn pass runs first when a fresh uniform
/// draw lands in the top three tenths of its range, so roughly 30% of whack
/// requests trigger one.
pub const SPAWN_DRAW_CUTOFF: u64 = u64::MAX / 10 * 7;

pub open spec fn spawn_policy(draw: u64) -> bool {
    draw > SPAWN_DRAW_CUTOFF
}

/// First phase of serving one whack request: either no spawn pass ran, or
/// exactly one did.
pub open spec fn spawn_phase(pre: WhackerModel, mid: WhackerModel) -> bool {
    mid == pre || spawn_rel(pre, mid)
}

/// Second phase: the whack itself, with an out-of-bounds failure collapsed
/// into a response-shaped result and no further mutation.
pub open spec fn whack_phase(
    mid: WhackerModel,
    post: WhackerModel,
    x: int,
    y: int,
    r: WhackResult,
) -> bool {
    if in_bounds(x, y) {
        whack_rel(mid, post, x, y, Ok(r))
    } else {
        post == mid && is_invalid_coords_result(r)
    }
}

/// How the facade serves one whack request: an optional spawn pass, then the
/// whack against the state the spawn pass left.
pub open spec fn handle_whack_rel(
    pre: WhackerModel,
    post: WhackerModel,
    x: int,
    y: int,
    r: WhackResult,
) -> bool {
    exists|mid: WhackerModel| #[trigger] spawn_phase(pre, mid) && whack_phase(mid, post, x, y, r)
}

/// The named policy hook behind the facade's random spawning.
pub fn should_spawn(draw: u64) -> (b: bool)
    ensures
        b == spawn_policy(draw),
{
    draw > SPAWN_DRAW_CUTOFF
}

/// Owner of the grid and the counters; every mutation goes through its
/// methods.
pub struct MoleWhacker {
    moles_whacked: u64,
    whack_latency_ns: u64,
    hammer_type: HammerType,
    detection_grid: Grid,
}

impl View for MoleWhacker {
    type V = WhackerModel;

    closed spec fn view(&self) -> WhackerModel {
        WhackerModel {
            grid: self.detection_grid@,
            moles_whacked: self.moles_whacked,
            whack_latency_ns: self.whack_latency_ns,
            hammer_type: self.hammer_type,
        }
    }
}

impl MoleWhacker {
    /// A fresh service: an all-`Hidden` grid, zeroed counters, `Foam` tier.
    pub fn new() -> (w: MoleWhacker)
        ensures
            w@.wf(),
            forall|x: int, y: int| in_bounds(x, y) ==> #[trigger] w@.grid[x][y]
                == MoleStatus::Hidden,
            w@.moles_whacked == 0,
            w@.whack_latency_ns == 0,
            w@.hammer_type == HammerType::Foam,
    {
        MoleWhacker {
            moles_whacked: 0,
            whack_latency_ns: 0,
            hammer_type: HammerType::Foam,
            detection_grid: Grid::new(),
        }
    }

    /// A fresh service configured with another hammer tier.
    pub fn new_with_hammer(hammer: HammerType) -> (w: MoleWhacker)
        ensures
            w@.wf(),
            forall|x: int, y: int| in_bounds(x, y) ==> #[trigger] w@.grid[x][y]
                == MoleStatus::Hidden,
            w@.moles_whacked == 0,
            w@.whack_latency_ns == 0,
            w@.hammer_type == hammer,
    {
        MoleWhacker {
            moles_whacked: 0,
            whack_latency_ns: 0,
            hammer_type: hammer,
            detection_grid: Grid::new(),
        }
    }

    /// The force the configured tier delivers, in tenths of a unit; the
    /// `Quantum` tier draws it at random under its limit.
    pub fn calculate_optimal_whack_force(&self) -> (f: u64)
        ensures
            force_matches_tier(self@.hammer_type, f),
    {
        match self.hammer_type {
            HammerType::Foam => FOAM_FORCE_TENTHS,
            HammerType::Rubber => RUBBER_FORCE_TENTHS,
            HammerType::Quantum => {
                let t = random_below(QUANTUM_FORCE_LIMIT_TENTHS as usize);
                t as u64
            },
            HammerType::Mjolnir => MJOLNIR_FORCE_TENTHS,
        }
    }

    /// Style points for a hit with the given force, scored against the
    /// latency statistic as it stands.
    pub fn calculate_style_points(&self, force_tenths: u64) -> (p: i32)
        ensures
            p == style_points_spec(force_tenths, self@.whack_latency_ns),
    {
        if force_tenths == PERFECT_FORCE_TENTHS {
            return 100;
        }
        let precision_bonus: i32 = if (force_tenths / 10) % 10 == 0 {
            10
        } else {
            0
        };
        let speed_bonus: i32 = if self.whack_latency_ns < 1000 {
            20
        } else {
            0
        };
        precision_bonus + speed_bonus
    }

    /// Whack the cell at `(x, y)`: `OutOfBounds` outside the grid, without
    /// any mutation; inside it, the branch taken is decided by the cell's
    /// status, and the operation's duration replaces the latency statistic.
    pub fn whack_mole(&mut self, x: usize, y: usize) -> (r: Result<WhackResult, MoleError>)
        requires
            old(self)@.wf(),
        ensures
            final(self)@.wf(),
            whack_rel(old(self)@, final(self)@, x as int, y as int, r),
    {
        let start = instant_now();

        if x >= GRID_SIZE || y >= GRID_SIZE {
            return Err(MoleError::OutOfBounds);
        }

        let mole_status = match self.detection_grid.get(x, y) {
            Ok(s) => s,
            Err(e) => {
                return Err(e);
            },
        };

        let result = match mole_status {
            MoleStatus::Exposed => {
                let _ = self.detection_grid.set(x, y, MoleStatus::Whacked);
                self.moles_whacked = if self.moles_whacked == u64::MAX {
                    0
                } else {
                    self.moles_whacked + 1
                };
                let force = self.calculate_optimal_whack_force();
                let style = self.calculate_style_points(force);
                WhackResult {
                    success: true,
                    force_tenths: force,
                    mole_escaped: false,
                    style_points: style,
                    message: "WHACK! Mole successfully neutralized!".to_string(),
                }
            },
            MoleStatus::QuantumTunneling => WhackResult {
                success: false,
                force_tenths: 0,
                mole_escaped: true,
                style_points: 0,
                message: "Mole quantum tunneled to safety!".to_string(),
            },
            _ => WhackResult {
                success: false,
                force_tenths: 0,
                mole_escaped: false,
                style_points: -10,
                message: "Miss! No mole at this location.".to_string(),
            },
        };

        let latency = elapsed_ns(&start);
        self.whack_latency_ns = latency;

        Ok(result)
    }

    /// Write a random batch of moles: `SPAWN_BATCH` uniformly random
    /// in-bounds cells (duplicates permitted), each set to
    /// `QuantumTunneling` with probability one in ten, else `Exposed`. The
    /// counters are untouched.
    pub fn spawn_random_moles(&mut self)
        requires
            old(self)@.wf(),
        ensures
            final(self)@.wf(),
            spawn_rel(old(self)@, final(self)@),
    {
        let ghost pre = self@;
        let ghost mut ws: Seq<((usize, usize), MoleStatus)> = Seq::empty();
        let mut i: usize = 0;
        while i < SPAWN_BATCH
            invariant
                self@.wf(),
                i <= SPAWN_BATCH,
                ws.len() == i,
                forall|k: int| 0 <= k < ws.len() ==> spawn_write_ok(#[trigger] ws[k]),
                self@.grid == apply_writes(pre.grid, ws),
                self@.moles_whacked == pre.moles_whacked,
                self@.whack_latency_ns == pre.whack_latency_ns,
                self@.hammer_type == pre.hammer_type,
            decreases SPAWN_BATCH - i,
        {
            let x = random_below(GRID_SIZE);
            let y = random_below(GRID_SIZE);
            let status = if random_ratio(1, 10) {
                MoleStatus::QuantumTunneling
            } else {
                MoleStatus::Exposed
            };
            let _ = self.detection_grid.set(x, y, status);
            proof {
                let w = ((x, y), status);
                lemma_apply_writes_push(pre.grid, ws, w);
                ws = ws.push(w);
            }
            i = i + 1;
        }
        proof {
            assert(ws.len() == SPAWN_BATCH && self@.grid == apply_writes(pre.grid, ws));
        }
    }

    /// Snapshot of the counters and the configured tier.
    pub fn get_statistics(&self) -> (s: Statistics)
        ensures
            s.moles_whacked == self@.moles_whacked,
            s.last_latency_ns == self@.whack_latency_ns,
            s.hammer_tier == self@.hammer_type,
    {
        Statistics {
            moles_whacked: self.moles_whacked,
            last_latency_ns: self.whack_latency_ns,
            hammer_tier: self.hammer_type,
        }
    }

    /// Scan the whole grid in row-major order and report every coordinate
    /// whose status is `Exposed`. A plain linear sweep, its name
    /// notwithstanding.
    pub fn detect_moles_simd(&self) -> (moles: Vec<(usize, usize)>)
        requires
            self@.wf(),
        ensures
            moles@ == detect_spec(self@.grid),
    {
        let ghost g = self@.grid;
        let mut moles: Vec<(usize, usize)> = Vec::new();
        let mut x: usize = 0;
        while x < GRID_SIZE
            invariant
                self@.wf(),
                g == self@.grid,
                x <= GRID_SIZE,
                moles@ == detect_prefix(g, x as int),
            decreases GRID_SIZE - x,
        {
            let mut y: usize = 0;
            proof {
                assert(moles@ =~= detect_prefix(g, x as int) + detect_row_prefix(
                    g,
                    x as int,
                    0,
                ));
            }
            while y < GRID_SIZE
                invariant
                    self@.wf(),
                    g == self@.grid,
                    x < GRID_SIZE,
                    y <= GRID_SIZE,
                    moles@ == detect_prefix(g, x as int) + detect_row_prefix(
                        g,
                        x as int,
                        y as int,
                    ),
                decreases GRID_SIZE - y,
            {
                let status = match self.detection_grid.get(x, y) {
                    Ok(s) => s,
                    Err(_) => MoleStatus::Hidden,
                };
                if let MoleStatus::Exposed = status {
                    moles.push((x, y));
                    proof {
                        assert(moles@ =~= detect_prefix(g, x as int) + detect_row_prefix(
                            g,
                            x as int,
                            y as int + 1,
                        ));
                    }
                } else {
                    proof {
                        assert(moles@ =~= detect_prefix(g, x as int) + detect_row_prefix(
                            g,
                            x as int,
                            y as int + 1,
                        ));
                    }
                }
                y = y + 1;
            }
            proof {
                assert(moles@ =~= detect_prefix(g, x as int + 1));
            }
            x = x + 1;
        }
        moles
    }

    /// Serve one whack request as the facade does: roughly 30% of calls run
    /// a spawn pass first, then the whack itself, with an out-of-bounds
    /// failure collapsed into a response-shaped result. The request's force
    /// label is unused.
    pub fn handle_whack(&mut self, req: &WhackRequest) -> (r: WhackResult)
        requires
            old(self)@.wf(),
        ensures
            final(self)@.wf(),
            handle_whack_rel(old(self)@, final(self)@, req.x as int, req.y as int, r),
    {
        let x = req.x;
        let y = req.y;
        let draw: u64 = rand::random::<u64>();
        if should_spawn(draw) {
            self.spawn_random_moles();
        }
        let ghost mid = self@;
        let res = match self.whack_mole(x, y) {
            Ok(result) => result,
            Err(_) => WhackResult {
                success: false,
                force_tenths: 0,
                mole_escaped: false,
                style_points: 0,
                message: "Error: Invalid whack coordinates".to_string(),
            },
        };
        proof {
            assert(spawn_phase(old(self)@, mid));
            assert(whack_phase(mid, self@, x as int, y as int, res));
        }
        res
    }

    /// Read one cell through the grid's bounds check.
    pub fn get_cell(&self, x: usize, y: usize) -> (r: Result<MoleStatus, MoleError>)
        requires
            self@.wf(),
        ensures
            in_bounds(x as int, y as int) ==> r == Ok::<MoleStatus, MoleError>(
                self@.grid[x as int][y as int],
            ),
            !in_bounds(x as int, y as int) ==> r == Err::<MoleStatus, MoleError>(
                MoleError::OutOfBounds,
            ),
    {
        self.detection_grid.get(x, y)
    }

    /// Overwrite one cell with any status through the grid's bounds check;
    /// the counters are untouched.
    pub fn set_cell(&mut self, x: usize, y: usize, s: MoleStatus) -> (r: Result<(), MoleError>)
        requires
            old(self)@.wf(),
        ensures
            final(self)@.wf(),
            final(self)@.moles_whacked == old(self)@.moles_whacked,
            final(self)@.whack_latency_ns == old(self)@.whack_latency_ns,
            final(self)@.hammer_type == old(self)@.hammer_type,
            in_bounds(x as int, y as int) ==> r == Ok::<(), MoleError>(()) && final(self)@.grid
                == grid_write(old(self)@.grid, x as int, y as int, s),
            !in_bounds(x as int, y as int) ==> r == Err::<(), MoleError>(MoleError::OutOfBounds)
                && final(self)@.grid == old(self)@.grid,
    {
        self.detection_grid.set(x, y, s)
    }
}

} // verus!
