//! The motion state machine: discrete grid moves turned into smooth,
//! time-bounded screen motion.
//!
//! A [`MotionController`] owns the current grid cell, the current normalized
//! screen position, and at most one in-flight animation segment. A command
//! ([`MotionEvent`]) moves the grid cell — clamped to the grid, never
//! wrapping — and installs a segment from the current screen position to the
//! new cell's screen position. A clock tick ([`MotionController::update`])
//! interpolates along the segment with an ease-out cubic curve and, once the
//! segment's duration has elapsed, snaps exactly to the target and goes idle.
//!
//! Screen coordinates are held in fixed point: a coordinate is a count of
//! units of `1/UNIT` of the display's extent, so a well-formed coordinate
//! lies in `[0, UNIT]`. Eased progress is a count of units of
//! `1/UNIT_CUBED`, which keeps the cubic exact.

use vstd::prelude::*;

use crate::config::Config;
use crate::input::Direction;

verus! {

/// One part in `UNIT` is the resolution of normalized screen coordinates and
/// of animation progress: a coordinate of `UNIT` is the far edge of the
/// display.
pub const UNIT: u64 = 1_000_000;

/// `UNIT` cubed: the denominator of eased progress, kept exact so that the
/// easing curve is strictly increasing even in fixed point.
pub const UNIT_CUBED: u64 = 1_000_000_000_000_000_000;

/// A command for the motion controller: step one cell, or dash the configured
/// number of cells.
#[derive(Debug, Clone, Copy, PartialEq, Eq, Structural)]
pub enum MotionEvent {
    Move { direction: Direction },
    Dash { direction: Direction },
}

/// A normalized screen position in fixed point: `x` and `y` count units of
/// `1/UNIT` of the display's width and height.
#[derive(Debug, Clone, Copy, PartialEq, Eq, Structural)]
pub struct ScreenPos {
    pub x: u64,
    pub y: u64,
}

impl ScreenPos {
    /// Both coordinates lie on the display: in `[0, UNIT]`.
    pub open spec fn wf(&self) -> bool {
        self.x <= UNIT && self.y <= UNIT
    }
}

/// `v - d`, stopping at 0.
pub open spec fn clamp_sub(v: u32, d: u32) -> u32 {
    if v >= d {
        (v - d) as u32
    } else {
        0
    }
}

/// `v + d`, stopping at `max_index`.
pub open spec fn clamp_add(v: u32, d: u32, max_index: u32) -> u32 {
    if v + d <= max_index {
        (v + d) as u32
    } else {
        max_index
    }
}

/// The grid cell reached by moving `distance` cells in `direction` from
/// `pos`, clamped to the grid of `cfg`: moving against a boundary yields the
/// boundary coordinate, never an error and never wraparound.
pub open spec fn apply_direction_spec(
    pos: (u32, u32),
    direction: Direction,
    distance: u32,
    cfg: Config,
) -> (u32, u32)
    recommends
        cfg.wf(),
{
    match direction {
        Direction::Up => (pos.0, clamp_sub(pos.1, distance)),
        Direction::Down => (pos.0, clamp_add(pos.1, distance, (cfg.grid.rows - 1) as u32)),
        Direction::Left => (clamp_sub(pos.0, distance), pos.1),
        Direction::Right => (clamp_add(pos.0, distance, (cfg.grid.cols - 1) as u32), pos.1),
    }
}

/// The grid cell a command moves to: one cell for a step, `dash_cells` for a
/// dash, clamped to the grid either way.
pub open spec fn next_grid_pos(pos: (u32, u32), event: MotionEvent, cfg: Config) -> (u32, u32)
    recommends
        cfg.wf(),
{
    match event {
        MotionEvent::Move { direction } => apply_direction_spec(pos, direction, 1, cfg),
        MotionEvent::Dash { direction } => apply_direction_spec(
            pos,
            direction,
            cfg.movement.dash_cells,
            cfg,
        ),
    }
}

/// `pos` lies on the grid of `cfg`.
pub open spec fn in_grid_bounds(pos: (u32, u32), cfg: Config) -> bool {
    pos.0 < cfg.grid.cols && pos.1 < cfg.grid.rows
}

/// The grid cell reached from `pos` after every command of `events`, in
/// order.
pub open spec fn grid_pos_after(pos: (u32, u32), events: Seq<MotionEvent>, cfg: Config) -> (
    u32,
    u32,
)
    decreases events.len(),
{
    if events.len() == 0 {
        pos
    } else {
        grid_pos_after(next_grid_pos(pos, events[0], cfg), events.skip(1), cfg)
    }
}

/// One command keeps the grid position on the grid.
pub proof fn lemma_step_stays_in_bounds(pos: (u32, u32), event: MotionEvent, cfg: Config)
    requires
        cfg.wf(),
        in_grid_bounds(pos, cfg),
    ensures
        in_grid_bounds(next_grid_pos(pos, event, cfg), cfg),
{
}

/// For every grid and every sequence of step and dash commands, the grid
/// position after each command stays on the grid: since this holds of every
/// sequence, it holds in particular of every prefix, that is after each
/// command of a longer run.
pub proof fn lemma_grid_bounds_preserved(pos: (u32, u32), events: Seq<MotionEvent>, cfg: Config)
    requires
        cfg.wf(),
        in_grid_bounds(pos, cfg),
    ensures
        in_grid_bounds(grid_pos_after(pos, events, cfg), cfg),
    decreases events.len(),
{
    if events.len() > 0 {
        lemma_step_stays_in_bounds(pos, events[0], cfg);
        lemma_grid_bounds_preserved(next_grid_pos(pos, events[0], cfg), events.skip(1), cfg);
    }
}

/// The ease-out cubic curve `1 - (1 - t)³`, in fixed point: progress `t` is
/// given in units of `1/UNIT`, the eased fraction comes back in units of
/// `1/UNIT_CUBED`, so the cubic is exact.
pub open spec fn ease_out_cubic_spec(t: int) -> int
    recommends
        0 <= t <= UNIT,
{
    UNIT_CUBED - (UNIT - t) * (UNIT - t) * (UNIT - t)
}

/// Clamps to `[0, UNIT]` as the curve's domain, then applies the curve.
pub fn ease_out_cubic(t: u64) -> (e: u64)
    ensures
        e == ease_out_cubic_spec(if t > UNIT { UNIT as int } else { t as int }),
        e <= UNIT_CUBED,
{
    let tc: u64 = if t > UNIT {
        UNIT
    } else {
        t
    };
    let u: u64 = UNIT - tc;
    assert(u * u <= 1_000_000_000_000) by (nonlinear_arith)
        requires
            u <= 1_000_000,
    ;
    let u2: u64 = u * u;
    assert(u2 * u <= 1_000_000_000_000_000_000) by (nonlinear_arith)
        requires
            u2 <= 1_000_000_000_000,
            u <= 1_000_000,
    ;
    let u3: u64 = u2 * u;
    UNIT_CUBED - u3
}

/// The curve starts at 0 and ends at 1: `ease_out_cubic(0) == 0` and
/// `ease_out_cubic(1) == 1`, both exact in fixed point.
pub proof fn lemma_ease_endpoints()
    ensures
        ease_out_cubic_spec(0) == 0,
        ease_out_cubic_spec(UNIT as int) == UNIT_CUBED,
{
}

/// The curve is strictly increasing on `[0, 1]`.
pub proof fn lemma_ease_strictly_increasing(t1: int, t2: int)
    requires
        0 <= t1 < t2 <= UNIT,
    ensures
        ease_out_cubic_spec(t1) < ease_out_cubic_spec(t2),
{
    let a = UNIT - t1;
    let b = UNIT - t2;
    assert(b * b * b < a * a * a) by (nonlinear_arith)
        requires
            0 <= b < a,
    ;
}

/// The curve decelerates: it runs ahead of linear progress, `f(p) > p`, on
/// the open interval `(0, 1)`. In fixed point the linear fraction `t/UNIT`
/// has value `t·UNIT²` over the curve's denominator `UNIT³`.
pub proof fn lemma_ease_above_linear(t: int)
    requires
        0 < t < UNIT,
    ensures
        ease_out_cubic_spec(t) > t * (UNIT as int) * (UNIT as int),
{
    let s = UNIT as int;
    assert(s * s * s - (s - t) * (s - t) * (s - t) - t * s * s == t * (2 * s - t) * (s - t))
        by (nonlinear_arith);
    assert(t * (2 * s - t) * (s - t) > 0) by (nonlinear_arith)
        requires
            0 < t < s,
    ;
}

/// The curve is concave down on `(0, 1)`: successive fixed-point increments
/// shrink strictly.
pub proof fn lemma_ease_concave(t: int)
    requires
        1 <= t <= UNIT - 1,
    ensures
        ease_out_cubic_spec(t + 1) - ease_out_cubic_spec(t) < ease_out_cubic_spec(t)
            - ease_out_cubic_spec(t - 1),
{
    let a = UNIT - t;
    assert((a * a * a - (a - 1) * (a - 1) * (a - 1)) < ((a + 1) * (a + 1) * (a + 1) - a * a * a))
        by (nonlinear_arith)
        requires
            a >= 1,
    ;
}

/// The normalized coordinate of grid index `i` on an axis of `cells` cells:
/// `i / (cells - 1)` in units of `1/UNIT`, degenerating to 0 on a one-cell
/// axis and clamped to the display's far edge.
pub open spec fn screen_axis(i: u32, cells: u32) -> int
    recommends
        cells >= 1,
{
    if cells <= 1 {
        0
    } else {
        let v = (i * UNIT) / ((cells - 1) as int);
        if v <= UNIT {
            v
        } else {
            UNIT as int
        }
    }
}

/// Computes `screen_axis` for one axis.
fn axis_to_screen(i: u32, cells: u32) -> (v: u64)
    requires
        cells >= 1,
    ensures
        v == screen_axis(i, cells),
        v <= UNIT,
{
    if cells <= 1 {
        0
    } else {
        let num: u64 = (i as u64) * UNIT;
        let q: u64 = num / ((cells - 1) as u64);
        if q <= UNIT {
            q
        } else {
            UNIT
        }
    }
}

/// The coordinate `a + (b - a) · e`, where the eased fraction `e` is given in
/// units of `1/UNIT_CUBED`; rounds toward `a` and never leaves `[a, b]` (or
/// `[b, a]`).
pub open spec fn lerp_axis_spec(a: u64, b: u64, e: int) -> int
    recommends
        0 <= e <= UNIT_CUBED,
{
    if a <= b {
        a + (b - a) * e / (UNIT_CUBED as int)
    } else {
        a - (a - b) * e / (UNIT_CUBED as int)
    }
}

/// The scaled span `d · e / UNIT_CUBED` never exceeds the span `d` itself.
proof fn lemma_scaled_span_le(d: int, e: int)
    requires
        0 <= d,
        0 <= e <= UNIT_CUBED,
    ensures
        0 <= d * e / (UNIT_CUBED as int) <= d,
{
    let c = UNIT_CUBED as int;
    vstd::arithmetic::mul::lemma_mul_inequality(e, c, d);
    assert(e * d == d * e) by (nonlinear_arith);
    assert(c * d == d * c) by (nonlinear_arith);
    vstd::arithmetic::div_mod::lemma_div_is_ordered(d * e, d * c, c);
    vstd::arithmetic::div_mod::lemma_div_multiples_vanish(d, c);
    vstd::arithmetic::mul::lemma_mul_nonnegative(d, e);
    vstd::arithmetic::div_mod::lemma_div_pos_is_pos(d * e, c);
}

/// Computes `lerp_axis_spec` for one axis.
fn lerp_axis(a: u64, b: u64, e: u64) -> (r: u64)
    requires
        a <= UNIT,
        b <= UNIT,
        e <= UNIT_CUBED,
    ensures
        r == lerp_axis_spec(a, b, e as int),
        r <= UNIT,
{
    if a <= b {
        let d: u64 = b - a;
        proof {
            lemma_scaled_span_le(d as int, e as int);
        }
        let scaled: u128 = (d as u128) * (e as u128) / (UNIT_CUBED as u128);
        a + (scaled as u64)
    } else {
        let d: u64 = a - b;
        proof {
            lemma_scaled_span_le(d as int, e as int);
        }
        let scaled: u128 = (d as u128) * (e as u128) / (UNIT_CUBED as u128);
        a - (scaled as u64)
    }
}

/// The controller's animation state: idle, or interpolating one segment from
/// `from` to `to` that started at `start_ms` and runs for `duration_ms`.
#[derive(Debug, Clone, Copy, PartialEq, Eq, Structural)]
pub enum MotionState {
    Idle,
    Moving { from: ScreenPos, to: ScreenPos, start_ms: u64, duration_ms: u64 },
}

/// The motion controller: the current grid cell, the current screen position
/// (which doubles as the origin of the next segment), and at most one
/// in-flight segment.
#[derive(Debug, Clone, Copy, PartialEq, Eq)]
pub struct MotionController {
    pub state: MotionState,
    pub current_grid_pos: (u32, u32),
    pub current_screen_pos: ScreenPos,
}

impl MotionController {
    /// The controller's invariant: every screen position it holds lies on
    /// the display.
    pub open spec fn wf(&self) -> bool {
        &&& self.current_screen_pos.wf()
        &&& (self.state matches MotionState::Moving { from, to, .. } ==> from.wf() && to.wf())
    }

    /// A controller at the grid origin and the screen's center, idle.
    pub fn new() -> (c: MotionController)
        ensures
            c.state is Idle,
            c.current_grid_pos == (0u32, 0u32),
            c.current_screen_pos.x == UNIT / 2,
            c.current_screen_pos.y == UNIT / 2,
            c.wf(),
    {
        MotionController {
            state: MotionState::Idle,
            current_grid_pos: (0, 0),
            current_screen_pos: ScreenPos { x: UNIT / 2, y: UNIT / 2 },
        }
    }

    /// A controller at a caller-supplied grid cell and screen position, idle.
    pub fn new_at(grid_pos: (u32, u32), screen_pos: ScreenPos) -> (c: MotionController)
        requires
            screen_pos.wf(),
        ensures
            c.state is Idle,
            c.current_grid_pos == grid_pos,
            c.current_screen_pos == screen_pos,
            c.wf(),
    {
        MotionController { state: MotionState::Idle, current_grid_pos: grid_pos, current_screen_pos: screen_pos }
    }
}

/// Milliseconds elapsed between a segment's start and the clock reading
/// `now_ms`, 0 if the clock reads earlier than the start.
pub open spec fn tick_elapsed(start_ms: u64, now_ms: u64) -> int {
    if now_ms >= start_ms {
        now_ms - start_ms
    } else {
        0
    }
}

/// What one clock tick at `now_ms` does, relating the controller before
/// (`pre`) to the controller after (`post`) and the emitted position `out`:
/// idle stays idle and emits nothing; a segment whose duration has elapsed
/// snaps exactly to its target, emits it once, and goes idle; a segment still
/// in flight emits the eased interpolated position and caches it as the
/// current screen position, leaving the segment untouched.
pub open spec fn tick_rel(
    pre: MotionController,
    now_ms: u64,
    post: MotionController,
    out: Option<ScreenPos>,
) -> bool {
    match pre.state {
        MotionState::Idle => post == pre && out is None,
        MotionState::Moving { from, to, start_ms, duration_ms } => {
            let elapsed = tick_elapsed(start_ms, now_ms);
            if elapsed >= duration_ms {
                &&& post.state is Idle
                &&& post.current_screen_pos == to
                &&& post.current_grid_pos == pre.current_grid_pos
                &&& out == Some(to)
            } else {
                let e = ease_out_cubic_spec(elapsed * UNIT / (duration_ms as int));
                &&& post.state == pre.state
                &&& post.current_grid_pos == pre.current_grid_pos
                &&& post.current_screen_pos.x == lerp_axis_spec(from.x, to.x, e)
                &&& post.current_screen_pos.y == lerp_axis_spec(from.y, to.y, e)
                &&& out == Some(post.current_screen_pos)
            }
        },
    }
}

/// What handling a command with configuration `cfg` at `now_ms` does: a
/// command whose target cell is the current cell changes nothing; any other
/// command moves the grid cell and installs a fresh segment from the current
/// screen position to the new cell's screen position, frozen with the
/// duration read from `cfg` now.
pub open spec fn handle_rel(
    pre: MotionController,
    event: MotionEvent,
    cfg: Config,
    now_ms: u64,
    post: MotionController,
) -> bool
    recommends
        cfg.wf(),
{
    let target = next_grid_pos(pre.current_grid_pos, event, cfg);
    if target == pre.current_grid_pos {
        post == pre
    } else {
        &&& post.current_grid_pos == target
        &&& post.current_screen_pos == pre.current_screen_pos
        &&& (post.state matches MotionState::Moving { from, to, start_ms, duration_ms }
            && from == pre.current_screen_pos
            && to.x == screen_axis(target.0, cfg.grid.cols)
            && to.y == screen_axis(target.1, cfg.grid.rows)
            && start_ms == now_ms
            && duration_ms == cfg.movement.tween_ms)
    }
}

/// Computes the clamped target cell of `direction` by `distance`.
fn apply_direction(pos: (u32, u32), direction: Direction, distance: u32, cfg: &Config) -> (p: (
    u32,
    u32,
))
    requires
        cfg.wf(),
    ensures
        p == apply_direction_spec(pos, direction, distance, *cfg),
{
    let (x, y) = pos;
    match direction {
        Direction::Up => (x, if y >= distance { y - distance } else { 0 }),
        Direction::Down => {
            let limit: u32 = cfg.grid.rows - 1;
            let ny: u64 = (y as u64) + (distance as u64);
            (x, if ny <= (limit as u64) { y + distance } else { limit })
        },
        Direction::Left => (if x >= distance { x - distance } else { 0 }, y),
        Direction::Right => {
            let limit: u32 = cfg.grid.cols - 1;
            let nx: u64 = (x as u64) + (distance as u64);
            (if nx <= (limit as u64) { x + distance } else { limit }, y)
        },
    }
}

/// Computes the fixed-point progress `elapsed/duration` of a segment still in
/// flight.
fn progress_scaled(elapsed: u64, duration_ms: u64) -> (t: u64)
    requires
        elapsed < duration_ms,
    ensures
        t == (elapsed as int) * UNIT / (duration_ms as int),
        t < UNIT,
{
    proof {
        let e = elapsed as int;
        let d = duration_ms as int;
        let s = UNIT as int;
        assert(e * s < d * s) by (nonlinear_arith)
            requires
                e < d,
                s > 0,
        ;
        vstd::arithmetic::div_mod::lemma_multiply_divide_lt(e * s, d, s);
        vstd::arithmetic::div_mod::lemma_div_pos_is_pos(e * s, d);
        vstd::arithmetic::mul::lemma_mul_nonnegative(e, s);
    }
    ((elapsed as u128) * (UNIT as u128) / (duration_ms as u128)) as u64
}

impl MotionController {
    /// Consumes one command against a configuration snapshot, or against
    /// `None` when the configuration could not be read at this moment: then
    /// the command is silently dropped, by design, so that a transiently
    /// locked configuration never stalls or errors. With a snapshot, the
    /// grid cell moves clamped to the grid and, if it actually moved, a new
    /// segment replaces whatever was in flight, starting from the current
    /// interpolated screen position at `now_ms`.
    pub fn handle_event(&mut self, event: MotionEvent, config: Option<&Config>, now_ms: u64)
        requires
            old(self).wf(),
            config matches Some(c) ==> c.wf(),
        ensures
            final(self).wf(),
            config is None ==> *final(self) == *old(self),
            config matches Some(c) ==> handle_rel(*old(self), event, *c, now_ms, *final(self)),
            config matches Some(c) ==> (in_grid_bounds(old(self).current_grid_pos, *c)
                ==> in_grid_bounds(final(self).current_grid_pos, *c)),
    {
        let cfg = match config {
            Some(c) => c,
            None => {
                return ;
            },
        };
        let target = match event {
            MotionEvent::Move { direction } => apply_direction(
                self.current_grid_pos,
                direction,
                1,
                cfg,
            ),
            MotionEvent::Dash { direction } => apply_direction(
                self.current_grid_pos,
                direction,
                cfg.movement.dash_cells,
                cfg,
            ),
        };
        if target.0 != self.current_grid_pos.0 || target.1 != self.current_grid_pos.1 {
            let to = ScreenPos {
                x: axis_to_screen(target.0, cfg.grid.cols),
                y: axis_to_screen(target.1, cfg.grid.rows),
            };
            self.state = MotionState::Moving {
                from: self.current_screen_pos,
                to,
                start_ms: now_ms,
                duration_ms: cfg.movement.tween_ms,
            };
            self.current_grid_pos = target;
        }
    }

    /// Advances the animation to the clock reading `now_ms` and returns the
    /// position to show, or `None` while idle; see [`tick_rel`] for the
    /// exact relation. Every emitted position lies on the display.
    pub fn update(&mut self, now_ms: u64) -> (r: Option<ScreenPos>)
        requires
            old(self).wf(),
        ensures
            final(self).wf(),
            tick_rel(*old(self), now_ms, *final(self), r),
            r matches Some(p) ==> p.wf() && p == final(self).current_screen_pos,
    {
        match self.state {
            MotionState::Idle => None,
            MotionState::Moving { from, to, start_ms, duration_ms } => {
                let elapsed: u64 = if now_ms >= start_ms {
                    now_ms - start_ms
                } else {
                    0
                };
                if elapsed >= duration_ms {
                    self.current_screen_pos = to;
                    self.state = MotionState::Idle;
                    Some(to)
                } else {
                    let t: u64 = progress_scaled(elapsed, duration_ms);
                    let e: u64 = ease_out_cubic(t);
                    let p = ScreenPos {
                        x: lerp_axis(from.x, to.x, e),
                        y: lerp_axis(from.y, to.y, e),
                    };
                    self.current_screen_pos = p;
                    Some(p)
                }
            },
        }
    }
}

/// Completion is idempotent: once a tick has observed a segment's duration
/// elapsed and emitted the terminal position, every later tick — absent a
/// new command — emits nothing and changes nothing.
pub proof fn lemma_completion_idempotent(
    pre: MotionController,
    now1: u64,
    mid: MotionController,
    out1: Option<ScreenPos>,
    now2: u64,
    post: MotionController,
    out2: Option<ScreenPos>,
)
    requires
        pre.state matches MotionState::Moving { start_ms, duration_ms, .. }
            && tick_elapsed(start_ms, now1) >= duration_ms,
        tick_rel(pre, now1, mid, out1),
        tick_rel(mid, now2, post, out2),
    ensures
        out2 is None,
        post == mid,
{
}

/// The eased curve never decreases on `[0, 1]`.
pub proof fn lemma_ease_monotone(t1: int, t2: int)
    requires
        0 <= t1 <= t2 <= UNIT,
    ensures
        ease_out_cubic_spec(t1) <= ease_out_cubic_spec(t2),
{
    if t1 < t2 {
        lemma_ease_strictly_increasing(t1, t2);
    }
}

/// Interpolation never leaves the segment: the result lies between its
/// endpoints.
pub proof fn lemma_lerp_between(a: u64, b: u64, e: int)
    requires
        0 <= e <= UNIT_CUBED,
    ensures
        a <= b ==> a <= lerp_axis_spec(a, b, e) <= b,
        a > b ==> b <= lerp_axis_spec(a, b, e) <= a,
{
    if a <= b {
        lemma_scaled_span_le(b - a, e);
    } else {
        lemma_scaled_span_le(a - b, e);
    }
}

/// With a larger eased fraction, interpolation sits no less far along toward
/// `b`.
pub proof fn lemma_lerp_monotone(a: u64, b: u64, e1: int, e2: int)
    requires
        0 <= e1 <= e2 <= UNIT_CUBED,
    ensures
        a <= b ==> lerp_axis_spec(a, b, e1) <= lerp_axis_spec(a, b, e2),
        a > b ==> lerp_axis_spec(a, b, e2) <= lerp_axis_spec(a, b, e1),
{
    let c = UNIT_CUBED as int;
    let d: int = if a <= b {
        b - a
    } else {
        a - b
    };
    vstd::arithmetic::mul::lemma_mul_inequality(e1, e2, d);
    assert(e1 * d == d * e1) by (nonlinear_arith);
    assert(e2 * d == d * e2) by (nonlinear_arith);
    vstd::arithmetic::div_mod::lemma_div_is_ordered(d * e1, d * e2, c);
}

/// The fixed-point progress of a segment is monotone in its elapsed time and
/// stays in the curve's domain.
proof fn lemma_progress_monotone(el1: int, el2: int, d: int)
    requires
        0 <= el1 <= el2 < d,
    ensures
        0 <= el1 * UNIT / d <= el2 * UNIT / d < UNIT,
{
    let s = UNIT as int;
    assert(el1 * s <= el2 * s && el2 * s < d * s) by (nonlinear_arith)
        requires
            el1 <= el2,
            el2 < d,
            s > 0,
    ;
    vstd::arithmetic::div_mod::lemma_div_is_ordered(el1 * s, el2 * s, d);
    vstd::arithmetic::div_mod::lemma_multiply_divide_lt(el2 * s, d, s);
    vstd::arithmetic::mul::lemma_mul_nonnegative(el1, s);
    vstd::arithmetic::div_mod::lemma_div_pos_is_pos(el1 * s, d);
}

/// Polling is jitter-free: whenever one segment is observed by two ticks, the
/// later tick's position lies at least as far along toward the target on both
/// axes — and never beyond it — however irregular the polling times are.
pub proof fn lemma_polling_monotone(
    pre: MotionController,
    now1: u64,
    mid1: MotionController,
    p1: ScreenPos,
    now2: u64,
    mid2: MotionController,
    p2: ScreenPos,
)
    requires
        pre.wf(),
        now1 <= now2,
        tick_rel(pre, now1, mid1, Some(p1)),
        tick_rel(pre, now2, mid2, Some(p2)),
    ensures
        pre.state matches MotionState::Moving { from, to, .. } ==> {
            &&& (from.x <= to.x ==> p1.x <= p2.x <= to.x)
            &&& (from.x > to.x ==> to.x <= p2.x <= p1.x)
            &&& (from.y <= to.y ==> p1.y <= p2.y <= to.y)
            &&& (from.y > to.y ==> to.y <= p2.y <= p1.y)
        },
{
    match pre.state {
        MotionState::Idle => {
        },
        MotionState::Moving { from, to, start_ms, duration_ms } => {
            let el1 = tick_elapsed(start_ms, now1);
            let el2 = tick_elapsed(start_ms, now2);
            let d = duration_ms as int;
            if el1 >= d {
                // Both ticks observe completion and emit the exact target.
            } else if el2 >= d {
                // The later tick completes; the earlier one interpolates and
                // sits between the endpoints.
                lemma_progress_monotone(el1, el1, d);
                let t1 = el1 * UNIT / d;
                lemma_ease_monotone(0, t1);
                lemma_ease_monotone(t1, UNIT as int);
                lemma_lerp_between(from.x, to.x, ease_out_cubic_spec(t1));
                lemma_lerp_between(from.y, to.y, ease_out_cubic_spec(t1));
            } else {
                // Both interpolate: progress, easing and interpolation are
                // each monotone.
                lemma_progress_monotone(el1, el2, d);
                let t1 = el1 * UNIT / d;
                let t2 = el2 * UNIT / d;
                lemma_ease_monotone(0, t1);
                lemma_ease_monotone(t1, t2);
                lemma_ease_monotone(t2, UNIT as int);
                let e1 = ease_out_cubic_spec(t1);
                let e2 = ease_out_cubic_spec(t2);
                lemma_lerp_monotone(from.x, to.x, e1, e2);
                lemma_lerp_monotone(from.y, to.y, e1, e2);
                lemma_lerp_between(from.x, to.x, e2);
                lemma_lerp_between(from.y, to.y, e2);
            }
        },
    }
}

/// Re-targeting is continuous: when a tick emits position `p` and a command
/// that actually moves the grid cell follows, the new segment starts exactly
/// at `p` — never back at the old segment's origin.
pub proof fn lemma_retarget_continuity(
    pre: MotionController,
    now1: u64,
    mid: MotionController,
    p: ScreenPos,
    event: MotionEvent,
    cfg: Config,
    now2: u64,
    post: MotionController,
)
    requires
        cfg.wf(),
        tick_rel(pre, now1, mid, Some(p)),
        handle_rel(mid, event, cfg, now2, post),
        next_grid_pos(mid.current_grid_pos, event, cfg) != mid.current_grid_pos,
    ensures
        post.state matches MotionState::Moving { from, .. } && from == p,
{
}

} // verus!
