//! Swept collision detector.
//!
//! Given a moving rectangle, its per-frame displacement and a stationary
//! rectangle, the detector reports either no collision within the frame, or
//! the earliest normalized time of impact in `[0, 1]` together with the
//! axis-aligned normal of the face struck.
//!
//! Times of impact are ratios of an entry distance to an axis velocity. They
//! are kept as exact integer fractions with a positive denominator, so every
//! comparison is a cross-multiplication and no precision is lost. An axis
//! with zero velocity can neither cause nor bound a collision: its entry time
//! counts as negative infinity and its exit time as positive infinity.
//!
//! Per-axis entry and exit times are combined exactly as the game resolves
//! them: the overall entry time is the later of the two per-axis entry times,
//! and the overall exit bound is the later of the two per-axis exit times. A
//! collision exists only if the overall entry time does not lie after that
//! exit bound, at least one per-axis entry time is nonnegative, and both
//! per-axis entry times lie within the frame.

use vstd::prelude::*;

use crate::geometry::COORD_LIMIT;
use crate::geometry::Rect;
use crate::geometry::Vec2;

verus! {

/// A normalized time of impact `num / den` within the frame:
/// `1 <= den` and `0 <= num <= den`.
#[derive(Clone, Copy, PartialEq, Eq, Structural, Debug)]
pub struct Frac {
    pub num: i64,
    pub den: i64,
}

/// Result of sweeping a moving rectangle against a stationary one: either no
/// collision within this frame, or the earliest time of impact and the
/// normal of the face struck (each normal component is `-1`, `0` or `1`, and
/// exactly one of them is nonzero).
#[derive(Clone, Copy, PartialEq, Eq, Structural, Debug)]
pub enum CollisionResult {
    NoCollision,
    Hit { normal_x: i64, normal_y: i64, time: Frac },
}

/// Signed distance, on one axis, from the moving rectangle's leading edge to
/// the stationary rectangle's near edge, relative to the travel direction:
/// the entry time on this axis is `entry_dist / v`.
pub open spec fn entry_dist(m: int, mw: int, v: int, s: int, sw: int) -> int {
    if v > 0 {
        s - (m + mw)
    } else {
        (s + sw) - m
    }
}

/// Signed distance from the moving rectangle's trailing edge to the
/// stationary rectangle's far edge: the exit time on this axis is
/// `exit_dist / v`.
pub open spec fn exit_dist(m: int, mw: int, v: int, s: int, sw: int) -> int {
    if v > 0 {
        (s + sw) - m
    } else {
        s - (m + mw)
    }
}

/// Numerator of the time `d / v` once normalized to the positive denominator
/// `|v|`. Meaningful only for `v != 0`.
pub open spec fn tnum(d: int, v: int) -> int {
    if v >= 0 {
        d
    } else {
        -d
    }
}

/// Positive denominator `|v|` of a time on an axis with velocity `v`.
pub open spec fn tden(v: int) -> int {
    if v >= 0 {
        v
    } else {
        -v
    }
}

/// The entry time `d / v` is negative. A zero axis velocity counts as
/// negative infinity, hence negative.
pub open spec fn entry_neg(d: int, v: int) -> bool {
    v == 0 || tnum(d, v) < 0
}

/// The entry time `d / v` lies strictly beyond the end of the frame
/// (`d / v > 1`). An axis with zero velocity is never late.
pub open spec fn entry_late(d: int, v: int) -> bool {
    v != 0 && tnum(d, v) > tden(v)
}

/// The entry time `ed / ev` lies strictly after the exit time `xd / xv`.
/// False whenever either side is infinite: `ev == 0` makes the entry time
/// negative infinity, `xv == 0` makes the exit time positive infinity.
pub open spec fn entry_after_exit(ed: int, ev: int, xd: int, xv: int) -> bool {
    ev != 0 && xv != 0 && tnum(ed, ev) * tden(xv) > tnum(xd, xv) * tden(ev)
}

/// Entry distance on the horizontal axis for the pair `(m, v, s)`.
pub open spec fn x_entry_dist(m: Rect, v: Vec2, s: Rect) -> int {
    entry_dist(m.x as int, m.w as int, v.x as int, s.x as int, s.w as int)
}

/// Exit distance on the horizontal axis.
pub open spec fn x_exit_dist(m: Rect, v: Vec2, s: Rect) -> int {
    exit_dist(m.x as int, m.w as int, v.x as int, s.x as int, s.w as int)
}

/// Entry distance on the vertical axis.
pub open spec fn y_entry_dist(m: Rect, v: Vec2, s: Rect) -> int {
    entry_dist(m.y as int, m.h as int, v.y as int, s.y as int, s.h as int)
}

/// Exit distance on the vertical axis.
pub open spec fn y_exit_dist(m: Rect, v: Vec2, s: Rect) -> int {
    exit_dist(m.y as int, m.h as int, v.y as int, s.y as int, s.h as int)
}

/// The overall entry time (the later per-axis entry) lies strictly after the
/// overall exit bound (the later per-axis exit).
pub open spec fn entry_misses_exit(m: Rect, v: Vec2, s: Rect) -> bool {
    ||| {
        &&& entry_after_exit(x_entry_dist(m, v, s), v.x as int, x_exit_dist(m, v, s), v.x as int)
        &&& entry_after_exit(x_entry_dist(m, v, s), v.x as int, y_exit_dist(m, v, s), v.y as int)
    }
    ||| {
        &&& entry_after_exit(y_entry_dist(m, v, s), v.y as int, x_exit_dist(m, v, s), v.x as int)
        &&& entry_after_exit(y_entry_dist(m, v, s), v.y as int, y_exit_dist(m, v, s), v.y as int)
    }
}

/// A collision exists within this frame's displacement.
pub open spec fn collides(m: Rect, v: Vec2, s: Rect) -> bool {
    &&& !entry_misses_exit(m, v, s)
    &&& !(entry_neg(x_entry_dist(m, v, s), v.x as int) && entry_neg(
        y_entry_dist(m, v, s),
        v.y as int,
    ))
    &&& !entry_late(x_entry_dist(m, v, s), v.x as int)
    &&& !entry_late(y_entry_dist(m, v, s), v.y as int)
}

/// The horizontal axis produced the strictly later entry time, so the struck
/// face is vertical and the reported normal is horizontal. Ties go to the
/// vertical axis.
pub open spec fn x_axis_wins(m: Rect, v: Vec2, s: Rect) -> bool {
    &&& v.x != 0
    &&& (v.y == 0 || tnum(x_entry_dist(m, v, s), v.x as int) * tden(v.y as int) > tnum(
        y_entry_dist(m, v, s),
        v.y as int,
    ) * tden(v.x as int))
}

/// Horizontal component of the normal of the face struck, on collision.
pub open spec fn hit_normal_x(m: Rect, v: Vec2, s: Rect) -> int {
    if x_axis_wins(m, v, s) {
        if x_entry_dist(m, v, s) < 0 {
            1
        } else {
            -1
        }
    } else {
        0
    }
}

/// Vertical component of the normal of the face struck, on collision.
pub open spec fn hit_normal_y(m: Rect, v: Vec2, s: Rect) -> int {
    if x_axis_wins(m, v, s) {
        0
    } else {
        if y_entry_dist(m, v, s) < 0 {
            1
        } else {
            -1
        }
    }
}

/// Numerator of the earliest time of impact, on collision.
pub open spec fn hit_num(m: Rect, v: Vec2, s: Rect) -> int {
    if x_axis_wins(m, v, s) {
        tnum(x_entry_dist(m, v, s), v.x as int)
    } else {
        tnum(y_entry_dist(m, v, s), v.y as int)
    }
}

/// Denominator of the earliest time of impact, on collision.
pub open spec fn hit_den(m: Rect, v: Vec2, s: Rect) -> int {
    if x_axis_wins(m, v, s) {
        tden(v.x as int)
    } else {
        tden(v.y as int)
    }
}

/// Bounded values multiply into a bounded product.
pub(crate) proof fn lemma_mul_bound(a: int, b: int, bound_a: int, bound_b: int)
    by (nonlinear_arith)
    requires
        -bound_a <= a <= bound_a,
        -bound_b <= b <= bound_b,
        0 <= bound_a,
        0 <= bound_b,
    ensures
        -bound_a * bound_b <= a * b <= bound_a * bound_b,
{
}

/// `tnum(d, v)` for `i64` scalars.
fn tnum_ex(d: i64, v: i64) -> (r: i64)
    requires
        -4 * COORD_LIMIT <= d <= 4 * COORD_LIMIT,
    ensures
        r == tnum(d as int, v as int),
{
    if v >= 0 {
        d
    } else {
        -d
    }
}

/// `tden(v)` for `i64` scalars.
fn tden_ex(v: i64) -> (r: i64)
    requires
        -COORD_LIMIT <= v <= COORD_LIMIT,
    ensures
        r == tden(v as int),
{
    if v >= 0 {
        v
    } else {
        -v
    }
}

/// `entry_neg(d, v)` for `i64` scalars.
fn entry_neg_ex(d: i64, v: i64) -> (r: bool)
    requires
        -4 * COORD_LIMIT <= d <= 4 * COORD_LIMIT,
    ensures
        r == entry_neg(d as int, v as int),
{
    v == 0 || tnum_ex(d, v) < 0
}

/// `entry_late(d, v)` for `i64` scalars.
fn entry_late_ex(d: i64, v: i64) -> (r: bool)
    requires
        -4 * COORD_LIMIT <= d <= 4 * COORD_LIMIT,
        -COORD_LIMIT <= v <= COORD_LIMIT,
    ensures
        r == entry_late(d as int, v as int),
{
    v != 0 && tnum_ex(d, v) > tden_ex(v)
}

/// `entry_after_exit(ed, ev, xd, xv)` for `i64` scalars.
fn entry_after_exit_ex(ed: i64, ev: i64, xd: i64, xv: i64) -> (r: bool)
    requires
        -4 * COORD_LIMIT <= ed <= 4 * COORD_LIMIT,
        -4 * COORD_LIMIT <= xd <= 4 * COORD_LIMIT,
        -COORD_LIMIT <= ev <= COORD_LIMIT,
        -COORD_LIMIT <= xv <= COORD_LIMIT,
    ensures
        r == entry_after_exit(ed as int, ev as int, xd as int, xv as int),
{
    if ev == 0 || xv == 0 {
        false
    } else {
        let en = tnum_ex(ed, ev);
        let xn = tnum_ex(xd, xv);
        let ed_den = tden_ex(ev);
        let xd_den = tden_ex(xv);
        proof {
            lemma_mul_bound(en as int, xd_den as int, 4 * COORD_LIMIT as int, COORD_LIMIT as int);
            lemma_mul_bound(xn as int, ed_den as int, 4 * COORD_LIMIT as int, COORD_LIMIT as int);
        }
        en * xd_den > xn * ed_den
    }
}

/// Strict comparison of the two per-axis entry times, picking the axis whose
/// normal is reported: true exactly when the horizontal entry is later.
fn x_axis_wins_ex(xd: i64, vx: i64, yd: i64, vy: i64) -> (r: bool)
    requires
        -4 * COORD_LIMIT <= xd <= 4 * COORD_LIMIT,
        -4 * COORD_LIMIT <= yd <= 4 * COORD_LIMIT,
        -COORD_LIMIT <= vx <= COORD_LIMIT,
        -COORD_LIMIT <= vy <= COORD_LIMIT,
    ensures
        r == (vx != 0 && (vy == 0 || tnum(xd as int, vx as int) * tden(vy as int) > tnum(
            yd as int,
            vy as int,
        ) * tden(vx as int))),
{
    if vx == 0 {
        false
    } else if vy == 0 {
        true
    } else {
        let xn = tnum_ex(xd, vx);
        let yn = tnum_ex(yd, vy);
        let xden = tden_ex(vx);
        let yden = tden_ex(vy);
        proof {
            lemma_mul_bound(xn as int, yden as int, 4 * COORD_LIMIT as int, COORD_LIMIT as int);
            lemma_mul_bound(yn as int, xden as int, 4 * COORD_LIMIT as int, COORD_LIMIT as int);
        }
        xn * yden > yn * xden
    }
}

/// A negative left factor and a positive right factor give a negative
/// product.
proof fn lemma_neg_times_pos(a: int, b: int)
    by (nonlinear_arith)
    requires
        a < 0,
        b >= 1,
    ensures
        a * b < 0,
{
}

/// Nonnegative factors give a nonnegative product.
proof fn lemma_nonneg_times_nonneg(a: int, b: int)
    by (nonlinear_arith)
    requires
        a >= 0,
        b >= 0,
    ensures
        a * b >= 0,
{
}

/// On a collision, the time of impact reported for the winning axis lies in
/// `[0, 1]`: its numerator is nonnegative and at most its (positive)
/// denominator.
proof fn lemma_hit_time_in_frame(m: Rect, v: Vec2, s: Rect)
    requires
        m.wf(),
        v.wf(),
        s.wf(),
        collides(m, v, s),
    ensures
        1 <= hit_den(m, v, s),
        0 <= hit_num(m, v, s) <= hit_den(m, v, s),
{
    let xd = x_entry_dist(m, v, s);
    let yd = y_entry_dist(m, v, s);
    let vx = v.x as int;
    let vy = v.y as int;
    if x_axis_wins(m, v, s) {
        // The horizontal velocity is nonzero, so the denominator is positive
        // and lateness bounds the numerator from above.
        assert(tnum(xd, vx) <= tden(vx));
        // Were the horizontal entry negative, the strictly earlier vertical
        // entry would be negative too, contradicting the collision.
        if tnum(xd, vx) < 0 {
            assert(!entry_neg(yd, vy));
            assert(vy != 0 && tnum(yd, vy) >= 0);
            lemma_neg_times_pos(tnum(xd, vx), tden(vy));
            lemma_nonneg_times_nonneg(tnum(yd, vy), tden(vx));
            assert(false);
        }
    } else {
        // The vertical axis wins. Its velocity cannot be zero: a zero
        // vertical velocity either makes both entries negative (no collision)
        // or hands the win to the horizontal axis.
        assert(vy != 0);
        assert(tnum(yd, vy) <= tden(vy));
        if tnum(yd, vy) < 0 {
            assert(!entry_neg(xd, vx));
            assert(vx != 0 && tnum(xd, vx) >= 0);
            lemma_nonneg_times_nonneg(tnum(xd, vx), tden(vy));
            lemma_neg_times_pos(tnum(yd, vy), tden(vx));
            assert(false);
        }
    }
}

/// Multiplying a nonnegative value keeps the order of the other factor.
proof fn lemma_mul_le_mono_right(a: int, b: int, c: int)
    by (nonlinear_arith)
    requires
        a >= 0,
        b <= c,
    ensures
        a * b <= a * c,
{
}

/// A displacement component `v` scaled by the fraction `num / den` and
/// truncated toward zero: the partial advance of the ball up to an impact.
pub open spec fn scale_trunc_spec(v: int, num: int, den: int) -> int {
    if v >= 0 {
        (v * num) / den
    } else {
        -((-v * num) / den)
    }
}

/// Scale `v` by the time of impact `t` and truncate toward zero. A fraction
/// in `[0, 1]` keeps the result between `0` and `v`.
pub fn scale_trunc(v: i64, t: Frac) -> (r: i64)
    requires
        -COORD_LIMIT <= v <= COORD_LIMIT,
        1 <= t.den <= COORD_LIMIT,
        0 <= t.num <= t.den,
    ensures
        r == scale_trunc_spec(v as int, t.num as int, t.den as int),
        v >= 0 ==> 0 <= r <= v,
        v <= 0 ==> v <= r <= 0,
{
    if v >= 0 {
        proof {
            lemma_mul_bound(v as int, t.num as int, COORD_LIMIT as int, COORD_LIMIT as int);
        }
        let p = v * t.num;
        proof {
            lemma_nonneg_times_nonneg(v as int, t.num as int);
            lemma_mul_le_mono_right(v as int, t.num as int, t.den as int);
            vstd::arithmetic::div_mod::lemma_div_multiples_vanish(v as int, t.den as int);
            vstd::arithmetic::div_mod::lemma_div_is_ordered(
                p as int,
                v as int * t.den as int,
                t.den as int,
            );
            vstd::arithmetic::div_mod::lemma_div_pos_is_pos(p as int, t.den as int);
        }
        p / t.den
    } else {
        let m = -v;
        proof {
            lemma_mul_bound(m as int, t.num as int, COORD_LIMIT as int, COORD_LIMIT as int);
        }
        let p = m * t.num;
        proof {
            lemma_nonneg_times_nonneg(m as int, t.num as int);
            lemma_mul_le_mono_right(m as int, t.num as int, t.den as int);
            vstd::arithmetic::div_mod::lemma_div_multiples_vanish(m as int, t.den as int);
            vstd::arithmetic::div_mod::lemma_div_is_ordered(
                p as int,
                m as int * t.den as int,
                t.den as int,
            );
            vstd::arithmetic::div_mod::lemma_div_pos_is_pos(p as int, t.den as int);
        }
        -(p / t.den)
    }
}

/// Law: for every paddle/ball rectangle pair with a horizontal-only approach
/// velocity and a true overlap before the frame's end — the vertical ranges
/// overlap, the moving rectangle starts on its approach side of the
/// stationary one, and the frame's displacement carries its leading edge to
/// or past the stationary rectangle's near edge — the sweep reports a hit
/// whose normal is horizontal and whose time lies in `[0, 1]`.
pub proof fn lemma_horizontal_approach_hits(m: Rect, v: Vec2, s: Rect)
    requires
        m.wf(),
        v.wf(),
        s.wf(),
        v.y == 0,
        v.x != 0,
        m.y < s.y + s.h,
        s.y < m.y + m.h,
        v.x > 0 ==> m.x + m.w <= s.x && s.x <= m.x + m.w + v.x,
        v.x < 0 ==> s.x + s.w <= m.x && m.x + v.x <= s.x + s.w,
    ensures
        collides(m, v, s),
        hit_normal_y(m, v, s) == 0,
        hit_normal_x(m, v, s) != 0,
        1 <= hit_den(m, v, s),
        0 <= hit_num(m, v, s) <= hit_den(m, v, s),
{
}

/// Law: a moving rectangle with a horizontal-only velocity whose horizontal
/// extent stays clear of the stationary rectangle's for the whole frame —
/// it starts beyond the far edge moving away, or its leading edge stays
/// strictly short of the near edge even at the frame's end — produces no
/// collision. (With both velocity components nonzero the detector bounds the
/// exit by the later of the two per-axis exits, so a diagonal path that
/// misses near a corner can still report a hit; this law therefore speaks of
/// the horizontal-only case.)
pub proof fn lemma_horizontal_clear_misses(m: Rect, v: Vec2, s: Rect)
    requires
        m.wf(),
        v.wf(),
        s.wf(),
        v.y == 0,
        v.x >= 0 ==> s.x + s.w < m.x || m.x + m.w + v.x < s.x,
        v.x <= 0 ==> s.x + s.w < m.x + v.x || m.x + m.w < s.x,
    ensures
        !collides(m, v, s),
{
}

/// Swept collision query: the earliest time within this frame at which the
/// moving rectangle strikes the stationary one, and the normal of the face
/// struck, or `NoCollision` if the frame's displacement produces no impact.
/// Pure function over its inputs.
pub fn sweep(moving: Rect, disp: Vec2, stationary: Rect) -> (r: CollisionResult)
    requires
        moving.wf(),
        disp.wf(),
        stationary.wf(),
    ensures
        (r is NoCollision) == !collides(moving, disp, stationary),
        r matches CollisionResult::Hit { normal_x, normal_y, time } ==> {
            &&& normal_x == hit_normal_x(moving, disp, stationary)
            &&& normal_y == hit_normal_y(moving, disp, stationary)
            &&& time.num == hit_num(moving, disp, stationary)
            &&& time.den == hit_den(moving, disp, stationary)
            &&& 1 <= time.den <= COORD_LIMIT
            &&& 0 <= time.num <= time.den
        },
{
    let x_entry = if disp.x > 0 {
        stationary.x - (moving.x + moving.w)
    } else {
        (stationary.x + stationary.w) - moving.x
    };
    let x_exit = if disp.x > 0 {
        (stationary.x + stationary.w) - moving.x
    } else {
        stationary.x - (moving.x + moving.w)
    };
    let y_entry = if disp.y > 0 {
        stationary.y - (moving.y + moving.h)
    } else {
        (stationary.y + stationary.h) - moving.y
    };
    let y_exit = if disp.y > 0 {
        (stationary.y + stationary.h) - moving.y
    } else {
        stationary.y - (moving.y + moving.h)
    };

    let late_entry = (entry_after_exit_ex(x_entry, disp.x, x_exit, disp.x) && entry_after_exit_ex(
        x_entry,
        disp.x,
        y_exit,
        disp.y,
    )) || (entry_after_exit_ex(y_entry, disp.y, x_exit, disp.x) && entry_after_exit_ex(
        y_entry,
        disp.y,
        y_exit,
        disp.y,
    ));

    if late_entry || (entry_neg_ex(x_entry, disp.x) && entry_neg_ex(y_entry, disp.y))
        || entry_late_ex(x_entry, disp.x) || entry_late_ex(y_entry, disp.y) {
        CollisionResult::NoCollision
    } else {
        proof {
            lemma_hit_time_in_frame(moving, disp, stationary);
        }
        if x_axis_wins_ex(x_entry, disp.x, y_entry, disp.y) {
            let normal_x: i64 = if x_entry < 0 {
                1
            } else {
                -1
            };
            CollisionResult::Hit {
                normal_x,
                normal_y: 0,
                time: Frac { num: tnum_ex(x_entry, disp.x), den: tden_ex(disp.x) },
            }
        } else {
            let normal_y: i64 = if y_entry < 0 {
                1
            } else {
                -1
            };
            CollisionResult::Hit {
                normal_x: 0,
                normal_y,
                time: Frac { num: tnum_ex(y_entry, disp.y), den: tden_ex(disp.y) },
            }
        }
    }
}

} // verus!
