//! Integer world geometry: 2D/3D vectors, transforms, the tween interpolation
//! fraction, linear position interpolation and the spin-angle formula.
//!
//! All coordinates are plain `i64` world units confined to a bounded arena
//! (`TRANS_LIMIT`), and all rotations are Euler angles in whole degrees kept
//! in `[0, 360)`, so every rule below is exact integer arithmetic.

use vstd::prelude::*;
use vstd::arithmetic::div_mod::{
    lemma_div_by_multiple, lemma_div_is_ordered, lemma_div_multiples_vanish, lemma_div_of0,
    lemma_div_pos_is_pos, lemma_mod_division_less_than_divisor, lemma_mod_multiples_basic,
    lemma_small_mod,
};
use vstd::arithmetic::mul::{
    lemma_mul_inequality, lemma_mul_is_commutative, lemma_mul_nonnegative, lemma_mul_upper_bound,
};

verus! {

/// Half-width of the bounded coordinate arena: every stored translation
/// component stays within `[-TRANS_LIMIT, TRANS_LIMIT]`.
pub const TRANS_LIMIT: i64 = 1_000_000_000;

/// Longest admissible tween duration in milliseconds; keeps the
/// interpolation arithmetic comfortably inside `i64`/`u64` ranges.
pub const MAX_MOVE_MS: u128 = 1_000_000_000;

/// Upper bound on the host clock value (milliseconds since start) accepted by
/// functions that add a duration to the current time.
pub const MAX_TIME_MS: u128 = 1_000_000_000_000_000;

/// Card sprite width in world units.
pub const CARD_WIDTH: i64 = 53;

/// Card sprite height in world units.
pub const CARD_HEIGHT: i64 = 70;

/// Horizontal half-extent of a card's pointer hit rectangle (half of
/// `CARD_WIDTH`, rounded down).
pub const CARD_HALF_WIDTH: i64 = 26;

/// Vertical half-extent of a card's pointer hit rectangle (half of
/// `CARD_HEIGHT`).
pub const CARD_HALF_HEIGHT: i64 = 35;

/// Gap between neighbouring board slots in world units.
pub const PADDING: i64 = 7;

/// A 2D point or offset in integer world units.
#[derive(Clone, Copy, Debug, PartialEq, Eq, Structural)]
pub struct Vec2 {
    pub x: i64,
    pub y: i64,
}

/// A 3D point in integer world units (z is the depth layer).
#[derive(Clone, Copy, Debug, PartialEq, Eq, Structural)]
pub struct Vec3 {
    pub x: i64,
    pub y: i64,
    pub z: i64,
}

impl Vec2 {
    /// Both components lie inside the coordinate arena.
    pub open spec fn wf(self) -> bool {
        &&& -TRANS_LIMIT <= self.x <= TRANS_LIMIT
        &&& -TRANS_LIMIT <= self.y <= TRANS_LIMIT
    }
}

impl Vec3 {
    /// All components lie inside the coordinate arena.
    pub open spec fn wf(self) -> bool {
        &&& -TRANS_LIMIT <= self.x <= TRANS_LIMIT
        &&& -TRANS_LIMIT <= self.y <= TRANS_LIMIT
        &&& -TRANS_LIMIT <= self.z <= TRANS_LIMIT
    }

    /// Drops the depth coordinate.
    pub fn truncate(self) -> (r: Vec2)
        ensures
            r == xy(self),
    {
        Vec2 { x: self.x, y: self.y }
    }
}

/// The 2D projection of a 3D point.
pub open spec fn xy(v: Vec3) -> Vec2 {
    Vec2 { x: v.x, y: v.y }
}

/// An angle in whole degrees folded into `[0, 360)`.
pub open spec fn angle_wf(a: i64) -> bool {
    0 <= a < 360
}

/// Position and orientation of one entity. Rotation is an Euler XYZ angle
/// triple in whole degrees.
#[derive(Clone, Copy, Debug, PartialEq, Eq, Structural)]
pub struct Transform {
    pub translation: Vec3,
    pub rotation: Vec3,
}

impl Transform {
    /// Translation is inside the arena and every rotation angle is folded
    /// into `[0, 360)`.
    pub open spec fn wf(self) -> bool {
        &&& self.translation.wf()
        &&& angle_wf(self.rotation.x)
        &&& angle_wf(self.rotation.y)
        &&& angle_wf(self.rotation.z)
    }

    /// The identity-rotation transform at a given position.
    pub fn at(translation: Vec3) -> (r: Transform)
        ensures
            r == (Transform { translation, rotation: Vec3 { x: 0, y: 0, z: 0 } }),
    {
        Transform { translation, rotation: Vec3 { x: 0, y: 0, z: 0 } }
    }
}

/// Clamped numerator of the interpolation fraction `p`: the fraction itself
/// is `frac_num_of(st, et, now) / (et - st)`, clamped into `[0, 1]`.
pub open spec fn frac_num_of(st: int, et: int, now: int) -> int {
    if now <= st {
        0
    } else if now >= et {
        et - st
    } else {
        now - st
    }
}

/// Elapsed move time clamped into `[0, duration]`; the numerator of the
/// interpolation fraction whose denominator is `et - st`.
pub fn clamped_elapsed(st: u128, et: u128, now: u128) -> (r: u128)
    requires
        st <= et,
    ensures
        r == frac_num_of(st as int, et as int, now as int),
        r <= et - st,
{
    if now <= st {
        0
    } else if now >= et {
        et - st
    } else {
        now - st
    }
}

/// Law: for a directive with `start_time < end_time`, the interpolation
/// fraction is monotonically non-decreasing over successive frames, stays in
/// `[0, 1]`, is exactly 0 at or before the start time and clamps to exactly 1
/// (numerator equal to denominator) at or after the end time.
pub proof fn lemma_fraction_monotone(st: int, et: int, t1: int, t2: int)
    requires
        st < et,
        t1 <= t2,
    ensures
        frac_num_of(st, et, t1) <= frac_num_of(st, et, t2),
        0 <= frac_num_of(st, et, t1) <= et - st,
        t1 <= st ==> frac_num_of(st, et, t1) == 0,
        t2 >= et ==> frac_num_of(st, et, t2) == et - st,
{
}

/// Linear interpolation of one coordinate from `a` toward `b` at fraction
/// `num / den`, with the scaled difference rounded toward `a`.
pub open spec fn lerp1(a: int, b: int, num: int, den: int) -> int {
    if b >= a {
        a + (b - a) * num / den
    } else {
        a - (a - b) * num / den
    }
}

/// `d * num / den` stays between 0 and `d` when `0 <= num <= den`, and hits
/// the endpoints exactly at fractions 0 and 1.
pub proof fn lemma_scaled_diff_bounds(d: int, num: int, den: int)
    requires
        0 <= d,
        0 <= num <= den,
        0 < den,
    ensures
        0 <= d * num / den <= d,
        num == 0 ==> d * num / den == 0,
        num == den ==> d * num / den == d,
{
    lemma_mul_nonnegative(d, num);
    lemma_div_pos_is_pos(d * num, den);
    lemma_mul_inequality(num, den, d);
    lemma_mul_is_commutative(num, d);
    lemma_mul_is_commutative(den, d);
    lemma_div_is_ordered(d * num, d * den, den);
    lemma_div_by_multiple(d, den);
    if num == 0 {
        lemma_div_of0(den);
    }
}

/// Law: interpolation starts exactly at `a` (fraction 0), ends exactly at `b`
/// (fraction 1), and always stays between the two endpoints.
pub proof fn lemma_lerp1_bounds(a: int, b: int, num: int, den: int)
    requires
        0 < den,
        0 <= num <= den,
    ensures
        a <= b ==> a <= lerp1(a, b, num, den) <= b,
        b <= a ==> b <= lerp1(a, b, num, den) <= a,
        num == 0 ==> lerp1(a, b, num, den) == a,
        num == den ==> lerp1(a, b, num, den) == b,
{
    if b >= a {
        lemma_scaled_diff_bounds(b - a, num, den);
    } else {
        lemma_scaled_diff_bounds(a - b, num, den);
    }
}

/// Interpolates one coordinate from `a` toward `b` at fraction `num / den`.
pub fn lerp_coord(a: i64, b: i64, num: i64, den: i64) -> (r: i64)
    requires
        -TRANS_LIMIT <= a <= TRANS_LIMIT,
        -TRANS_LIMIT <= b <= TRANS_LIMIT,
        0 < den,
        den as int <= MAX_MOVE_MS as int,
        0 <= num <= den,
    ensures
        r == lerp1(a as int, b as int, num as int, den as int),
        -TRANS_LIMIT <= r <= TRANS_LIMIT,
{
    if b >= a {
        let d: i64 = b - a;
        proof {
            lemma_mul_upper_bound(d as int, 2 * TRANS_LIMIT as int, num as int, MAX_MOVE_MS as int);
            lemma_scaled_diff_bounds(d as int, num as int, den as int);
        }
        let q: u64 = ((d as u64) * (num as u64)) / (den as u64);
        a + (q as i64)
    } else {
        let d: i64 = a - b;
        proof {
            lemma_mul_upper_bound(d as int, 2 * TRANS_LIMIT as int, num as int, MAX_MOVE_MS as int);
            lemma_scaled_diff_bounds(d as int, num as int, den as int);
        }
        let q: u64 = ((d as u64) * (num as u64)) / (den as u64);
        a - (q as i64)
    }
}

/// The tween's spin angle in degrees for axis frequency `f` at fraction
/// `num / den`: the integer form of `(f * p * 360) mod 360`, folded into
/// `[0, 360)`. A degenerate (zero-length) duration yields angle 0, matching a
/// completed move.
pub open spec fn rot_angle(f: int, num: int, den: int) -> int {
    if den <= 0 {
        0
    } else if f >= 0 {
        ((f * num * 360) / den) % 360
    } else {
        (360 - (((-f) * num * 360) / den) % 360) % 360
    }
}

/// Law: the spin angle always lies in `[0, 360)`; frequency 0 always gives
/// angle 0; and at fraction 1 every frequency has completed whole turns, so
/// the angle is back to 0 (in particular `f = 1` ends exactly one full
/// rotation).
pub proof fn lemma_rot_angle_props(f: int, num: int, den: int)
    requires
        0 <= num <= den,
    ensures
        0 <= rot_angle(f, num, den) < 360,
        f == 0 ==> rot_angle(f, num, den) == 0,
        num == den ==> rot_angle(f, num, den) == 0,
{
    if den > 0 {
        let m: int = if f >= 0 { f } else { -f };
        lemma_mul_nonnegative(m, num);
        lemma_mul_nonnegative(m * num, 360);
        lemma_div_pos_is_pos(m * num * 360, den);
        lemma_mod_division_less_than_divisor((m * num * 360) / den, 360);
        let inner: int = ((m * num * 360) / den) % 360;
        if f < 0 {
            if inner == 0 {
                assert(360 == 1 * 360) by (nonlinear_arith);
                lemma_mod_multiples_basic(1, 360);
            } else {
                lemma_small_mod((360 - inner) as nat, 360 as nat);
            }
        }
        if f == 0 {
            assert(m * num * 360 == 0) by (nonlinear_arith)
                requires m == 0;
            lemma_div_of0(den);
            lemma_small_mod(0 as nat, 360 as nat);
        }
        if num == den {
            assert(m * num * 360 == den * (m * 360)) by (nonlinear_arith)
                requires num == den;
            lemma_div_multiples_vanish(m * 360, den);
            lemma_mod_multiples_basic(m, 360);
            assert(m * 360 % 360 == 0);
            if f < 0 {
                assert(360 == 1 * 360) by (nonlinear_arith);
                lemma_mod_multiples_basic(1, 360);
            }
        }
    }
}

/// Computes the tween's spin angle for one axis.
pub fn rot_angle_exec(f: i8, num: u128, den: u128) -> (r: i64)
    requires
        num <= den,
        den <= MAX_MOVE_MS,
    ensures
        r == rot_angle(f as int, num as int, den as int),
        0 <= r < 360,
{
    proof {
        lemma_rot_angle_props(f as int, num as int, den as int);
    }
    if den == 0 {
        return 0;
    }
    let mag: u128 = if f >= 0 {
        f as u128
    } else {
        (-(f as i64)) as u128
    };
    proof {
        lemma_mul_upper_bound(mag as int, 128, num as int, MAX_MOVE_MS as int);
        lemma_mul_upper_bound(
            (mag * num) as int,
            128 * MAX_MOVE_MS as int,
            360,
            360,
        );
    }
    let m: u128 = ((mag * num * 360) / den) % 360;
    if f >= 0 {
        m as i64
    } else if m == 0 {
        proof {
            assert(360 == 1 * 360) by (nonlinear_arith);
            lemma_mod_multiples_basic(1, 360);
        }
        0
    } else {
        proof {
            lemma_small_mod((360 - m) as nat, 360 as nat);
        }
        (360 - m) as i64
    }
}

} // verus!
