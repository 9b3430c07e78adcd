//! Integer plane geometry for the game model.
//!
//! The world is a bounded integer plane: positions are whole units with
//! magnitude at most `MAX_COORD`, speeds are units per second with magnitude
//! at most `MAX_SPEED`, and sprite sizes are nonnegative and at most
//! `MAX_SIZE`. Uniform scale factors are carried in thousandths, so
//! `SCALE_ONE` stands for a scale of one. Scaling a coordinate multiplies by
//! the factor and divides by `SCALE_ONE`, truncating toward zero.

use vstd::prelude::*;

verus! {

/// A scale factor of one, in thousandths.
pub const SCALE_ONE: i64 = 1000;

/// The smallest scale factor a placed object may carry, in thousandths.
pub const MIN_SCALE: i64 = 100;

/// The largest scale factor a placed object may carry, in thousandths.
pub const MAX_SCALE: i64 = 10000;

/// Largest coordinate magnitude of the world plane.
pub const MAX_COORD: i64 = 1_000_000_000;

/// Largest sprite extent along one axis.
pub const MAX_SIZE: i64 = 1_000_000;

/// Largest speed magnitude along one axis, in units per second.
pub const MAX_SPEED: i64 = 1_000_000;

/// Longest time step `step_time` accepts, in microseconds.
pub const MAX_STEP_MICROS: u64 = 10_000_000;

/// Microseconds in one second.
pub const MICROS_PER_SEC: i64 = 1_000_000;

/// A point or vector of the integer plane.
#[derive(Clone, Copy, PartialEq, Eq, Structural, Debug)]
pub struct Vec2I {
    pub x: i64,
    pub y: i64,
}

/// Both components have magnitude at most `MAX_COORD`.
pub open spec fn in_world(v: Vec2I) -> bool {
    &&& -MAX_COORD <= v.x <= MAX_COORD
    &&& -MAX_COORD <= v.y <= MAX_COORD
}

/// Both components have magnitude at most `MAX_SPEED`.
pub open spec fn in_speed(v: Vec2I) -> bool {
    &&& -MAX_SPEED <= v.x <= MAX_SPEED
    &&& -MAX_SPEED <= v.y <= MAX_SPEED
}

/// Both components lie in `[0, MAX_SIZE]`.
pub open spec fn in_size(v: Vec2I) -> bool {
    &&& 0 <= v.x <= MAX_SIZE
    &&& 0 <= v.y <= MAX_SIZE
}

/// Integer division truncating toward zero, for a positive divisor.
pub open spec fn div_trunc_spec(a: int, d: int) -> int
    recommends
        d >= 1,
{
    if a >= 0 {
        a / d
    } else {
        -((-a) / d)
    }
}

/// The quotient's magnitude never exceeds the dividend's.
pub proof fn lemma_div_trunc_bound(a: int, d: int, m: int)
    requires
        d >= 1,
        0 <= m,
        -m <= a <= m,
    ensures
        -m <= div_trunc_spec(a, d) <= m,
        -(m / d) <= div_trunc_spec(a, d) <= m / d,
{
    if a >= 0 {
        assert(0 <= a / d <= a && a / d <= m / d) by (nonlinear_arith)
            requires
                d >= 1,
                0 <= a <= m,
        ;
    } else {
        assert(0 <= (-a) / d <= -a && (-a) / d <= m / d) by (nonlinear_arith)
            requires
                d >= 1,
                a < 0,
                -a <= m,
        ;
    }
}

/// Division truncating toward zero. Matches `div_trunc_spec` exactly.
pub fn div_trunc(a: i64, d: i64) -> (r: i64)
    requires
        1 <= d,
        -0x7fff_ffff_ffff_ffff <= a,
    ensures
        r == div_trunc_spec(a as int, d as int),
{
    proof {
        lemma_div_trunc_bound(a as int, d as int, if a >= 0 { a as int } else { -(a as int) });
    }
    if a >= 0 {
        ((a as u64) / (d as u64)) as i64
    } else {
        -((((-a) as u64) / (d as u64)) as i64)
    }
}

/// A coordinate scaled by a factor in thousandths, truncating toward zero.
pub open spec fn scale_spec(c: int, s: int) -> int {
    div_trunc_spec(c * s, SCALE_ONE as int)
}

/// Scales `c` by the factor `s` given in thousandths.
pub fn scale_coord(c: i64, s: i64) -> (r: i64)
    requires
        -1_000_000_000_000 <= c <= 1_000_000_000_000,
        0 <= s <= 1_000_000,
    ensures
        r == scale_spec(c as int, s as int),
        -1_000_000_000_000_000 <= r <= 1_000_000_000_000_000,
{
    proof {
        assert(-1_000_000_000_000_000_000 <= c * s <= 1_000_000_000_000_000_000)
            by (nonlinear_arith)
            requires
                -1_000_000_000_000 <= c <= 1_000_000_000_000,
                0 <= s <= 1_000_000,
        ;
        lemma_div_trunc_bound(c as int * s as int, SCALE_ONE as int, 1_000_000_000_000_000_000);
    }
    let p: i64 = c * s;
    div_trunc(p, SCALE_ONE)
}

/// The nearest coordinate of the world plane.
pub open spec fn clamp_spec(c: int) -> int {
    if c < -MAX_COORD {
        -MAX_COORD as int
    } else if c > MAX_COORD {
        MAX_COORD as int
    } else {
        c
    }
}

/// Clamps a coordinate into the world plane.
pub fn clamp_coord(c: i64) -> (r: i64)
    ensures
        r == clamp_spec(c as int),
{
    if c < -MAX_COORD {
        -MAX_COORD
    } else if c > MAX_COORD {
        MAX_COORD
    } else {
        c
    }
}

} // verus!
