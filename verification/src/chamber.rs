//! Reduction of interaction coordinates into the canonical Weyl chamber.
//!
//! The three coordinates derived from the eigenphases of the magic-basis
//! matrix are folded, sorted and flipped into the region
//! pi/4 >= a >= b >= |c| >= 0. Every flip that is applied here must be
//! mirrored on the one-qubit factor matrices by the numerical front end,
//! so the result records which flips fired, the permutation that was
//! applied, and the exact global-phase correction in angle units.

use vstd::prelude::*;
use crate::angles::{PI_4, PI_2, PI, PI_3_2, TWO_PI, FOUR_PI};

verus! {

/// Distance of an angle in [0, 2 pi) from the nearest multiple of pi/2:
/// the key by which coordinates are ordered before flipping.
pub open spec fn fold_quarter(x: int) -> int {
    let m = x % (PI_2 as int);
    if m <= PI_2 - m {
        m
    } else {
        PI_2 - m
    }
}

/// Stable ascending ranking of three keys: returns the indices of the
/// smallest, middle and largest key; equal keys keep their input order.
pub open spec fn sort3_spec(t0: int, t1: int, t2: int) -> (int, int, int) {
    if t0 <= t1 {
        if t1 <= t2 {
            (0int, 1int, 2int)
        } else if t0 <= t2 {
            (0int, 2int, 1int)
        } else {
            (2int, 0int, 1int)
        }
    } else {
        if t0 <= t2 {
            (1int, 0int, 2int)
        } else if t1 <= t2 {
            (1int, 2int, 0int)
        } else {
            (2int, 1int, 0int)
        }
    }
}

/// Selects one of three values by index.
pub open spec fn index3(c0: int, c1: int, c2: int, i: int) -> int {
    if i == 0 {
        c0
    } else if i == 1 {
        c1
    } else {
        c2
    }
}

/// Everything the chamber reduction decides, as mathematical integers.
pub ghost struct ReductionModel {
    /// Canonical coordinates.
    pub a: int,
    pub b: int,
    pub c: int,
    /// Input slots moved to positions 0, 1, 2 before flipping
    /// (position 0 becomes b, position 1 becomes a, position 2 becomes c).
    pub p0: int,
    pub p1: int,
    pub p2: int,
    /// Which conditional flips fired, in program order.
    pub wrap_b: bool,
    pub wrap_a: bool,
    pub conj_b: bool,
    pub conj_a: bool,
    pub wrap_c: bool,
    pub conj_c: bool,
    pub shift_c: bool,
    /// Exact global-phase correction in angle units.
    pub phase: int,
}

/// The chamber reduction itself, step for step, on the coordinates
/// c0, c1, c2 (each taken modulo 2 pi).
pub open spec fn reduce_spec(c0: int, c1: int, c2: int) -> ReductionModel {
    let t0 = fold_quarter(c0);
    let t1 = fold_quarter(c1);
    let t2 = fold_quarter(c2);
    let (q0, q1, q2) = sort3_spec(t0, t1, t2);
    let s0 = index3(c0, c1, c2, q1);
    let s1 = index3(c0, c1, c2, q2);
    let s2 = index3(c0, c1, c2, q0);
    ReductionModel { p0: q1, p1: q2, p2: q0, ..flips_spec(s0, s1, s2) }
}

/// The flip stage alone, on the already permuted coordinates.
pub open spec fn flips_spec(s0: int, s1: int, s2: int) -> ReductionModel {
    let wrap_b = s0 > PI_2;
    let s0w = if wrap_b { s0 - PI_3_2 } else { s0 };
    let wrap_a = s1 > PI_2;
    let s1w = if wrap_a { s1 - PI_3_2 } else { s1 };
    let conj_b = s0w > PI_4;
    let s0c = if conj_b { PI_2 - s0w } else { s0w };
    let conj_a = s1w > PI_4;
    let s1c = if conj_a { PI_2 - s1w } else { s1w };
    let wrap_c = s2 > PI_2;
    let s2w = if wrap_c { s2 - PI_3_2 } else { s2 };
    let conj_c = conj_b != conj_a;
    let s2c = if conj_c { PI_2 - s2w } else { s2w };
    let shift_c = s2c > PI_4;
    let s2s = if shift_c { s2c - PI_2 } else { s2c };
    let phase = (if wrap_b { PI_2 as int } else { 0int })
        + (if wrap_a { PI_2 as int } else { 0int })
        + (if conj_b { -(PI_2 as int) } else { 0int })
        + (if conj_a { PI_2 - (if conj_b { 0int } else { PI as int }) } else { 0int })
        + (if wrap_c { PI_2 - (if conj_c { PI as int } else { 0int }) } else { 0int })
        + (if conj_c { PI_2 as int } else { 0int })
        + (if shift_c { -(PI_2 as int) } else { 0int });
    ReductionModel {
        a: s1c,
        b: s0c,
        c: s2s,
        p0: 0,
        p1: 0,
        p2: 0,
        wrap_b,
        wrap_a,
        conj_b,
        conj_a,
        wrap_c,
        conj_c,
        shift_c,
        phase,
    }
}

/// A coordinate lies within a quarter turn of a multiple of 2 pi: the
/// range that coordinates built from eigenphase halves always occupy.
pub open spec fn near_axis(x: int) -> bool {
    (0 <= x <= PI_2) || (PI_3_2 <= x < TWO_PI)
}

/// The outcome of the chamber reduction handed back to the caller.
pub struct ChamberReduction {
    pub a: i64,
    pub b: i64,
    pub c: i64,
    pub p0: usize,
    pub p1: usize,
    pub p2: usize,
    pub wrap_b: bool,
    pub wrap_a: bool,
    pub conj_b: bool,
    pub conj_a: bool,
    pub wrap_c: bool,
    pub conj_c: bool,
    pub shift_c: bool,
    pub phase: i64,
}

impl ChamberReduction {
    pub open spec fn model(self) -> ReductionModel {
        ReductionModel {
            a: self.a as int,
            b: self.b as int,
            c: self.c as int,
            p0: self.p0 as int,
            p1: self.p1 as int,
            p2: self.p2 as int,
            wrap_b: self.wrap_b,
            wrap_a: self.wrap_a,
            conj_b: self.conj_b,
            conj_a: self.conj_a,
            wrap_c: self.wrap_c,
            conj_c: self.conj_c,
            shift_c: self.shift_c,
            phase: self.phase as int,
        }
    }

    /// The canonical chamber: pi/4 >= a >= b >= |c| >= 0.
    pub open spec fn in_chamber(self) -> bool {
        self.a <= PI_4 && self.b <= self.a && abs_spec(self.c as int) <= self.b as int
    }
}

/// Absolute value as a mathematical integer.
pub open spec fn abs_spec(x: int) -> int {
    if x >= 0 {
        x
    } else {
        -x
    }
}

/// Flipping a near-axis coordinate lands exactly on its folding key.
proof fn lemma_flip_ab(x: int)
    requires
        near_axis(x),
    ensures
        ({
            let y = if x > PI_2 { x - PI_3_2 } else { x };
            let z = if y > PI_4 { PI_2 - y } else { y };
            z == fold_quarter(x) && 0 <= z <= PI_4
        }),
{
}

/// The last three flips leave a value whose magnitude is the folding key.
proof fn lemma_flip_c(x: int, conj: bool)
    requires
        near_axis(x),
    ensures
        ({
            let y = if x > PI_2 { x - PI_3_2 } else { x };
            let z = if conj { PI_2 - y } else { y };
            let w = if z > PI_4 { z - PI_2 } else { z };
            abs_spec(w) == fold_quarter(x) && -PI_4 <= w <= PI_4
        }),
{
}

/// Stable ascending order of the three input coordinates, by folding key.
/// Returns the indices of the smallest, middle and largest key.
fn sort3(t0: i64, t1: i64, t2: i64) -> (q: (usize, usize, usize))
    ensures
        (q.0 as int, q.1 as int, q.2 as int) == sort3_spec(t0 as int, t1 as int, t2 as int),
        q.0 < 3 && q.1 < 3 && q.2 < 3,
        q.0 != q.1 && q.1 != q.2 && q.0 != q.2,
{
    if t0 <= t1 {
        if t1 <= t2 {
            (0, 1, 2)
        } else if t0 <= t2 {
            (0, 2, 1)
        } else {
            (2, 0, 1)
        }
    } else {
        if t0 <= t2 {
            (1, 0, 2)
        } else if t1 <= t2 {
            (1, 2, 0)
        } else {
            (2, 1, 0)
        }
    }
}

/// Folds one coordinate in [0, 2 pi) to its distance from the nearest
/// multiple of pi/2.
fn fold_key(x: i64) -> (r: i64)
    requires
        0 <= x < TWO_PI,
    ensures
        r == fold_quarter(x as int),
{
    let m: i64 = x % PI_2;
    if m <= PI_2 - m {
        m
    } else {
        PI_2 - m
    }
}

/// The flip stage: folds the already permuted coordinates into the
/// chamber and accounts the phase, exactly as flips_spec prescribes.
#[verifier::rlimit(60)]
fn flips(s0: i64, s1: i64, s2: i64) -> (r: ChamberReduction)
    requires
        near_axis(s0 as int),
        near_axis(s1 as int),
        near_axis(s2 as int),
    ensures
        ({
            let m = flips_spec(s0 as int, s1 as int, s2 as int);
            r.a == m.a && r.b == m.b && r.c == m.c
                && r.wrap_b == m.wrap_b && r.wrap_a == m.wrap_a
                && r.conj_b == m.conj_b && r.conj_a == m.conj_a
                && r.wrap_c == m.wrap_c && r.conj_c == m.conj_c
                && r.shift_c == m.shift_c && r.phase == m.phase
        }),
        r.a == fold_quarter(s1 as int),
        r.b == fold_quarter(s0 as int),
        abs_spec(r.c as int) == fold_quarter(s2 as int),
        0 <= r.a <= PI_4,
        0 <= r.b <= PI_4,
        -PI_4 <= r.c <= PI_4,
        r.p0 == 0 && r.p1 == 0 && r.p2 == 0,
{
    let wrap_b = s0 > PI_2;
    let s0w = if wrap_b { s0 - PI_3_2 } else { s0 };
    let wrap_a = s1 > PI_2;
    let s1w = if wrap_a { s1 - PI_3_2 } else { s1 };
    let conj_b = s0w > PI_4;
    let s0c = if conj_b { PI_2 - s0w } else { s0w };
    let conj_a = s1w > PI_4;
    let s1c = if conj_a { PI_2 - s1w } else { s1w };
    let wrap_c = s2 > PI_2;
    let s2w = if wrap_c { s2 - PI_3_2 } else { s2 };
    let conj_c = conj_b != conj_a;
    let s2c = if conj_c { PI_2 - s2w } else { s2w };
    let shift_c = s2c > PI_4;
    let s2s = if shift_c { s2c - PI_2 } else { s2c };
    let mut phase: i64 = 0;
    if wrap_b {
        phase = phase + PI_2;
    }
    if wrap_a {
        phase = phase + PI_2;
    }
    if conj_b {
        phase = phase - PI_2;
    }
    if conj_a {
        phase = phase + PI_2;
        if !conj_b {
            phase = phase - PI;
        }
    }
    if wrap_c {
        phase = phase + PI_2;
        if conj_c {
            phase = phase - PI;
        }
    }
    if conj_c {
        phase = phase + PI_2;
    }
    if shift_c {
        phase = phase - PI_2;
    }
    proof {
        lemma_flip_ab(s0 as int);
        lemma_flip_ab(s1 as int);
        lemma_flip_c(s2 as int, conj_c);
    }
    ChamberReduction {
        a: s1c,
        b: s0c,
        c: s2s,
        p0: 0,
        p1: 0,
        p2: 0,
        wrap_b,
        wrap_a,
        conj_b,
        conj_a,
        wrap_c,
        conj_c,
        shift_c,
        phase,
    }
}

/// Sorts the three coordinates by folding key and flips them into the
/// canonical Weyl chamber, recording the permutation, each flip that
/// fired, and the exact global-phase correction.
#[verifier::rlimit(60)]
pub fn reduce(c0: i64, c1: i64, c2: i64) -> (r: ChamberReduction)
    requires
        near_axis(c0 as int),
        near_axis(c1 as int),
        near_axis(c2 as int),
    ensures
        r.model() == reduce_spec(c0 as int, c1 as int, c2 as int),
        r.in_chamber(),
        -PI_4 <= r.c,
        r.p0 < 3 && r.p1 < 3 && r.p2 < 3,
        r.p0 != r.p1 && r.p1 != r.p2 && r.p0 != r.p2,
{
    let t0 = fold_key(c0);
    let t1 = fold_key(c1);
    let t2 = fold_key(c2);
    let (q0, q1, q2) = sort3(t0, t1, t2);
    let s0 = if q1 == 0 { c0 } else if q1 == 1 { c1 } else { c2 };
    let s1 = if q2 == 0 { c0 } else if q2 == 1 { c1 } else { c2 };
    let s2 = if q0 == 0 { c0 } else if q0 == 1 { c1 } else { c2 };
    let f = flips(s0, s1, s2);
    proof {
        assert(s0 as int == index3(c0 as int, c1 as int, c2 as int, q1 as int));
        assert(s1 as int == index3(c0 as int, c1 as int, c2 as int, q2 as int));
        assert(s2 as int == index3(c0 as int, c1 as int, c2 as int, q0 as int));
    }
    ChamberReduction { p0: q1, p1: q2, p2: q0, ..f }
}

/// Interaction coordinates from the three independent eigenphase halves
/// of the magic-basis matrix. With the fourth phase chosen so that all
/// four sum to zero, each pairwise average lands within a quarter turn of
/// a multiple of 2 pi, so the chamber reduction applies and its result
/// satisfies pi/4 >= a >= b >= |c| >= 0.
pub fn weyl_coordinates(d0: i64, d1: i64, d2: i64) -> (r: (ChamberReduction, i64, i64, i64))
    requires
        -PI_2 <= d0 < PI_2,
        -PI_2 <= d1 < PI_2,
        -PI_2 <= d2 < PI_2,
    ensures
        r.1 == ((-d1 - d2) as int % FOUR_PI as int) / 2,
        r.2 == ((-d0 - d2) as int % FOUR_PI as int) / 2,
        r.3 == ((-d0 - d1) as int % FOUR_PI as int) / 2,
        r.0.model() == reduce_spec(r.1 as int, r.2 as int, r.3 as int),
        r.0.in_chamber(),
        -PI_4 <= r.0.c,
        r.0.p0 < 3 && r.0.p1 < 3 && r.0.p2 < 3,
        r.0.p0 != r.0.p1 && r.0.p1 != r.0.p2 && r.0.p0 != r.0.p2,
{
    let d3: i64 = -d0 - d1 - d2;
    let c0 = half_mod_two_pi(d0 + d3);
    let c1 = half_mod_two_pi(d1 + d3);
    let c2 = half_mod_two_pi(d2 + d3);
    let r = reduce(c0, c1, c2);
    (r, c0, c1, c2)
}

/// Halves an angle in (-2 pi, 2 pi] after lifting it into [0, 4 pi);
/// the result lies in [0, 2 pi) and is a near-axis value whenever the
/// input lies within half a turn of zero.
fn half_mod_two_pi(s: i64) -> (r: i64)
    requires
        -TWO_PI < s <= TWO_PI,
    ensures
        r == (s as int % FOUR_PI as int) / 2,
        0 <= r < TWO_PI,
        -PI < s <= PI ==> near_axis(r as int),
{
    let m: i64 = s % FOUR_PI;
    let m = if m < 0 { m + FOUR_PI } else { m };
    m / 2
}

/// Coordinates already in the canonical chamber pass through the
/// reduction unchanged: feeding back (b, a, c mod 2 pi) returns exactly
/// (a, b, c), and no flip fires on a nonnegative c. The one boundary
/// case c == -pi/4 (which forces b == pi/4) is excluded: there the
/// reduction returns the equivalent representative +pi/4.
pub proof fn lemma_reduce_idempotent(a: int, b: int, c: int)
    requires
        0 <= b,
        b <= a,
        a <= PI_4,
        abs_spec(c) <= b,
        !(c < 0 && b == PI_4),
    ensures
        ({
            let m = reduce_spec(b, a, if c >= 0 { c } else { c + TWO_PI });
            m.a == a && m.b == b && m.c == c
        }),
{
}

} // verus!
