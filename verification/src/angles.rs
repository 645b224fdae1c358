//! Fixed-point angle arithmetic.
//!
//! An angle x radians is stored as the integer round(x * 2^30 / pi), so
//! pi/4, pi/2, pi, 3pi/2, 2pi and 4pi are exact constants and reduction
//! modulo a full turn is exact integer arithmetic.

use vstd::prelude::*;

verus! {

/// pi / 4 in angle units.
pub const PI_4: i64 = 268435456;

/// pi / 2 in angle units.
pub const PI_2: i64 = 536870912;

/// pi in angle units.
pub const PI: i64 = 1073741824;

/// 3 pi / 2 in angle units.
pub const PI_3_2: i64 = 1610612736;

/// 2 pi in angle units.
pub const TWO_PI: i64 = 2147483648;

/// 4 pi in angle units.
pub const FOUR_PI: i64 = 4294967296;

/// Euclidean remainder of an angle by a full turn: the representative of
/// x modulo 2 pi that lies in [0, 2 pi).
pub fn rem_two_pi(x: i64) -> (r: i64)
    requires
        -0x4000_0000_0000_0000 < x < 0x4000_0000_0000_0000,
    ensures
        r == x as int % TWO_PI as int,
{
    let m: i64 = x % TWO_PI;
    if m < 0 {
        m + TWO_PI
    } else {
        m
    }
}

} // verus!
