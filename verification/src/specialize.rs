//! Specializations: recognized symmetric families of two-qubit unitaries.
//!
//! After chamber reduction the canonical coordinates are tested, in a
//! fixed priority order, against nine special points; the first one that
//! the requested fidelity admits wins, else the decomposition stays
//! general. Each specialization then collapses redundant freedom of the
//! one-qubit factors and rewrites the coordinates exactly.

use vstd::prelude::*;
use crate::angles::{PI_4, PI_2};
use crate::chamber::abs_spec;
use crate::errors::SynthError;
use crate::sequence::EulerBasis;

verus! {

/// One unit on the fidelity scale is 10^-9 of perfect fidelity.
pub const FID_ONE: i64 = 1000000000;

/// The recognized symmetric families.
#[derive(Clone, Copy, Debug, PartialEq, Eq, Structural)]
pub enum Specialization {
    General,
    IdEquiv,
    SwapEquiv,
    PartialSwapEquiv,
    PartialSwapFlipEquiv,
    ControlledEquiv,
    MirrorControlledEquiv,
    FSimAabEquiv,
    FSimAbbEquiv,
    FSimAbmbEquiv,
}

impl Specialization {
    /// Rebuilds a specialization from its stable discriminant; values
    /// outside the known range are rejected.
    pub fn from_u8(val: u8) -> (r: Result<Specialization, SynthError>)
        ensures
            val <= 9 ==> r is Ok,
            val > 9 ==> r == Result::<Specialization, SynthError>::Err(
                SynthError::UnknownSpecialization { value: val },
            ),
            r is Ok ==> r->Ok_0 == spec_from_u8(val as int),
    {
        match val {
            0 => Ok(Specialization::General),
            1 => Ok(Specialization::IdEquiv),
            2 => Ok(Specialization::SwapEquiv),
            3 => Ok(Specialization::PartialSwapEquiv),
            4 => Ok(Specialization::PartialSwapFlipEquiv),
            5 => Ok(Specialization::ControlledEquiv),
            6 => Ok(Specialization::MirrorControlledEquiv),
            7 => Ok(Specialization::FSimAabEquiv),
            8 => Ok(Specialization::FSimAbbEquiv),
            9 => Ok(Specialization::FSimAbmbEquiv),
            x => Err(SynthError::UnknownSpecialization { value: x }),
        }
    }
}

/// The discriminant encoding used by `from_u8`.
pub open spec fn spec_from_u8(val: int) -> Specialization {
    if val == 0 {
        Specialization::General
    } else if val == 1 {
        Specialization::IdEquiv
    } else if val == 2 {
        Specialization::SwapEquiv
    } else if val == 3 {
        Specialization::PartialSwapEquiv
    } else if val == 4 {
        Specialization::PartialSwapFlipEquiv
    } else if val == 5 {
        Specialization::ControlledEquiv
    } else if val == 6 {
        Specialization::MirrorControlledEquiv
    } else if val == 7 {
        Specialization::FSimAabEquiv
    } else if val == 8 {
        Specialization::FSimAbbEquiv
    } else {
        Specialization::FSimAbmbEquiv
    }
}

/// pi^2 scaled by 2^60: the square of the angle unit is pi^2 / 2^60, so
/// this constant converts squared angle units back to angle units.
pub const PI_SQ_Q60: i128 = 11378879155978302162;

/// 2^30.
pub const Q30: i128 = 1073741824;

/// 2^60.
pub const Q60: i128 = 1152921504606846976;

/// 18 * 2^90.
pub const Q90_18: i128 = 22282920707136844948184236032;

/// The best partial-swap exponent for U_d(a, b, c): the mean of the three
/// coordinates plus a cubic correction, evaluated in fixed point with all
/// intermediate quotients truncated toward zero.
pub open spec fn closest_partial_swap_spec(a: int, b: int, c: int) -> int {
    let m = (a + b + c) / 3;
    let am = a - m;
    let bm = b - m;
    let cm = c - m;
    let ab = a - b;
    let bc = b - c;
    let ca = c - a;
    let sq = ab * ab + bc * bc + ca * ca;
    let inner = 6 * (Q60 as int) + (PI_SQ_Q60 * sq) / (Q60 as int);
    let t1 = am * bm * cm;
    let t1a = if t1 >= 0 { t1 } else { -t1 };
    let x1 = t1a / (Q30 as int);
    let x2 = (x1 * PI_SQ_Q60) / (Q60 as int);
    let x3 = x2 * inner;
    let corr = x3 / (Q90_18 as int);
    if t1 >= 0 {
        m + corr
    } else {
        m - corr
    }
}

/// A good approximation to the x minimizing the trace distance of
/// U_d(x, x, x) from U_d(a, b, c), for coordinates in the chamber.
#[verifier::rlimit(80)]
pub fn closest_partial_swap(a: i64, b: i64, c: i64) -> (r: i64)
    requires
        0 <= a <= PI_2,
        0 <= b <= a,
        -b <= c <= b,
    ensures
        r == closest_partial_swap_spec(a as int, b as int, c as int),
        -17179869184 <= r <= 17179869184,
{
    let s: i64 = a + b + c;
    let m: i64 = s / 3;
    let am: i128 = (a - m) as i128;
    let bm: i128 = (b - m) as i128;
    let cm: i128 = (c - m) as i128;
    let ab: i128 = (a - b) as i128;
    let bc: i128 = (b - c) as i128;
    let ca: i128 = (c - a) as i128;
    proof {
        assert(0 <= ab * ab <= 1152921504606846976 && 0 <= bc * bc <= 1152921504606846976
            && 0 <= ca * ca <= 1152921504606846976) by (nonlinear_arith)
            requires
                -1073741824 <= ab <= 1073741824,
                -1073741824 <= bc <= 1073741824,
                -1073741824 <= ca <= 1073741824,
        ;
        assert(-288230376151711744 <= am * bm <= 288230376151711744
            && -309485009821345068724781056 <= (am * bm) * cm <= 309485009821345068724781056) by (nonlinear_arith)
            requires
                -536870912 <= am <= 536870912,
                -536870912 <= bm <= 536870912,
                -1073741824 <= cm <= 1073741824,
        ;
    }
    let sq: i128 = ab * ab + bc * bc + ca * ca;
    assert(0 <= sq <= 3458764513820540928);
    assert(0 <= PI_SQ_Q60 * sq <= 39356863431749979378163069909871886336) by (nonlinear_arith)
        requires
            0 <= sq <= 3458764513820540928,
    ;
    let inner: i128 = 6 * Q60 + (PI_SQ_Q60 * sq) / Q60;
    assert(0 < inner <= 41054166495575988342);
    let t1: i128 = am * bm * cm;
    let t1a: i128 = if t1 >= 0 { t1 } else { -t1 };
    assert(0 <= t1a <= 309485009821345068724781056);
    let x1: i128 = t1a / Q30;
    assert(0 <= x1 <= 288230376151711744);
    proof {
        assert(0 <= x1 * PI_SQ_Q60 <= 3279738619312498281513589159155990528) by (nonlinear_arith)
            requires
                0 <= x1 <= 288230376151711744,
        ;
    }
    let x2: i128 = (x1 * PI_SQ_Q60) / Q60;
    assert(0 <= x2 <= 2844719788994575540);
    proof {
        assert(0 <= x2 * inner <= 116787599850643098305732107712278354680) by (nonlinear_arith)
            requires
                0 <= x2 <= 2844719788994575540,
                0 <= inner <= 41054166495575988342,
        ;
    }
    let x3: i128 = x2 * inner;
    let corr128: i128 = x3 / Q90_18;
    assert(0 <= corr128 <= 5241126214);
    let corr: i64 = corr128 as i64;
    if t1 >= 0 {
        m + corr
    } else {
        m - corr
    }
}

/// The candidate special points, in the priority order in which they are
/// tried, as fidelity slots: identity, the two swap signs, partial swap,
/// flipped partial swap, controlled, mirrored controlled, and the three
/// fSim families.
#[derive(Clone, Copy, Debug, PartialEq, Eq, Structural)]
pub struct CandidateFidelities {
    pub id: i64,
    pub swap_pos: i64,
    pub swap_neg: i64,
    pub partial_swap: i64,
    pub partial_swap_flip: i64,
    pub controlled: i64,
    pub mirror_controlled: i64,
    pub fsim_aab: i64,
    pub fsim_abb: i64,
    pub fsim_abmb: i64,
}

/// First specialization whose candidate fidelity reaches the requested
/// one, in fixed priority order; `General` if none does or when no
/// fidelity was requested; a forced specialization always wins.
pub open spec fn select_spec(
    forced: Option<Specialization>,
    f: CandidateFidelities,
    requested: Option<i64>,
) -> Specialization {
    match forced {
        Some(s) => s,
        None => match requested {
            None => Specialization::General,
            Some(t) => {
                if f.id >= t {
                    Specialization::IdEquiv
                } else if f.swap_pos >= t || f.swap_neg >= t {
                    Specialization::SwapEquiv
                } else if f.partial_swap >= t {
                    Specialization::PartialSwapEquiv
                } else if f.partial_swap_flip >= t {
                    Specialization::PartialSwapFlipEquiv
                } else if f.controlled >= t {
                    Specialization::ControlledEquiv
                } else if f.mirror_controlled >= t {
                    Specialization::MirrorControlledEquiv
                } else if f.fsim_aab >= t {
                    Specialization::FSimAabEquiv
                } else if f.fsim_abb >= t {
                    Specialization::FSimAbbEquiv
                } else if f.fsim_abmb >= t {
                    Specialization::FSimAbmbEquiv
                } else {
                    Specialization::General
                }
            },
        },
    }
}

/// Picks the specialization as `select_spec` prescribes.
pub fn select_specialization(
    forced: Option<Specialization>,
    f: &CandidateFidelities,
    requested: Option<i64>,
) -> (r: Specialization)
    ensures
        r == select_spec(forced, *f, requested),
{
    match forced {
        Some(s) => s,
        None => match requested {
            None => Specialization::General,
            Some(t) => {
                if f.id >= t {
                    Specialization::IdEquiv
                } else if f.swap_pos >= t || f.swap_neg >= t {
                    Specialization::SwapEquiv
                } else if f.partial_swap >= t {
                    Specialization::PartialSwapEquiv
                } else if f.partial_swap_flip >= t {
                    Specialization::PartialSwapFlipEquiv
                } else if f.controlled >= t {
                    Specialization::ControlledEquiv
                } else if f.mirror_controlled >= t {
                    Specialization::MirrorControlledEquiv
                } else if f.fsim_aab >= t {
                    Specialization::FSimAabEquiv
                } else if f.fsim_abb >= t {
                    Specialization::FSimAbbEquiv
                } else if f.fsim_abmb >= t {
                    Specialization::FSimAbmbEquiv
                } else {
                    Specialization::General
                }
            },
        },
    }
}

/// What a specialization rewrites the chamber coordinates to.
pub open spec fn specialized_coords_spec(s: Specialization, a: int, b: int, c: int) -> (
    int,
    int,
    int,
) {
    match s {
        Specialization::IdEquiv => (0int, 0int, 0int),
        Specialization::SwapEquiv => (PI_4 as int, PI_4 as int, PI_4 as int),
        Specialization::PartialSwapEquiv => {
            let m = closest_partial_swap_spec(a, b, c);
            (m, m, m)
        },
        Specialization::PartialSwapFlipEquiv => {
            let m = closest_partial_swap_spec(a, b, -c);
            (m, m, -m)
        },
        Specialization::ControlledEquiv => (a, 0int, 0int),
        Specialization::MirrorControlledEquiv => (PI_4 as int, PI_4 as int, c),
        Specialization::FSimAabEquiv => ((a + b) / 2, (a + b) / 2, c),
        Specialization::FSimAbbEquiv => (a, (b + c) / 2, (b + c) / 2),
        Specialization::FSimAbmbEquiv => (a, (b - c) / 2, -((b - c) / 2)),
        Specialization::General => (a, b, c),
    }
}

/// The coordinate rewrite of one specialization, together with the exact
/// bookkeeping the swap family needs: decomposing toward the opposite
/// swap sign flips the factors and adds a quarter turn of phase.
pub struct SpecializedCoords {
    pub a: i64,
    pub b: i64,
    pub c: i64,
    /// The swap rewrite used the negative-sign representative.
    pub flipped_from_original: bool,
    /// Exact phase added by the rewrite itself, in angle units.
    pub phase_add: i64,
    /// The Euler basis the rewritten one-qubit factors are reported in.
    pub euler_basis: EulerBasis,
}

/// Applies the coordinate rewrite of the chosen specialization to
/// in-chamber coordinates.
pub fn apply_specialization(s: Specialization, a: i64, b: i64, c: i64) -> (r: SpecializedCoords)
    requires
        0 <= b <= a,
        a <= PI_2,
        abs_spec(c as int) <= b,
    ensures
        (r.a as int, r.b as int, r.c as int) == specialized_coords_spec(
            s,
            a as int,
            b as int,
            c as int,
        ),
        r.flipped_from_original == (s == Specialization::SwapEquiv && c <= 0),
        r.phase_add == if r.flipped_from_original { PI_2 as int } else { 0int },
        r.euler_basis == spec_euler_basis(s),
{
    let mut flipped = false;
    let mut phase_add: i64 = 0;
    let (ra, rb, rc): (i64, i64, i64) = match s {
        Specialization::IdEquiv => (0, 0, 0),
        Specialization::SwapEquiv => {
            if c <= 0 {
                flipped = true;
                phase_add = PI_2;
            }
            (PI_4, PI_4, PI_4)
        },
        Specialization::PartialSwapEquiv => {
            let m = closest_partial_swap(a, b, c);
            (m, m, m)
        },
        Specialization::PartialSwapFlipEquiv => {
            let m = closest_partial_swap(a, b, -c);
            (m, m, -m)
        },
        Specialization::ControlledEquiv => (a, 0, 0),
        Specialization::MirrorControlledEquiv => (PI_4, PI_4, c),
        Specialization::FSimAabEquiv => {
            let h = (a + b) / 2;
            (h, h, c)
        },
        Specialization::FSimAbbEquiv => {
            let h = (b + c) / 2;
            (a, h, h)
        },
        Specialization::FSimAbmbEquiv => {
            let h = (b - c) / 2;
            (a, h, -h)
        },
        Specialization::General => (a, b, c),
    };
    SpecializedCoords { a: ra, b: rb, c: rc, flipped_from_original: flipped, phase_add, euler_basis: spec_euler_basis_exec(s) }
}

/// Each specialization reports its canonical one-qubit factors in a fixed
/// Euler basis: the controlled and the two asymmetric fSim families use
/// XYX, all others ZYZ.
pub open spec fn spec_euler_basis(s: Specialization) -> EulerBasis {
    match s {
        Specialization::ControlledEquiv | Specialization::FSimAbbEquiv
        | Specialization::FSimAbmbEquiv => EulerBasis::Xyx,
        _ => EulerBasis::Zyz,
    }
}

fn spec_euler_basis_exec(s: Specialization) -> (r: EulerBasis)
    ensures
        r == spec_euler_basis(s),
{
    match s {
        Specialization::ControlledEquiv | Specialization::FSimAbbEquiv
        | Specialization::FSimAbmbEquiv => EulerBasis::Xyx,
        _ => EulerBasis::Zyz,
    }
}

/// The angle differences whose trace fidelity measures how much a
/// specialization moved the coordinates; the flipped swap representative
/// measures against the mirrored original.
pub fn fidelity_deltas(a: i64, b: i64, c: i64, sa: i64, sb: i64, sc: i64, flipped: bool) -> (r: (
    i64,
    i64,
    i64,
))
    requires
        -PI_2 <= a <= PI_2,
        -PI_2 <= b <= PI_2,
        -PI_2 <= c <= PI_2,
        -PI_2 <= sa <= PI_2,
        -PI_2 <= sb <= PI_2,
        -PI_2 <= sc <= PI_2,
    ensures
        flipped ==> (r.0 == PI_2 - a - sa && r.1 == b - sb && r.2 == -c - sc),
        !flipped ==> (r.0 == a - sa && r.1 == b - sb && r.2 == c - sc),
{
    if flipped {
        (PI_2 - a - sa, b - sb, -c - sc)
    } else {
        (a - sa, b - sb, c - sc)
    }
}

/// Passes iff the achieved fidelity reaches every requested one; on
/// failure carries both values. With no requested fidelity nothing is
/// checked.
pub fn check_fidelity(calculated: i64, requested: Option<i64>) -> (r: Result<(), SynthError>)
    ensures
        r is Ok <==> (requested is None || calculated >= requested->0),
        r is Err ==> r == Result::<(), SynthError>::Err(SynthError::FidelityBelowRequest {
            calculated,
            requested: requested->0,
        }),
{
    match requested {
        None => Ok(()),
        Some(f) => {
            if calculated < f {
                Err(SynthError::FidelityBelowRequest { calculated, requested: f })
            } else {
                Ok(())
            }
        },
    }
}

} // verus!
