//! The pulse-efficient closed forms for a controlled-X entangling gate
//! and a ZSX-family rotation basis.
//!
//! The one-qubit blocks of the two- and three-use decompositions are
//! re-expressed in alternating ZXZ / XZX Euler bases so that rotations
//! commute across the entangling gates; what remains between the gates
//! is a short fixed pattern of square-root-X gates and virtual Z
//! rotations. The three-use form splits on whether an intermediate angle
//! is a multiple of pi, exactly a quarter turn, or generic; only the
//! generic case needs a real X rotation, which the mandatory pulse path
//! refuses.

use vstd::prelude::*;
use crate::angles::{PI, PI_2, PI_4, TWO_PI};
use crate::chamber::abs_spec;
use crate::sequence::{GateKind, TwoQubitGateSequence, OneQubitSequence, gate_is};
use crate::weyl::{PHASE_INPUT_LIMIT, append_1q};

verus! {

/// One answer of the external Euler-angle service for a 2x2 block:
/// theta, phi, lambda and the block's phase, in angle units.
#[derive(Clone, Copy, Debug)]
pub struct EulerSet {
    pub theta: i64,
    pub phi: i64,
    pub lam: i64,
    pub phase: i64,
}

/// Every field of an Euler answer is within the working range.
pub open spec fn euler_ok(e: EulerSet) -> bool {
    -PHASE_INPUT_LIMIT <= e.theta <= PHASE_INPUT_LIMIT
        && -PHASE_INPUT_LIMIT <= e.phi <= PHASE_INPUT_LIMIT
        && -PHASE_INPUT_LIMIT <= e.lam <= PHASE_INPUT_LIMIT
        && -PHASE_INPUT_LIMIT <= e.phase <= PHASE_INPUT_LIMIT
}

/// The decomposition of a unitary over SX, virtual RZ and two uses of
/// the controlled-X gate. The combined outer one-qubit blocks arrive
/// already re-decomposed (`begin_q0`, `begin_q1`, `end_q0`, `end_q1`);
/// between the two entangling gates only two virtual Z rotations and a
/// pair of square-root-X gates remain, with angles read off the middle
/// blocks' Euler angles.
#[verifier::rlimit(100)]
pub fn two_cx_efficient_euler(
    target_phase: i64,
    basis_phase: i64,
    eu0: &Vec<EulerSet>,
    eu1: &Vec<EulerSet>,
    begin_q0: &OneQubitSequence,
    begin_q1: &OneQubitSequence,
    end_q0: &OneQubitSequence,
    end_q1: &OneQubitSequence,
) -> (r: TwoQubitGateSequence)
    requires
        eu0@.len() == 3,
        eu1@.len() == 3,
        euler_ok(eu0@[0]) && euler_ok(eu0@[1]) && euler_ok(eu0@[2]),
        euler_ok(eu1@[0]) && euler_ok(eu1@[1]) && euler_ok(eu1@[2]),
        -PHASE_INPUT_LIMIT <= target_phase <= PHASE_INPUT_LIMIT,
        -PHASE_INPUT_LIMIT <= basis_phase <= PHASE_INPUT_LIMIT,
        -PHASE_INPUT_LIMIT <= begin_q0.global_phase <= PHASE_INPUT_LIMIT,
        -PHASE_INPUT_LIMIT <= begin_q1.global_phase <= PHASE_INPUT_LIMIT,
        -PHASE_INPUT_LIMIT <= end_q0.global_phase <= PHASE_INPUT_LIMIT,
        -PHASE_INPUT_LIMIT <= end_q1.global_phase <= PHASE_INPUT_LIMIT,
    ensures
        ({
            let g = r.gates@;
            let n0 = begin_q0.gates@.len() as int;
            let n1 = n0 + begin_q1.gates@.len();
            let n2 = n1 + 6;
            let n3 = n2 + end_q0.gates@.len();
            &&& g.len() == n3 + end_q1.gates@.len()
            &&& crate::controlled::seg_fwd(g, *begin_q0, 0, 0u8)
            &&& crate::controlled::seg_fwd(g, *begin_q1, n0, 1u8)
            &&& gate_is(g[n1], GateKind::Cx, seq![], seq![0u8, 1u8])
            &&& gate_is(g[n1 + 1], GateKind::Sx, seq![], seq![0u8])
            &&& gate_is(g[n1 + 2], GateKind::Rz, seq![(eu0@[1].theta - PI) as i64], seq![0u8])
            &&& gate_is(g[n1 + 3], GateKind::Sx, seq![], seq![0u8])
            &&& gate_is(g[n1 + 4], GateKind::Rz, seq![eu1@[1].theta], seq![1u8])
            &&& gate_is(g[n1 + 5], GateKind::Cx, seq![], seq![0u8, 1u8])
            &&& crate::controlled::seg_fwd(g, *end_q0, n2, 0u8)
            &&& crate::controlled::seg_fwd(g, *end_q1, n3, 1u8)
            &&& r.global_phase == target_phase - 2 * basis_phase + eu0@[0].phase + eu0@[1].phase
                + eu0@[2].phase + eu1@[0].phase + eu1@[1].phase + eu1@[2].phase
                + begin_q0.global_phase + begin_q1.global_phase + PI_2 + end_q0.global_phase
                + end_q1.global_phase
        }),
{
    let mut seq = TwoQubitGateSequence::new();
    let mut phase: i64 = target_phase - 2 * basis_phase;
    phase = phase + eu0[0].phase + eu0[1].phase + eu0[2].phase;
    phase = phase + eu1[0].phase + eu1[1].phase + eu1[2].phase;
    phase = phase + begin_q0.global_phase;
    phase = phase + begin_q1.global_phase;
    phase = phase + PI_2;
    phase = phase + end_q0.global_phase;
    phase = phase + end_q1.global_phase;
    append_1q(&mut seq, begin_q0, 0);
    let ghost s0 = seq.gates@;
    append_1q(&mut seq, begin_q1, 1);
    let ghost s1 = seq.gates@;
    seq.push(GateKind::Cx, vec![], vec![0u8, 1u8]);
    seq.push(GateKind::Sx, vec![], vec![0u8]);
    let p0: i64 = eu0[1].theta - PI;
    seq.push(GateKind::Rz, vec![p0], vec![0u8]);
    seq.push(GateKind::Sx, vec![], vec![0u8]);
    let p1: i64 = eu1[1].theta;
    seq.push(GateKind::Rz, vec![p1], vec![1u8]);
    seq.push(GateKind::Cx, vec![], vec![0u8, 1u8]);
    let ghost s2 = seq.gates@;
    append_1q(&mut seq, end_q0, 0);
    let ghost s3 = seq.gates@;
    append_1q(&mut seq, end_q1, 1);
    seq.global_phase = phase;
    proof {
        assert(forall|x: int| 0 <= x < s3.len() ==> #[trigger] seq.gates@[x] == s3[x]);
        assert(forall|x: int| 0 <= x < s2.len() ==> #[trigger] s3[x] == s2[x]);
        assert(forall|x: int| 0 <= x < s1.len() ==> #[trigger] s2[x] == s1[x]);
        assert(forall|x: int| 0 <= x < s0.len() ==> #[trigger] s1[x] == s0[x]);
        assert(forall|x: int| 0 <= x < s2.len() ==> #[trigger] seq.gates@[x] == s2[x]);
        assert(crate::controlled::seg_fwd(seq.gates@, *begin_q0, 0, 0u8));
        assert(crate::controlled::seg_fwd(seq.gates@, *begin_q1, s0.len() as int, 1u8));
        assert(crate::controlled::seg_fwd(seq.gates@, *end_q0, s2.len() as int, 0u8));
    }
    seq
}

/// The intermediate angle sits on a multiple of pi, to within `atol`.
pub open spec fn is_pi_mult(x: int, atol: int) -> bool {
    let m = x % (PI as int);
    m <= atol || PI - m <= atol
}

/// The intermediate angle sits on an odd multiple of pi, to within
/// `atol` (where the commuted rotation picks up a sign).
pub open spec fn is_odd_pi_mult(x: int, atol: int) -> bool {
    abs_spec(x % (TWO_PI as int) - PI) <= atol
}

/// Tests whether an angle sits on a multiple of pi, to within `atol`.
#[verifier::rlimit(50)]
fn pi_mult_flag(x: i64, atol: i64) -> (r: bool)
    requires
        -0x4000_0000_0000_0000 < x < 0x4000_0000_0000_0000,
        0 <= atol,
    ensures
        r == is_pi_mult(x as int, atol as int),
{
    let m: i64 = x % PI;
    let m = if m < 0 { m + PI } else { m };
    m <= atol || PI - m <= atol
}

/// Tests whether an angle sits on an odd multiple of pi, within `atol`.
#[verifier::rlimit(50)]
fn odd_pi_mult_flag(x: i64, atol: i64) -> (r: bool)
    requires
        -0x4000_0000_0000_0000 < x < 0x4000_0000_0000_0000,
        0 <= atol,
    ensures
        r == is_odd_pi_mult(x as int, atol as int),
{
    let m: i64 = crate::angles::rem_two_pi(x);
    crate::weyl::abs_i64(m - PI) <= atol
}

/// The virtual Z angle folded into the opening block on qubit 0 of the
/// three-use form: normally the first block's phi plus the middle
/// block's lambda; but when the commuted angle is a nonzero multiple of
/// pi, the whole commuted angle less that lambda is subtracted instead,
/// compensating the sign the commutation picks up.
pub fn three_cx_begin_angle(eu0: &Vec<EulerSet>, atol: i64) -> (r: i64)
    requires
        eu0@.len() == 4,
        0 <= atol <= PI_4,
        euler_ok(eu0@[0]) && euler_ok(eu0@[1]) && euler_ok(eu0@[2]),
    ensures
        ({
            let x12 = eu0@[1].phi + eu0@[2].lam;
            let nz = abs_spec(x12) > atol;
            let pim = is_pi_mult(x12, atol as int);
            r == if nz && pim {
                eu0@[0].phi - (x12 - eu0@[1].lam)
            } else {
                eu0@[0].phi + eu0@[1].lam
            }
        }),
{
    let x12: i64 = eu0[1].phi + eu0[2].lam;
    let pim = pi_mult_flag(x12, atol);
    let nz = crate::weyl::abs_i64(x12) > atol;
    if nz && pim {
        eu0[0].phi - (x12 - eu0[1].lam)
    } else {
        eu0[0].phi + eu0[1].lam
    }
}

/// The decomposition over SX, virtual RZ and three uses of the
/// controlled-X gate. Hadamards folded into the outer blocks reverse the
/// entangling gates' direction and turn the commuted X rotations into
/// virtual Z rotations; the generic middle rotations that survive are
/// handed in pre-decomposed (`mid_q0`, `mid_q1a`, `mid_q1b`) and are
/// only used where the corresponding angle is neither a multiple of pi
/// nor a quarter turn. When the pulse-efficient form is mandatory such a
/// generic rotation is refused and nothing is returned.
#[verifier::rlimit(100)]
pub fn three_cx_efficient_euler(
    target_phase: i64,
    basis_phase: i64,
    eu0: &Vec<EulerSet>,
    eu1: &Vec<EulerSet>,
    begin_q0: &OneQubitSequence,
    begin_q1: &OneQubitSequence,
    mid_q0: &OneQubitSequence,
    mid_q1a: &OneQubitSequence,
    mid_q1b: &OneQubitSequence,
    end_q0: &OneQubitSequence,
    end_q1: &OneQubitSequence,
    pulse_mandatory: bool,
    sign_flip: bool,
    atol: i64,
) -> (r: Option<TwoQubitGateSequence>)
    requires
        eu0@.len() == 4,
        eu1@.len() == 4,
        0 <= atol <= PI_4,
        euler_ok(eu0@[0]) && euler_ok(eu0@[1]) && euler_ok(eu0@[2]) && euler_ok(eu0@[3]),
        euler_ok(eu1@[0]) && euler_ok(eu1@[1]) && euler_ok(eu1@[2]) && euler_ok(eu1@[3]),
        -PHASE_INPUT_LIMIT <= target_phase <= PHASE_INPUT_LIMIT,
        -PHASE_INPUT_LIMIT <= basis_phase <= PHASE_INPUT_LIMIT,
        -PHASE_INPUT_LIMIT <= begin_q0.global_phase <= PHASE_INPUT_LIMIT,
        -PHASE_INPUT_LIMIT <= begin_q1.global_phase <= PHASE_INPUT_LIMIT,
        -PHASE_INPUT_LIMIT <= mid_q0.global_phase <= PHASE_INPUT_LIMIT,
        -PHASE_INPUT_LIMIT <= mid_q1a.global_phase <= PHASE_INPUT_LIMIT,
        -PHASE_INPUT_LIMIT <= mid_q1b.global_phase <= PHASE_INPUT_LIMIT,
        -PHASE_INPUT_LIMIT <= end_q0.global_phase <= PHASE_INPUT_LIMIT,
        -PHASE_INPUT_LIMIT <= end_q1.global_phase <= PHASE_INPUT_LIMIT,
    ensures
        ({
            let x12 = eu0@[1].phi + eu0@[2].lam;
            let nz = abs_spec(x12) > atol;
            let pim = is_pi_mult(x12, atol as int);
            let oldm = is_odd_pi_mult(x12, atol as int);
            let hp = abs_spec(x12 - PI_2) <= atol;
            let q1a = abs_spec(eu1@[1].theta - PI_2) <= atol;
            let q1b = abs_spec(eu1@[2].theta - PI_2) <= atol;
            &&& (r is None <==> pulse_mandatory && ((nz && !pim && !hp) || !q1a || !q1b))
            &&& (r is Some ==> ({
                let g = r->0.gates@;
                let n0 = begin_q0.gates@.len() as int;
                let n1 = n0 + begin_q1.gates@.len();
                let k4 = if pim { 1int } else { 0int };
                let c5 = if hp { 1int } else if nz && !pim { mid_q0.gates@.len() as int } else { 0int };
                let c6 = if q1a { 1int } else { mid_q1a.gates@.len() as int };
                let n7 = n1 + 1 + k4 + c5 + c6;
                let c10 = if q1b { 1int } else { mid_q1b.gates@.len() as int };
                let n11 = n7 + 3 + c10;
                let n12 = n11 + 1;
                &&& g.len() == n12 + end_q0.gates@.len() + end_q1.gates@.len()
                &&& crate::controlled::seg_fwd(g, *begin_q0, 0, 0u8)
                &&& crate::controlled::seg_fwd(g, *begin_q1, n0, 1u8)
                &&& gate_is(g[n1], GateKind::Cx, seq![], seq![1u8, 0u8])
                &&& (pim ==> gate_is(g[n1 + 1], GateKind::Rz,
                    seq![if nz && oldm { (-eu0@[1].theta) as i64 } else { eu0@[1].theta }],
                    seq![0u8]))
                &&& (hp ==> gate_is(g[n1 + 1 + k4], GateKind::Sx, seq![], seq![0u8]))
                &&& (!hp && nz && !pim ==> crate::controlled::seg_fwd(g, *mid_q0, n1 + 1 + k4,
                    0u8))
                &&& (q1a ==> gate_is(g[n1 + 1 + k4 + c5], GateKind::Sx, seq![], seq![1u8]))
                &&& (!q1a ==> crate::controlled::seg_fwd(g, *mid_q1a, n1 + 1 + k4 + c5, 1u8))
                &&& gate_is(g[n7], GateKind::Rz, seq![(eu1@[1].phi + eu1@[2].lam) as i64],
                    seq![1u8])
                &&& gate_is(g[n7 + 1], GateKind::Cx, seq![], seq![1u8, 0u8])
                &&& gate_is(g[n7 + 2], GateKind::Rz, seq![eu0@[2].theta], seq![0u8])
                &&& (q1b ==> gate_is(g[n7 + 3], GateKind::Sx, seq![], seq![1u8]))
                &&& (!q1b ==> crate::controlled::seg_fwd(g, *mid_q1b, n7 + 3, 1u8))
                &&& gate_is(g[n11], GateKind::Cx, seq![], seq![1u8, 0u8])
                &&& crate::controlled::seg_fwd(g, *end_q0, n12, 0u8)
                &&& crate::controlled::seg_fwd(g, *end_q1, n12 + end_q0.gates@.len(), 1u8)
                &&& r->0.global_phase == (target_phase - 3 * basis_phase) % (TWO_PI as int)
                    + eu0@[0].phase + eu0@[1].phase + eu0@[2].phase + eu0@[3].phase
                    + eu1@[0].phase + eu1@[1].phase + eu1@[2].phase + eu1@[3].phase
                    + begin_q0.global_phase + begin_q1.global_phase + (if pim {
                    (if nz { (if oldm { -PI as int } else { PI as int }) } else { 0int }) + (if !(
                    nz && oldm) {
                        PI as int
                    } else {
                        0int
                    })
                } else {
                    0int
                }) + (if hp {
                    -PI_4 as int
                } else if nz && !pim {
                    mid_q0.global_phase as int
                } else {
                    0int
                }) + (if q1a {
                    -PI_4 as int
                } else {
                    mid_q1a.global_phase as int
                }) + (if q1b {
                    -PI_4 as int
                } else {
                    mid_q1b.global_phase as int
                }) + end_q0.global_phase + end_q1.global_phase + (if sign_flip {
                    PI as int
                } else {
                    0int
                })
            }))
        }),
{
    let x12: i64 = eu0[1].phi + eu0[2].lam;
    let pim = pi_mult_flag(x12, atol);
    let oldm = odd_pi_mult_flag(x12, atol);
    let nz = crate::weyl::abs_i64(x12) > atol;
    let hp = crate::weyl::abs_i64(x12 - PI_2) <= atol;
    let q1a = crate::weyl::abs_i64(eu1[1].theta - PI_2) <= atol;
    let q1b = crate::weyl::abs_i64(eu1[2].theta - PI_2) <= atol;
    if pulse_mandatory && ((nz && !pim && !hp) || !q1a || !q1b) {
        return None;
    }
    let mut seq = TwoQubitGateSequence::new();
    let mut phase: i64 = (target_phase - 3 * basis_phase) % TWO_PI;
    if phase < 0 {
        phase = phase + TWO_PI;
    }
    proof {
        assert((target_phase - 3 * basis_phase) % (TWO_PI as int) == phase as int % (
        TWO_PI as int));
    }
    let base_mod: i64 = phase;
    proof {
        assert(base_mod as int == (target_phase - 3 * basis_phase) % (TWO_PI as int));
    }
    phase = phase + eu0[0].phase + eu0[1].phase + eu0[2].phase + eu0[3].phase;
    phase = phase + eu1[0].phase + eu1[1].phase + eu1[2].phase + eu1[3].phase;
    phase = phase + begin_q0.global_phase + begin_q1.global_phase;
    phase = phase + end_q0.global_phase + end_q1.global_phase;
    if sign_flip {
        phase = phase + PI;
    }
    append_1q(&mut seq, begin_q0, 0);
    let ghost s0 = seq.gates@;
    append_1q(&mut seq, begin_q1, 1);
    let ghost s1 = seq.gates@;
    seq.push(GateKind::Cx, vec![], vec![1u8, 0u8]);
    if pim {
        if nz {
            if oldm {
                phase = phase - PI;
            } else {
                phase = phase + PI;
            }
        }
        if nz && oldm {
            let p: i64 = -eu0[1].theta;
            seq.push(GateKind::Rz, vec![p], vec![0u8]);
        } else {
            let p: i64 = eu0[1].theta;
            seq.push(GateKind::Rz, vec![p], vec![0u8]);
            phase = phase + PI;
        }
    }
    let ghost s2 = seq.gates@;
    if hp {
        seq.push(GateKind::Sx, vec![], vec![0u8]);
        phase = phase - PI_4;
    } else if nz && !pim {
        append_1q(&mut seq, mid_q0, 0);
        phase = phase + mid_q0.global_phase;
    }
    let ghost s3 = seq.gates@;
    if q1a {
        seq.push(GateKind::Sx, vec![], vec![1u8]);
        phase = phase - PI_4;
    } else {
        append_1q(&mut seq, mid_q1a, 1);
        phase = phase + mid_q1a.global_phase;
    }
    let ghost s4 = seq.gates@;
    let p7: i64 = eu1[1].phi + eu1[2].lam;
    seq.push(GateKind::Rz, vec![p7], vec![1u8]);
    seq.push(GateKind::Cx, vec![], vec![1u8, 0u8]);
    let p9: i64 = eu0[2].theta;
    seq.push(GateKind::Rz, vec![p9], vec![0u8]);
    let ghost s5 = seq.gates@;
    if q1b {
        seq.push(GateKind::Sx, vec![], vec![1u8]);
        phase = phase - PI_4;
    } else {
        append_1q(&mut seq, mid_q1b, 1);
        phase = phase + mid_q1b.global_phase;
    }
    let ghost s6 = seq.gates@;
    seq.push(GateKind::Cx, vec![], vec![1u8, 0u8]);
    let ghost s7 = seq.gates@;
    append_1q(&mut seq, end_q0, 0);
    let ghost s8 = seq.gates@;
    append_1q(&mut seq, end_q1, 1);
    seq.global_phase = phase;
    proof {
        assert(forall|x: int| 0 <= x < s8.len() ==> #[trigger] seq.gates@[x] == s8[x]);
        assert(forall|x: int| 0 <= x < s7.len() ==> #[trigger] s8[x] == s7[x]);
        assert(forall|x: int| 0 <= x < s6.len() ==> #[trigger] s7[x] == s6[x]);
        assert(forall|x: int| 0 <= x < s5.len() ==> #[trigger] s6[x] == s5[x]);
        assert(forall|x: int| 0 <= x < s4.len() ==> #[trigger] s5[x] == s4[x]);
        assert(forall|x: int| 0 <= x < s3.len() ==> #[trigger] s4[x] == s3[x]);
        assert(forall|x: int| 0 <= x < s2.len() ==> #[trigger] s3[x] == s2[x]);
        assert(forall|x: int| 0 <= x < s1.len() ==> #[trigger] s2[x] == s1[x]);
        assert(forall|x: int| 0 <= x < s0.len() ==> #[trigger] s1[x] == s0[x]);
        assert(forall|x: int| 0 <= x < s7.len() ==> #[trigger] seq.gates@[x] == s7[x]);
        assert(forall|x: int| 0 <= x < s6.len() ==> #[trigger] seq.gates@[x] == s6[x]);
        assert(forall|x: int| 0 <= x < s5.len() ==> #[trigger] seq.gates@[x] == s5[x]);
        assert(forall|x: int| 0 <= x < s4.len() ==> #[trigger] seq.gates@[x] == s4[x]);
        assert(forall|x: int| 0 <= x < s3.len() ==> #[trigger] seq.gates@[x] == s3[x]);
        assert(forall|x: int| 0 <= x < s2.len() ==> #[trigger] seq.gates@[x] == s2[x]);
        assert(forall|x: int| 0 <= x < s1.len() ==> #[trigger] seq.gates@[x] == s1[x]);
        assert(forall|x: int| 0 <= x < s0.len() ==> #[trigger] seq.gates@[x] == s0[x]);
        assert(crate::controlled::seg_fwd(seq.gates@, *begin_q0, 0, 0u8));
        assert(crate::controlled::seg_fwd(seq.gates@, *begin_q1, s0.len() as int, 1u8));
        assert(!hp && nz && !pim ==> crate::controlled::seg_fwd(
            seq.gates@,
            *mid_q0,
            s2.len() as int,
            0u8,
        ));
        assert(!q1a ==> crate::controlled::seg_fwd(seq.gates@, *mid_q1a, s3.len() as int, 1u8));
        assert(!q1b ==> crate::controlled::seg_fwd(seq.gates@, *mid_q1b, s5.len() as int, 1u8));
        assert(crate::controlled::seg_fwd(seq.gates@, *end_q0, s7.len() as int, 0u8));
        assert(crate::controlled::seg_fwd(
            seq.gates@,
            *end_q1,
            s7.len() as int + end_q0.gates@.len(),
            1u8,
        ));
    }
    Some(seq)
}

} // verus!
