//! Synthesis from repeated applications of one user-supplied gate that
//! is locally equivalent to a two-body XX rotation.
//!
//! Each canonical coordinate contributes one scaled application of the
//! user gate, wrapped in fixed one-qubit changes of frame; the third
//! coordinate's sign is handled by appending the exact inverse of the
//! positive-angle sub-circuit. All composition is exact gate-list
//! concatenation.

use vstd::prelude::*;
use crate::chamber::abs_spec;
use crate::errors::SynthError;
use crate::sequence::{EulerBasis, Gate, GateKind, TwoQubitGateSequence, OneQubitSequence, gate_is,
    invert_1q_kind, invert_params, invert_1q_gate};
use crate::specialize::FID_ONE;
use crate::weyl::{PHASE_INPUT_LIMIT, TwoQubitWeylDecomposition, abs_i64, append_1q};

verus! {

/// A forward copy of a one-qubit layer stands at `start`, on `qubit`.
pub open spec fn seg_fwd(g: Seq<Gate>, one: OneQubitSequence, start: int, qubit: u8) -> bool {
    forall|t: int| 0 <= t < one.gates@.len() ==> gate_is(
        g[start + t],
        #[trigger] one.gates@[t].kind,
        one.gates@[t].params@,
        seq![qubit],
    )
}

/// The inverse of a one-qubit layer stands at `start`, on `qubit`: the
/// layer reversed, every operation inverted.
pub open spec fn seg_inv(g: Seq<Gate>, one: OneQubitSequence, start: int, qubit: u8) -> bool {
    forall|t: int| 0 <= t < one.gates@.len() ==> gate_is(
        g[start + t],
        invert_1q_kind(#[trigger] one.gates@[one.gates@.len() - 1 - t].kind),
        invert_params(
            one.gates@[one.gates@.len() - 1 - t].kind,
            one.gates@[one.gates@.len() - 1 - t].params@,
        ),
        seq![qubit],
    )
}

/// A one-qubit layer repeated on both qubits stands at `start`: each
/// operation first on qubit 0, then on qubit 1.
pub open spec fn seg_pair(g: Seq<Gate>, one: OneQubitSequence, start: int) -> bool {
    forall|t: int| 0 <= t < one.gates@.len() ==> gate_is(
        g[start + 2 * t],
        #[trigger] one.gates@[t].kind,
        one.gates@[t].params@,
        seq![0u8],
    ) && gate_is(
        g[start + 2 * t + 1],
        one.gates@[t].kind,
        one.gates@[t].params@,
        seq![1u8],
    )
}

/// A two-qubit sub-circuit stands unchanged at `start`.
pub open spec fn seg_copy(g: Seq<Gate>, src: Seq<Gate>, start: int) -> bool {
    forall|t: int| 0 <= t < src.len() ==> gate_is(
        g[start + t],
        #[trigger] src[t].kind,
        src[t].params@,
        src[t].qubits@,
    )
}

/// The exact inverse of a two-qubit sub-circuit stands at `start`: the
/// sub-circuit reversed, every operation inverted, qubits kept.
pub open spec fn seg_inv_2q(g: Seq<Gate>, src: Seq<Gate>, start: int) -> bool {
    forall|t: int| 0 <= t < src.len() ==> gate_is(
        g[start + t],
        invert_1q_kind(#[trigger] src[src.len() - 1 - t].kind),
        invert_params(src[src.len() - 1 - t].kind, src[src.len() - 1 - t].params@),
        src[src.len() - 1 - t].qubits@,
    )
}

/// Appends the inverse of a one-qubit layer: reversed order, each
/// operation inverted.
pub fn append_inv_1q(seq: &mut TwoQubitGateSequence, one: &OneQubitSequence, qubit: u8)
    requires
        forall|t: int, p: int| 0 <= t < one.gates@.len() && 0 <= p
            < one.gates@[t].params@.len() ==> -0x4000_0000_0000_0000
            < #[trigger] one.gates@[t].params@[p],
    ensures
        final(seq).gates@.len() == old(seq).gates@.len() + one.gates@.len(),
        forall|i: int| 0 <= i < old(seq).gates@.len() ==> #[trigger] final(seq).gates@[i]
            == old(seq).gates@[i],
        seg_inv(final(seq).gates@, *one, old(seq).gates@.len() as int, qubit),
        final(seq).global_phase == old(seq).global_phase,
{
    let n = one.gates.len();
    let mut i: usize = 0;
    while i < n
        invariant
            i <= n,
            n == one.gates@.len(),
            seq.gates@.len() == old(seq).gates@.len() + i,
            forall|j: int| 0 <= j < old(seq).gates@.len() ==> #[trigger] seq.gates@[j]
                == old(seq).gates@[j],
            forall|t: int| 0 <= t < i ==> gate_is(
                #[trigger] seq.gates@[old(seq).gates@.len() + t],
                invert_1q_kind(one.gates@[n - 1 - t].kind),
                invert_params(one.gates@[n - 1 - t].kind, one.gates@[n - 1 - t].params@),
                seq![qubit],
            ),
            seq.global_phase == old(seq).global_phase,
            forall|t: int, p: int| 0 <= t < one.gates@.len() && 0 <= p
                < one.gates@[t].params@.len() ==> -0x4000_0000_0000_0000
                < #[trigger] one.gates@[t].params@[p],
        decreases n - i,
    {
        let g = &one.gates[n - 1 - i];
        let (ikind, iparams) = invert_1q_gate(g.kind, &g.params);
        seq.push(ikind, iparams, vec![qubit]);
        i = i + 1;
    }
    proof {
        assert(seg_inv(seq.gates@, *one, old(seq).gates@.len() as int, qubit));
    }
}

/// Appends a one-qubit layer onto both qubits, each operation first on
/// qubit 0 and then on qubit 1; the phase grows by twice the layer's.
pub fn append_pair(seq: &mut TwoQubitGateSequence, one: &OneQubitSequence)
    requires
        -PHASE_INPUT_LIMIT <= one.global_phase <= PHASE_INPUT_LIMIT,
        -0x1000_0000_0000_0000 <= old(seq).global_phase <= 0x1000_0000_0000_0000,
    ensures
        final(seq).gates@.len() == old(seq).gates@.len() + 2 * one.gates@.len(),
        forall|i: int| 0 <= i < old(seq).gates@.len() ==> #[trigger] final(seq).gates@[i]
            == old(seq).gates@[i],
        seg_pair(final(seq).gates@, *one, old(seq).gates@.len() as int),
        final(seq).global_phase == old(seq).global_phase + 2 * one.global_phase,
{
    let n = one.gates.len();
    let mut i: usize = 0;
    while i < n
        invariant
            i <= n,
            n == one.gates@.len(),
            seq.gates@.len() == old(seq).gates@.len() + 2 * i,
            forall|j: int| 0 <= j < old(seq).gates@.len() ==> #[trigger] seq.gates@[j]
                == old(seq).gates@[j],
            forall|t: int| 0 <= t < i ==> gate_is(
                #[trigger] seq.gates@[old(seq).gates@.len() + 2 * t],
                one.gates@[t].kind,
                one.gates@[t].params@,
                seq![0u8],
            ) && gate_is(
                seq.gates@[old(seq).gates@.len() + 2 * t + 1],
                one.gates@[t].kind,
                one.gates@[t].params@,
                seq![1u8],
            ),
            seq.global_phase == old(seq).global_phase,
        decreases n - i,
    {
        let g = &one.gates[i];
        let p0 = g.params.clone();
        let p1 = g.params.clone();
        seq.push(g.kind, p0, vec![0u8]);
        seq.push(g.kind, p1, vec![1u8]);
        i = i + 1;
    }
    seq.global_phase = seq.global_phase + one.global_phase;
    seq.global_phase = seq.global_phase + one.global_phase;
    proof {
        assert(seg_pair(seq.gates@, *one, old(seq).gates@.len() as int));
    }
}

/// Appends a two-qubit sub-circuit unchanged; the phase is untouched.
pub fn append_copy(seq: &mut TwoQubitGateSequence, src: &TwoQubitGateSequence)
    ensures
        final(seq).gates@.len() == old(seq).gates@.len() + src.gates@.len(),
        forall|i: int| 0 <= i < old(seq).gates@.len() ==> #[trigger] final(seq).gates@[i]
            == old(seq).gates@[i],
        seg_copy(final(seq).gates@, src.gates@, old(seq).gates@.len() as int),
        final(seq).global_phase == old(seq).global_phase,
{
    let n = src.gates.len();
    let mut i: usize = 0;
    while i < n
        invariant
            i <= n,
            n == src.gates@.len(),
            seq.gates@.len() == old(seq).gates@.len() + i,
            forall|j: int| 0 <= j < old(seq).gates@.len() ==> #[trigger] seq.gates@[j]
                == old(seq).gates@[j],
            forall|t: int| 0 <= t < i ==> gate_is(
                #[trigger] seq.gates@[old(seq).gates@.len() + t],
                src.gates@[t].kind,
                src.gates@[t].params@,
                src.gates@[t].qubits@,
            ),
            seq.global_phase == old(seq).global_phase,
        decreases n - i,
    {
        let g = &src.gates[i];
        let params = g.params.clone();
        let qubits = g.qubits.clone();
        seq.push(g.kind, params, qubits);
        i = i + 1;
    }
    proof {
        assert(seg_copy(seq.gates@, src.gates@, old(seq).gates@.len() as int));
    }
}

/// Appends the exact inverse of a two-qubit sub-circuit: reversed, each
/// operation inverted, acting on its original qubits.
pub fn append_inv_2q(seq: &mut TwoQubitGateSequence, src: &TwoQubitGateSequence)
    requires
        forall|t: int, p: int| 0 <= t < src.gates@.len() && 0 <= p
            < src.gates@[t].params@.len() ==> -0x4000_0000_0000_0000
            < #[trigger] src.gates@[t].params@[p],
    ensures
        final(seq).gates@.len() == old(seq).gates@.len() + src.gates@.len(),
        forall|i: int| 0 <= i < old(seq).gates@.len() ==> #[trigger] final(seq).gates@[i]
            == old(seq).gates@[i],
        seg_inv_2q(final(seq).gates@, src.gates@, old(seq).gates@.len() as int),
        final(seq).global_phase == old(seq).global_phase,
{
    let n = src.gates.len();
    let mut i: usize = 0;
    while i < n
        invariant
            i <= n,
            n == src.gates@.len(),
            seq.gates@.len() == old(seq).gates@.len() + i,
            forall|j: int| 0 <= j < old(seq).gates@.len() ==> #[trigger] seq.gates@[j]
                == old(seq).gates@[j],
            forall|t: int| 0 <= t < i ==> gate_is(
                #[trigger] seq.gates@[old(seq).gates@.len() + t],
                invert_1q_kind(src.gates@[n - 1 - t].kind),
                invert_params(src.gates@[n - 1 - t].kind, src.gates@[n - 1 - t].params@),
                src.gates@[n - 1 - t].qubits@,
            ),
            seq.global_phase == old(seq).global_phase,
            forall|t: int, p: int| 0 <= t < src.gates@.len() && 0 <= p
                < src.gates@[t].params@.len() ==> -0x4000_0000_0000_0000
                < #[trigger] src.gates@[t].params@[p],
        decreases n - i,
    {
        let g = &src.gates[n - 1 - i];
        let (ikind, iparams) = invert_1q_gate(g.kind, &g.params);
        let qubits = g.qubits.clone();
        seq.push(ikind, iparams, qubits);
        i = i + 1;
    }
    proof {
        assert(seg_inv_2q(seq.gates@, src.gates@, old(seq).gates@.len() as int));
    }
}

/// The user gate's parameter for a requested rotation angle: the angle
/// multiplied by the synthesizer's scale, both in their fixed-point
/// units, with the quotient truncated toward zero.
pub open spec fn scaled_angle_spec(scale: int, angle: int) -> int {
    let p = scale * angle;
    let pa = if p >= 0 { p } else { -p };
    let q = pa / (FID_ONE as int);
    if p >= 0 {
        q
    } else {
        -q
    }
}

/// Multiplies an angle by the dimensionless scale factor.
pub fn scaled_angle(scale: i64, angle: i64) -> (r: i64)
    requires
        0 <= scale <= 4 * FID_ONE,
        -0x10_0000_0000 <= angle <= 0x10_0000_0000,
    ensures
        r == scaled_angle_spec(scale as int, angle as int),
        -0x40_0000_0000 <= r <= 0x40_0000_0000,
{
    proof {
        assert(-0x40_0000_0000i128 * 1000000000 <= (scale as i128) * (angle as i128)
            <= 0x40_0000_0000i128 * 1000000000) by (nonlinear_arith)
            requires
                0 <= scale as i128 <= 4000000000,
                -0x10_0000_0000 <= angle as i128 <= 0x10_0000_0000,
        ;
    }
    let p: i128 = (scale as i128) * (angle as i128);
    let pa: i128 = if p >= 0 { p } else { -p };
    let q: i128 = pa / 1000000000;
    if p >= 0 {
        q as i64
    } else {
        -(q as i64)
    }
}

/// How many applications of the user gate a target needs: one for each
/// canonical coordinate that is not within tolerance of zero.
pub fn num_basis_gates_inner(a: i64, b: i64, c: i64, atol: i64) -> (r: u8)
    requires
        -0x4000_0000_0000_0000 < a < 0x4000_0000_0000_0000,
        -0x4000_0000_0000_0000 < b < 0x4000_0000_0000_0000,
        -0x4000_0000_0000_0000 < c < 0x4000_0000_0000_0000,
        0 <= atol,
    ensures
        r as int == (if abs_spec(a as int) > atol { 1int } else { 0int }) + (if abs_spec(
            b as int,
        ) > atol {
            1int
        } else {
            0int
        }) + (if abs_spec(c as int) > atol {
            1int
        } else {
            0int
        }),
{
    let mut n: u8 = 0;
    if abs_i64(a) > atol {
        n = n + 1;
    }
    if abs_i64(b) > atol {
        n = n + 1;
    }
    if abs_i64(c) > atol {
        n = n + 1;
    }
    n
}

/// Checks that the user gate family is consistent with a single scaled
/// XX rotation: every probe must land within `atol` of the expected
/// angle, and all three probes must report the same scale to within
/// `scale_atol`. On success the common scale is returned.
pub fn check_rxx_equivalence(
    residual0: i64,
    residual1: i64,
    residual2: i64,
    scale0: i64,
    scale1: i64,
    scale2: i64,
    atol: i64,
    scale_atol: i64,
) -> (r: Result<i64, SynthError>)
    requires
        0 <= residual0,
        0 <= residual1,
        0 <= residual2,
        0 <= atol,
        0 <= scale_atol,
        -0x4000_0000_0000_0000 < scale0 - scale1 < 0x4000_0000_0000_0000,
        -0x4000_0000_0000_0000 < scale0 - scale2 < 0x4000_0000_0000_0000,
    ensures
        r is Ok <==> (residual0 <= atol && residual1 <= atol && residual2 <= atol && abs_spec(
            scale1 - scale0,
        ) <= scale_atol && abs_spec(scale2 - scale0) <= scale_atol),
        r is Ok ==> r->Ok_0 == scale0,
        r is Err ==> r->Err_0 == SynthError::GateEquivalenceCheckFailure,
{
    if residual0 > atol || residual1 > atol || residual2 > atol {
        return Err(SynthError::GateEquivalenceCheckFailure);
    }
    let d1 = abs_i64(scale1 - scale0);
    let d2 = abs_i64(scale2 - scale0);
    if d1 > scale_atol || d2 > scale_atol {
        return Err(SynthError::GateEquivalenceCheckFailure);
    }
    Ok(scale0)
}

impl TwoQubitControlledUDecomposer {
    /// Builds the synthesizer once the three probes of the user gate
    /// family have been canonicalized: construction succeeds only when
    /// `check_rxx_equivalence` accepts the probes, and the common scale
    /// becomes the synthesizer's.
    pub fn new_inner(
        rxx_gate: GateKind,
        euler_basis: EulerBasis,
        residual0: i64,
        residual1: i64,
        residual2: i64,
        scale0: i64,
        scale1: i64,
        scale2: i64,
        atol: i64,
        scale_atol: i64,
    ) -> (r: Result<TwoQubitControlledUDecomposer, SynthError>)
        requires
            0 <= residual0,
            0 <= residual1,
            0 <= residual2,
            0 <= atol,
            0 <= scale_atol,
            -0x4000_0000_0000_0000 < scale0 - scale1 < 0x4000_0000_0000_0000,
            -0x4000_0000_0000_0000 < scale0 - scale2 < 0x4000_0000_0000_0000,
        ensures
            r is Ok <==> (residual0 <= atol && residual1 <= atol && residual2 <= atol
                && abs_spec(scale1 - scale0) <= scale_atol && abs_spec(scale2 - scale0)
                <= scale_atol),
            r is Ok ==> ({
                let d = r->Ok_0;
                d.rxx_gate == rxx_gate && d.euler_basis == euler_basis && d.scale == scale0
            }),
            r is Err ==> r->Err_0 == SynthError::GateEquivalenceCheckFailure,
    {
        match check_rxx_equivalence(
            residual0,
            residual1,
            residual2,
            scale0,
            scale1,
            scale2,
            atol,
            scale_atol,
        ) {
            Err(e) => Err(e),
            Ok(scale) => Ok(TwoQubitControlledUDecomposer { rxx_gate, euler_basis, scale }),
        }
    }
}

/// Synthesis from a user gate locally equivalent to an XX rotation:
/// its kind, the rotation basis handed to the external one-qubit
/// decomposer, and the scale relating its parameter to the
/// rotation angle, fixed at construction.
#[derive(Clone, Copy, Debug)]
pub struct TwoQubitControlledUDecomposer {
    pub rxx_gate: GateKind,
    pub euler_basis: EulerBasis,
    pub scale: i64,
}

/// What the numerical front end computed for one scaled application of
/// the user gate: the canonical decomposition's phase and the Euler
/// decompositions of its four one-qubit factors.
pub struct RxxFactors {
    pub phase: i64,
    pub k1r: OneQubitSequence,
    pub k1l: OneQubitSequence,
    pub k2r: OneQubitSequence,
    pub k2l: OneQubitSequence,
}

/// Every parameter in a layer is small enough to negate.
pub open spec fn params_ok_1q(one: OneQubitSequence) -> bool {
    forall|t: int, p: int| 0 <= t < one.gates@.len() && 0 <= p
        < one.gates@[t].params@.len() ==> -0x4000_0000_0000_0000
        < #[trigger] one.gates@[t].params@[p]
}

impl TwoQubitControlledUDecomposer {
    /// The circuit equivalent to an XX rotation by `angle`, built from
    /// one application of the user gate at its scaled parameter: the
    /// inverses of the K2 factors, one application of it, then the inverses of
    /// the K1 factors; the phase is the negated sum of every part's.
    pub fn to_rxx_gate(&self, angle_param: i64, d: &RxxFactors) -> (r: TwoQubitGateSequence)
        requires
            params_ok_1q(d.k1r),
            params_ok_1q(d.k1l),
            params_ok_1q(d.k2r),
            params_ok_1q(d.k2l),
            -PHASE_INPUT_LIMIT <= d.phase <= PHASE_INPUT_LIMIT,
            -PHASE_INPUT_LIMIT <= d.k1r.global_phase <= PHASE_INPUT_LIMIT,
            -PHASE_INPUT_LIMIT <= d.k1l.global_phase <= PHASE_INPUT_LIMIT,
            -PHASE_INPUT_LIMIT <= d.k2r.global_phase <= PHASE_INPUT_LIMIT,
            -PHASE_INPUT_LIMIT <= d.k2l.global_phase <= PHASE_INPUT_LIMIT,
        ensures
            ({
                let n2r = d.k2r.gates@.len() as int;
                let n2l = n2r + d.k2l.gates@.len();
                let n1r = n2l + 1 + d.k1r.gates@.len();
                &&& r.gates@.len() == n1r + d.k1l.gates@.len()
                &&& seg_inv(r.gates@, d.k2r, 0, 0u8)
                &&& seg_inv(r.gates@, d.k2l, n2r, 1u8)
                &&& gate_is(r.gates@[n2l], self.rxx_gate, seq![angle_param], seq![0u8, 1u8])
                &&& seg_inv(r.gates@, d.k1r, n2l + 1, 0u8)
                &&& seg_inv(r.gates@, d.k1l, n1r, 1u8)
                &&& r.global_phase == -d.phase - d.k2r.global_phase - d.k2l.global_phase
                    - d.k1r.global_phase - d.k1l.global_phase
            }),
    {
        let mut seq = TwoQubitGateSequence::new();
        seq.global_phase = -d.phase;
        seq.global_phase = seq.global_phase - d.k2r.global_phase;
        seq.global_phase = seq.global_phase - d.k2l.global_phase;
        seq.global_phase = seq.global_phase - d.k1r.global_phase;
        seq.global_phase = seq.global_phase - d.k1l.global_phase;
        append_inv_1q(&mut seq, &d.k2r, 0);
        let ghost s1 = seq.gates@;
        append_inv_1q(&mut seq, &d.k2l, 1);
        let ghost s2 = seq.gates@;
        seq.push(self.rxx_gate, vec![angle_param], vec![0u8, 1u8]);
        let ghost s3 = seq.gates@;
        append_inv_1q(&mut seq, &d.k1r, 0);
        let ghost s4 = seq.gates@;
        append_inv_1q(&mut seq, &d.k1l, 1);
        proof {
            assert(forall|x: int| 0 <= x < s4.len() ==> #[trigger] seq.gates@[x] == s4[x]);
            assert(forall|x: int| 0 <= x < s3.len() ==> #[trigger] s4[x] == s3[x]);
            assert(forall|x: int| 0 <= x < s2.len() ==> #[trigger] s3[x] == s2[x]);
            assert(forall|x: int| 0 <= x < s1.len() ==> #[trigger] s2[x] == s1[x]);
            assert(seg_inv(seq.gates@, d.k2r, 0, 0u8));
            assert(seg_inv(seq.gates@, d.k2l, d.k2r.gates@.len() as int, 1u8));
            assert(seg_inv(seq.gates@, d.k1r, d.k2r.gates@.len() as int + d.k2l.gates@.len() + 1, 0u8));
        }
        seq
    }
}

/// Phase bound for composed sub-circuits.
pub const SUB_PHASE_LIMIT: i64 = 8796093022208;

impl TwoQubitControlledUDecomposer {
    /// Appends the canonical interaction to `circ` in terms of the user
    /// gate: the XX sub-circuit for the first coordinate; for the second,
    /// the same construction conjugated by S gates on both qubits; for
    /// the third, conjugated by Hadamards, appending the sub-circuit
    /// itself when the coordinate is nonnegative and its exact inverse
    /// when it is negative. The sequence's phase is replaced by the sum
    /// of the parts' phases alone.
    #[verifier::rlimit(100)]
    pub fn weyl_gate(
        &self,
        circ: &mut TwoQubitGateSequence,
        circ_a: &TwoQubitGateSequence,
        circ_b: &TwoQubitGateSequence,
        circ_c: &TwoQubitGateSequence,
        sdg: &OneQubitSequence,
        s: &OneQubitSequence,
        h: &OneQubitSequence,
        b: i64,
        c: i64,
        atol: i64,
    )
        requires
            0 <= atol,
            -0x4000_0000_0000_0000 < b < 0x4000_0000_0000_0000,
            -0x4000_0000_0000_0000 < c < 0x4000_0000_0000_0000,
            -SUB_PHASE_LIMIT <= circ_a.global_phase <= SUB_PHASE_LIMIT,
            -SUB_PHASE_LIMIT <= circ_b.global_phase <= SUB_PHASE_LIMIT,
            -SUB_PHASE_LIMIT <= circ_c.global_phase <= SUB_PHASE_LIMIT,
            -PHASE_INPUT_LIMIT <= sdg.global_phase <= PHASE_INPUT_LIMIT,
            -PHASE_INPUT_LIMIT <= s.global_phase <= PHASE_INPUT_LIMIT,
            -PHASE_INPUT_LIMIT <= h.global_phase <= PHASE_INPUT_LIMIT,
            forall|t: int, p: int| 0 <= t < circ_c.gates@.len() && 0 <= p
                < circ_c.gates@[t].params@.len() ==> -0x4000_0000_0000_0000
                < #[trigger] circ_c.gates@[t].params@[p],
        ensures
            forall|i: int| 0 <= i < old(circ).gates@.len() ==> #[trigger] final(circ).gates@[i]
                == old(circ).gates@[i],
            ({
                let eb = abs_spec(b as int) > atol;
                let ec = abs_spec(c as int) > atol;
                let g = final(circ).gates@;
                let ofs0 = old(circ).gates@.len() as int;
                let ofs1 = ofs0 + circ_a.gates@.len();
                let ofs2 = ofs1 + (if eb {
                    2 * sdg.gates@.len() as int + circ_b.gates@.len() + 2 * s.gates@.len()
                } else {
                    0int
                });
                let ofs3 = ofs2 + (if ec {
                    4 * h.gates@.len() as int + circ_c.gates@.len()
                } else {
                    0int
                });
                &&& g.len() == ofs3
                &&& seg_copy(g, circ_a.gates@, ofs0)
                &&& (eb ==> seg_pair(g, *sdg, ofs1) && seg_copy(
                    g,
                    circ_b.gates@,
                    ofs1 + 2 * sdg.gates@.len(),
                ) && seg_pair(g, *s, ofs1 + 2 * sdg.gates@.len() + circ_b.gates@.len()))
                &&& (ec ==> seg_pair(g, *h, ofs2) && (c >= 0 ==> seg_copy(
                    g,
                    circ_c.gates@,
                    ofs2 + 2 * h.gates@.len(),
                )) && (c < 0 ==> seg_inv_2q(g, circ_c.gates@, ofs2 + 2 * h.gates@.len()))
                    && seg_pair(g, *h, ofs2 + 2 * h.gates@.len() + circ_c.gates@.len()))
                &&& final(circ).global_phase == circ_a.global_phase + (if eb {
                    circ_b.global_phase + 2 * sdg.global_phase + 2 * s.global_phase
                } else {
                    0int
                }) + (if ec {
                    (if c >= 0 {
                        circ_c.global_phase as int
                    } else {
                        -circ_c.global_phase as int
                    }) + 4 * h.global_phase
                } else {
                    0int
                })
            }),
    {
        let mut phase: i64 = circ_a.global_phase;
        append_copy(circ, circ_a);
        let ghost sa = circ.gates@;
        if abs_i64(b) > atol {
            phase = phase + circ_b.global_phase;
            circ.global_phase = 0;
            append_pair(circ, sdg);
            phase = phase + circ.global_phase;
            let ghost sd1 = circ.gates@;
            append_copy(circ, circ_b);
            let ghost sd2 = circ.gates@;
            circ.global_phase = 0;
            append_pair(circ, s);
            phase = phase + circ.global_phase;
            proof {
                assert(forall|x: int| 0 <= x < sd2.len() ==> #[trigger] circ.gates@[x]
                    == sd2[x]);
                assert(forall|x: int| 0 <= x < sd1.len() ==> #[trigger] circ.gates@[x]
                    == sd1[x]);
                assert(seg_pair(circ.gates@, *sdg, sa.len() as int));
                assert(seg_copy(circ.gates@, circ_b.gates@, sa.len() as int + 2 * sdg.gates@.len()));
                assert(seg_pair(
                    circ.gates@,
                    *s,
                    sa.len() as int + 2 * sdg.gates@.len() + circ_b.gates@.len(),
                ));
            }
        }
        let ghost sb = circ.gates@;
        proof {
            assert(forall|x: int| 0 <= x < sa.len() ==> #[trigger] sb[x] == sa[x]);
        }
        if abs_i64(c) > atol {
            circ.global_phase = 0;
            append_pair(circ, h);
            phase = phase + circ.global_phase;
            let ghost sh1 = circ.gates@;
            if c >= 0 {
                phase = phase + circ_c.global_phase;
                append_copy(circ, circ_c);
            } else {
                phase = phase - circ_c.global_phase;
                append_inv_2q(circ, circ_c);
            }
            let ghost sc1 = circ.gates@;
            circ.global_phase = 0;
            append_pair(circ, h);
            phase = phase + circ.global_phase;
            proof {
                assert(forall|x: int| 0 <= x < sc1.len() ==> #[trigger] circ.gates@[x]
                    == sc1[x]);
                assert(forall|x: int| 0 <= x < sh1.len() ==> #[trigger] circ.gates@[x]
                    == sh1[x]);
                assert(seg_pair(circ.gates@, *h, sb.len() as int));
                assert(c >= 0 ==> seg_copy(
                    circ.gates@,
                    circ_c.gates@,
                    sb.len() as int + 2 * h.gates@.len(),
                ));
                assert(c < 0 ==> seg_inv_2q(
                    circ.gates@,
                    circ_c.gates@,
                    sb.len() as int + 2 * h.gates@.len(),
                ));
                assert(seg_pair(
                    circ.gates@,
                    *h,
                    sb.len() as int + 2 * h.gates@.len() + circ_c.gates@.len(),
                ));
            }
        }
        circ.global_phase = phase;
        proof {
            assert(forall|x: int| 0 <= x < sb.len() ==> #[trigger] circ.gates@[x] == sb[x]);
            assert(forall|x: int| 0 <= x < sa.len() ==> #[trigger] circ.gates@[x] == sa[x]);
            let eb = abs_spec(b as int) > atol;
            let ec = abs_spec(c as int) > atol;
            let ofs0 = old(circ).gates@.len() as int;
            let ofs1 = ofs0 + circ_a.gates@.len();
            let ofs2 = ofs1 + (if eb {
                2 * sdg.gates@.len() as int + circ_b.gates@.len() + 2 * s.gates@.len()
            } else {
                0int
            });
            assert(seg_copy(circ.gates@, circ_a.gates@, ofs0));
            assert(eb ==> seg_pair(circ.gates@, *sdg, ofs1));
            assert(eb ==> seg_copy(circ.gates@, circ_b.gates@, ofs1 + 2 * sdg.gates@.len()));
            assert(eb ==> seg_pair(
                circ.gates@,
                *s,
                ofs1 + 2 * sdg.gates@.len() + circ_b.gates@.len(),
            ));
            assert(ec ==> seg_pair(circ.gates@, *h, ofs2));
            assert(ec && c >= 0 ==> seg_copy(
                circ.gates@,
                circ_c.gates@,
                ofs2 + 2 * h.gates@.len(),
            ));
            assert(ec && c < 0 ==> seg_inv_2q(
                circ.gates@,
                circ_c.gates@,
                ofs2 + 2 * h.gates@.len(),
            ));
            assert(ec ==> seg_pair(
                circ.gates@,
                *h,
                ofs2 + 2 * h.gates@.len() + circ_c.gates@.len(),
            ));
        }
    }

    /// The full synthesis: the Euler decompositions of the target's K2
    /// factors, the canonical interaction in terms of the user gate, and
    /// the decompositions of the K1 factors, with every phase collected.
    #[verifier::rlimit(100)]
    pub fn call_inner(
        &self,
        target: &TwoQubitWeylDecomposition,
        c1r: &OneQubitSequence,
        c1l: &OneQubitSequence,
        c2r: &OneQubitSequence,
        c2l: &OneQubitSequence,
        circ_a: &TwoQubitGateSequence,
        circ_b: &TwoQubitGateSequence,
        circ_c: &TwoQubitGateSequence,
        sdg: &OneQubitSequence,
        s: &OneQubitSequence,
        h: &OneQubitSequence,
        atol: i64,
    ) -> (r: TwoQubitGateSequence)
        requires
            0 <= atol,
            -0x4000_0000_0000_0000 < target.b < 0x4000_0000_0000_0000,
            -0x4000_0000_0000_0000 < target.c < 0x4000_0000_0000_0000,
            -PHASE_INPUT_LIMIT <= target.global_phase <= PHASE_INPUT_LIMIT,
            -SUB_PHASE_LIMIT <= circ_a.global_phase <= SUB_PHASE_LIMIT,
            -SUB_PHASE_LIMIT <= circ_b.global_phase <= SUB_PHASE_LIMIT,
            -SUB_PHASE_LIMIT <= circ_c.global_phase <= SUB_PHASE_LIMIT,
            -PHASE_INPUT_LIMIT <= sdg.global_phase <= PHASE_INPUT_LIMIT,
            -PHASE_INPUT_LIMIT <= s.global_phase <= PHASE_INPUT_LIMIT,
            -PHASE_INPUT_LIMIT <= h.global_phase <= PHASE_INPUT_LIMIT,
            -PHASE_INPUT_LIMIT <= c1r.global_phase <= PHASE_INPUT_LIMIT,
            -PHASE_INPUT_LIMIT <= c1l.global_phase <= PHASE_INPUT_LIMIT,
            -PHASE_INPUT_LIMIT <= c2r.global_phase <= PHASE_INPUT_LIMIT,
            -PHASE_INPUT_LIMIT <= c2l.global_phase <= PHASE_INPUT_LIMIT,
            forall|t: int, p: int| 0 <= t < circ_c.gates@.len() && 0 <= p
                < circ_c.gates@[t].params@.len() ==> -0x4000_0000_0000_0000
                < #[trigger] circ_c.gates@[t].params@[p],
        ensures
            ({
                let eb = abs_spec(target.b as int) > atol;
                let ec = abs_spec(target.c as int) > atol;
                let g = r.gates@;
                let ofs0 = c2r.gates@.len() as int + c2l.gates@.len();
                let ofs1 = ofs0 + circ_a.gates@.len();
                let ofs2 = ofs1 + (if eb {
                    2 * sdg.gates@.len() as int + circ_b.gates@.len() + 2 * s.gates@.len()
                } else {
                    0int
                });
                let ofs3 = ofs2 + (if ec {
                    4 * h.gates@.len() as int + circ_c.gates@.len()
                } else {
                    0int
                });
                let weyl_phase = circ_a.global_phase + (if eb {
                    circ_b.global_phase + 2 * sdg.global_phase + 2 * s.global_phase
                } else {
                    0int
                }) + (if ec {
                    (if target.c >= 0 {
                        circ_c.global_phase as int
                    } else {
                        -circ_c.global_phase as int
                    }) + 4 * h.global_phase
                } else {
                    0int
                });
                &&& g.len() == ofs3 + c1r.gates@.len() + c1l.gates@.len()
                &&& seg_fwd(g, *c2r, 0, 0u8)
                &&& seg_fwd(g, *c2l, c2r.gates@.len() as int, 1u8)
                &&& seg_copy(g, circ_a.gates@, ofs0)
                &&& (eb ==> seg_pair(g, *sdg, ofs1) && seg_copy(
                    g,
                    circ_b.gates@,
                    ofs1 + 2 * sdg.gates@.len(),
                ) && seg_pair(g, *s, ofs1 + 2 * sdg.gates@.len() + circ_b.gates@.len()))
                &&& (ec ==> seg_pair(g, *h, ofs2) && (target.c >= 0 ==> seg_copy(
                    g,
                    circ_c.gates@,
                    ofs2 + 2 * h.gates@.len(),
                )) && (target.c < 0 ==> seg_inv_2q(g, circ_c.gates@, ofs2 + 2 * h.gates@.len()))
                    && seg_pair(g, *h, ofs2 + 2 * h.gates@.len() + circ_c.gates@.len()))
                &&& seg_fwd(g, *c1r, ofs3, 0u8)
                &&& seg_fwd(g, *c1l, ofs3 + c1r.gates@.len(), 1u8)
                &&& r.global_phase == target.global_phase + c2r.global_phase
                    + c2l.global_phase + weyl_phase + c1r.global_phase + c1l.global_phase
            }),
    {
        let mut seq = TwoQubitGateSequence::new();
        seq.global_phase = target.global_phase;
        append_1q(&mut seq, c2r, 0);
        seq.global_phase = seq.global_phase + c2r.global_phase;
        append_1q(&mut seq, c2l, 1);
        seq.global_phase = seq.global_phase + c2l.global_phase;
        let pre_phase: i64 = seq.global_phase;
        let ghost s0 = seq.gates@;
        self.weyl_gate(
            &mut seq,
            circ_a,
            circ_b,
            circ_c,
            sdg,
            s,
            h,
            target.b,
            target.c,
            atol,
        );
        seq.global_phase = pre_phase + seq.global_phase;
        let ghost s1 = seq.gates@;
        append_1q(&mut seq, c1r, 0);
        seq.global_phase = seq.global_phase + c1r.global_phase;
        let ghost s2 = seq.gates@;
        append_1q(&mut seq, c1l, 1);
        seq.global_phase = seq.global_phase + c1l.global_phase;
        proof {
            assert(forall|x: int| 0 <= x < s2.len() ==> #[trigger] seq.gates@[x] == s2[x]);
            assert(forall|x: int| 0 <= x < s1.len() ==> #[trigger] s2[x] == s1[x]);
            assert(forall|x: int| 0 <= x < s0.len() ==> #[trigger] s1[x] == s0[x]);
            assert(forall|x: int| 0 <= x < s1.len() ==> #[trigger] seq.gates@[x] == s1[x]);
            assert(forall|x: int| 0 <= x < s0.len() ==> #[trigger] seq.gates@[x] == s0[x]);
            let eb = abs_spec(target.b as int) > atol;
            let ec = abs_spec(target.c as int) > atol;
            let ofs0 = c2r.gates@.len() as int + c2l.gates@.len();
            let ofs1 = ofs0 + circ_a.gates@.len();
            let ofs2 = ofs1 + (if eb {
                2 * sdg.gates@.len() as int + circ_b.gates@.len() + 2 * s.gates@.len()
            } else {
                0int
            });
            let ofs3 = ofs2 + (if ec {
                4 * h.gates@.len() as int + circ_c.gates@.len()
            } else {
                0int
            });
            assert(seg_fwd(seq.gates@, *c2r, 0, 0u8));
            assert(seg_fwd(seq.gates@, *c2l, c2r.gates@.len() as int, 1u8));
            assert(seg_copy(seq.gates@, circ_a.gates@, ofs0));
            assert(eb ==> seg_pair(seq.gates@, *sdg, ofs1));
            assert(eb ==> seg_copy(seq.gates@, circ_b.gates@, ofs1 + 2 * sdg.gates@.len()));
            assert(eb ==> seg_pair(
                seq.gates@,
                *s,
                ofs1 + 2 * sdg.gates@.len() + circ_b.gates@.len(),
            ));
            assert(ec ==> seg_pair(seq.gates@, *h, ofs2));
            assert(ec && target.c >= 0 ==> seg_copy(
                seq.gates@,
                circ_c.gates@,
                ofs2 + 2 * h.gates@.len(),
            ));
            assert(ec && target.c < 0 ==> seg_inv_2q(
                seq.gates@,
                circ_c.gates@,
                ofs2 + 2 * h.gates@.len(),
            ));
            assert(ec ==> seg_pair(
                seq.gates@,
                *h,
                ofs2 + 2 * h.gates@.len() + circ_c.gates@.len(),
            ));
            assert(seg_fwd(seq.gates@, *c1r, ofs3, 0u8));
            assert(seg_fwd(seq.gates@, *c1l, ofs3 + c1r.gates@.len(), 1u8));
        }
        seq
    }
}

} // verus!
