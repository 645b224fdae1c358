//! The canonical decomposition record and its circuit form.
//!
//! A record holds the canonical coordinates, the accumulated global
//! phase, the specialization tag and the fidelities. The four one-qubit
//! factor matrices live with the numerical front end; their Euler
//! decompositions are handed in when the record is turned into a circuit.

use vstd::prelude::*;
use crate::angles::PI_4;
use crate::sequence::{EulerBasis, GateKind, TwoQubitGateSequence, OneQubitSequence, gate_is};
use crate::specialize::Specialization;
use crate::chamber::abs_spec;
use crate::errors::SynthError;

verus! {

/// Coordinates handed to gate emission stay below this bound, and phases
/// below its square; both leave ample room in an i64.
pub const COORD_LIMIT: i64 = 34359738368;

/// Phase accumulators stay below this bound.
pub const PHASE_LIMIT: i64 = 17592186044416;

/// Each phase contribution handed in from outside stays below this
/// bound, so that a handful of them still fits under `PHASE_LIMIT`.
pub const PHASE_INPUT_LIMIT: i64 = 1099511627776;

/// The canonical decomposition: K1 . U_d(a, b, c) . K2 up to global
/// phase, with the one-qubit factors kept by the numerical front end.
#[derive(Clone, Copy, Debug)]
pub struct TwoQubitWeylDecomposition {
    pub a: i64,
    pub b: i64,
    pub c: i64,
    pub global_phase: i64,
    pub specialization: Specialization,
    pub default_euler_basis: EulerBasis,
    pub requested_fidelity: Option<i64>,
    pub calculated_fidelity: i64,
}

/// Which of the three interaction rotations are emitted for a
/// non-swap-like record: all of them, unless simplification is on and
/// the coordinate is within tolerance of zero.
pub open spec fn emits(x: int, simplify: bool, atol: int) -> bool {
    !simplify || abs_spec(x) > atol
}

impl TwoQubitWeylDecomposition {
    /// First canonical coordinate.
    pub fn a(&self) -> (r: i64)
        ensures
            r == self.a,
    {
        self.a
    }

    /// Second canonical coordinate.
    pub fn b(&self) -> (r: i64)
        ensures
            r == self.b,
    {
        self.b
    }

    /// Third canonical coordinate.
    pub fn c(&self) -> (r: i64)
        ensures
            r == self.c,
    {
        self.c
    }

    /// Appends the canonical interaction U_d(a, b, c) to a sequence.
    /// Swap-like specializations emit a literal swap; the mirrored
    /// controlled family follows it with one ZZ rotation; every other
    /// record emits the three two-body rotations, each skippable when
    /// simplification is on and its coordinate is within tolerance.
    pub fn weyl_gate(&self, simplify: bool, seq: &mut TwoQubitGateSequence, atol: i64)
        requires
            -COORD_LIMIT <= self.a <= COORD_LIMIT,
            -COORD_LIMIT <= self.b <= COORD_LIMIT,
            -COORD_LIMIT <= self.c <= COORD_LIMIT,
            0 <= atol,
            -PHASE_LIMIT <= old(seq).global_phase <= PHASE_LIMIT,
        ensures
            forall|i: int| 0 <= i < old(seq).gates@.len() ==> #[trigger] final(seq).gates@[i]
                == old(seq).gates@[i],
            self.specialization == Specialization::MirrorControlledEquiv ==> ({
                &&& final(seq).gates@.len() == old(seq).gates@.len() + 2
                &&& gate_is(final(seq).gates@[old(seq).gates@.len() as int], GateKind::Swap,
                    seq![], seq![0u8, 1u8])
                &&& gate_is(final(seq).gates@[old(seq).gates@.len() as int + 1], GateKind::Rzz,
                    seq![((PI_4 - self.c) * 2) as i64], seq![0u8, 1u8])
                &&& final(seq).global_phase == old(seq).global_phase + PI_4
            }),
            self.specialization == Specialization::SwapEquiv ==> ({
                &&& final(seq).gates@.len() == old(seq).gates@.len() + 1
                &&& gate_is(final(seq).gates@[old(seq).gates@.len() as int], GateKind::Swap,
                    seq![], seq![0u8, 1u8])
                &&& final(seq).global_phase == old(seq).global_phase - 3 * PI_4
            }),
            (self.specialization != Specialization::MirrorControlledEquiv
                && self.specialization != Specialization::SwapEquiv) ==> ({
                let ea = emits(self.a as int, simplify, atol as int);
                let eb = emits(self.b as int, simplify, atol as int);
                let ec = emits(self.c as int, simplify, atol as int);
                let na = old(seq).gates@.len() as int;
                let nb = na + (if ea { 1int } else { 0int });
                let nc = nb + (if eb { 1int } else { 0int });
                &&& final(seq).gates@.len() == nc + (if ec { 1int } else { 0int })
                &&& (ea ==> gate_is(final(seq).gates@[na], GateKind::Rxx,
                    seq![(-2 * self.a) as i64], seq![0u8, 1u8]))
                &&& (eb ==> gate_is(final(seq).gates@[nb], GateKind::Ryy,
                    seq![(-2 * self.b) as i64], seq![0u8, 1u8]))
                &&& (ec ==> gate_is(final(seq).gates@[nc], GateKind::Rzz,
                    seq![(-2 * self.c) as i64], seq![0u8, 1u8]))
                &&& final(seq).global_phase == old(seq).global_phase
            }),
    {
        match self.specialization {
            Specialization::MirrorControlledEquiv => {
                seq.push(GateKind::Swap, vec![], vec![0u8, 1u8]);
                let p: i64 = (PI_4 - self.c) * 2;
                seq.push(GateKind::Rzz, vec![p], vec![0u8, 1u8]);
                seq.global_phase = seq.global_phase + PI_4;
            },
            Specialization::SwapEquiv => {
                seq.push(GateKind::Swap, vec![], vec![0u8, 1u8]);
                seq.global_phase = seq.global_phase - 3 * PI_4;
            },
            _ => {
                if !simplify || abs_i64(self.a) > atol {
                    let p: i64 = -2 * self.a;
                    seq.push(GateKind::Rxx, vec![p], vec![0u8, 1u8]);
                }
                if !simplify || abs_i64(self.b) > atol {
                    let p: i64 = -2 * self.b;
                    seq.push(GateKind::Ryy, vec![p], vec![0u8, 1u8]);
                }
                if !simplify || abs_i64(self.c) > atol {
                    let p: i64 = -2 * self.c;
                    seq.push(GateKind::Rzz, vec![p], vec![0u8, 1u8]);
                }
            },
        }
    }

    /// The circuit form of the record: the Euler decompositions of K2r
    /// and K2l (as the external one-qubit decomposer reported them), the
    /// canonical interaction exactly as `weyl_gate` emits it, then the
    /// decompositions of K1r and K1l. The global phase collects the
    /// record's phase, all four layers' phases, and the interaction's
    /// own contribution, so the circuit reproduces the unitary exactly.
    #[verifier::rlimit(100)]
    pub fn circuit(
        &self,
        c2r: &OneQubitSequence,
        c2l: &OneQubitSequence,
        c1r: &OneQubitSequence,
        c1l: &OneQubitSequence,
        simplify: bool,
        atol: i64,
    ) -> (r: TwoQubitGateSequence)
        requires
            -COORD_LIMIT <= self.a <= COORD_LIMIT,
            -COORD_LIMIT <= self.b <= COORD_LIMIT,
            -COORD_LIMIT <= self.c <= COORD_LIMIT,
            0 <= atol,
            -PHASE_INPUT_LIMIT <= self.global_phase <= PHASE_INPUT_LIMIT,
            -PHASE_INPUT_LIMIT <= c2r.global_phase <= PHASE_INPUT_LIMIT,
            -PHASE_INPUT_LIMIT <= c2l.global_phase <= PHASE_INPUT_LIMIT,
            -PHASE_INPUT_LIMIT <= c1r.global_phase <= PHASE_INPUT_LIMIT,
            -PHASE_INPUT_LIMIT <= c1l.global_phase <= PHASE_INPUT_LIMIT,
        ensures
            ({
                let n0 = c2r.gates@.len() as int;
                let n1 = n0 + c2l.gates@.len();
                let mc = self.specialization == Specialization::MirrorControlledEquiv;
                let sw = self.specialization == Specialization::SwapEquiv;
                let ea = emits(self.a as int, simplify, atol as int);
                let eb = emits(self.b as int, simplify, atol as int);
                let ec = emits(self.c as int, simplify, atol as int);
                let wlen = if mc {
                    2int
                } else if sw {
                    1int
                } else {
                    (if ea { 1int } else { 0int }) + (if eb { 1int } else { 0int }) + (if ec {
                        1int
                    } else {
                        0int
                    })
                };
                let n2 = n1 + wlen;
                &&& r.gates@.len() == n2 + c1r.gates@.len() + c1l.gates@.len()
                &&& forall|i: int| 0 <= i < c2r.gates@.len() ==> gate_is(#[trigger] r.gates@[i],
                    c2r.gates@[i].kind, c2r.gates@[i].params@, seq![0u8])
                &&& forall|i: int| 0 <= i < c2l.gates@.len() ==> gate_is(#[trigger] r.gates@[n0
                    + i], c2l.gates@[i].kind, c2l.gates@[i].params@, seq![1u8])
                &&& (mc ==> gate_is(r.gates@[n1], GateKind::Swap, seq![], seq![0u8, 1u8])
                    && gate_is(r.gates@[n1 + 1], GateKind::Rzz,
                    seq![((PI_4 - self.c) * 2) as i64], seq![0u8, 1u8]))
                &&& (sw ==> gate_is(r.gates@[n1], GateKind::Swap, seq![], seq![0u8, 1u8]))
                &&& (!mc && !sw ==> ({
                    let nb = n1 + (if ea { 1int } else { 0int });
                    let nc = nb + (if eb { 1int } else { 0int });
                    &&& (ea ==> gate_is(r.gates@[n1], GateKind::Rxx,
                        seq![(-2 * self.a) as i64], seq![0u8, 1u8]))
                    &&& (eb ==> gate_is(r.gates@[nb], GateKind::Ryy,
                        seq![(-2 * self.b) as i64], seq![0u8, 1u8]))
                    &&& (ec ==> gate_is(r.gates@[nc], GateKind::Rzz,
                        seq![(-2 * self.c) as i64], seq![0u8, 1u8]))
                }))
                &&& forall|i: int| 0 <= i < c1r.gates@.len() ==> gate_is(#[trigger] r.gates@[n2
                    + i], c1r.gates@[i].kind, c1r.gates@[i].params@, seq![0u8])
                &&& forall|i: int| 0 <= i < c1l.gates@.len() ==> gate_is(#[trigger] r.gates@[n2
                    + c1r.gates@.len() + i], c1l.gates@[i].kind, c1l.gates@[i].params@,
                    seq![1u8])
                &&& r.global_phase == self.global_phase + c2r.global_phase + c2l.global_phase
                    + c1r.global_phase + c1l.global_phase + weyl_phase_delta(
                    self.specialization,
                )
            }),
    {
        let mut seq = TwoQubitGateSequence::new();
        seq.global_phase = self.global_phase;
        append_1q(&mut seq, c2r, 0);
        proof {
            assert(forall|i: int| 0 <= i < c2r.gates@.len() ==> gate_is(
                #[trigger] seq.gates@[i],
                c2r.gates@[i].kind,
                c2r.gates@[i].params@,
                seq![0u8],
            ));
        }
        let ghost g2r = seq.gates@;
        seq.global_phase = seq.global_phase + c2r.global_phase;
        append_1q(&mut seq, c2l, 1);
        proof {
            assert(forall|i: int| 0 <= i < g2r.len() ==> #[trigger] seq.gates@[i] == g2r[i]);
        }
        seq.global_phase = seq.global_phase + c2l.global_phase;
        let ghost k2 = seq.gates@;
        self.weyl_gate(simplify, &mut seq, atol);
        proof {
            assert(forall|i: int| 0 <= i < k2.len() ==> #[trigger] seq.gates@[i] == k2[i]);
        }
        let ghost kw = seq.gates@;
        append_1q(&mut seq, c1r, 0);
        proof {
            assert(forall|i: int| 0 <= i < kw.len() ==> #[trigger] seq.gates@[i] == kw[i]);
        }
        let ghost k1r = seq.gates@;
        seq.global_phase = seq.global_phase + c1r.global_phase;
        append_1q(&mut seq, c1l, 1);
        seq.global_phase = seq.global_phase + c1l.global_phase;
        proof {
            assert(forall|i: int| 0 <= i < k1r.len() ==> #[trigger] seq.gates@[i] == k1r[i]);
            assert(forall|i: int| 0 <= i < kw.len() ==> #[trigger] seq.gates@[i] == kw[i]);
            assert(forall|i: int| 0 <= i < c2r.gates@.len() ==> gate_is(
                #[trigger] seq.gates@[i],
                c2r.gates@[i].kind,
                c2r.gates@[i].params@,
                seq![0u8],
            ));
            assert(forall|i: int| 0 <= i < c2l.gates@.len() ==> gate_is(
                #[trigger] seq.gates@[c2r.gates@.len() + i],
                c2l.gates@[i].kind,
                c2l.gates@[i].params@,
                seq![1u8],
            ));
            let n1 = c2r.gates@.len() as int + c2l.gates@.len();
            let mc = self.specialization == Specialization::MirrorControlledEquiv;
            let sw = self.specialization == Specialization::SwapEquiv;
            assert(mc ==> gate_is(seq.gates@[n1], GateKind::Swap, seq![], seq![0u8, 1u8])
                && gate_is(seq.gates@[n1 + 1], GateKind::Rzz,
                seq![((PI_4 - self.c) * 2) as i64], seq![0u8, 1u8]));
            assert(sw ==> gate_is(seq.gates@[n1], GateKind::Swap, seq![], seq![0u8, 1u8]));
            if !mc && !sw {
                let ghost ea = emits(self.a as int, simplify, atol as int);
                let ghost eb = emits(self.b as int, simplify, atol as int);
                let ghost nb = n1 + (if ea { 1int } else { 0int });
                let ghost nc = nb + (if eb { 1int } else { 0int });
                assert(ea ==> gate_is(seq.gates@[n1], GateKind::Rxx,
                    seq![(-2 * self.a) as i64], seq![0u8, 1u8]));
                assert(eb ==> gate_is(seq.gates@[nb], GateKind::Ryy,
                    seq![(-2 * self.b) as i64], seq![0u8, 1u8]));
                assert(emits(self.c as int, simplify, atol as int) ==> gate_is(
                    seq.gates@[nc],
                    GateKind::Rzz,
                    seq![(-2 * self.c) as i64],
                    seq![0u8, 1u8],
                ));
            }
        }
        seq
    }
}

/// The exact phase the interaction core itself contributes: a quarter
/// turn for the mirrored controlled family, minus three quarter turns
/// for the swap family, nothing otherwise.
pub open spec fn weyl_phase_delta(s: Specialization) -> int {
    if s == Specialization::MirrorControlledEquiv {
        PI_4 as int
    } else if s == Specialization::SwapEquiv {
        -3 * PI_4
    } else {
        0int
    }
}

/// Absolute value.
pub fn abs_i64(x: i64) -> (r: i64)
    requires
        x > i64::MIN,
    ensures
        r == abs_spec(x as int),
{
    if x < 0 {
        -x
    } else {
        x
    }
}

/// Appends every operation of a one-qubit Euler sequence to the
/// list, stamped onto the given qubit; the phase is left to the caller.
pub fn append_1q(seq: &mut TwoQubitGateSequence, one: &OneQubitSequence, qubit: u8)
    ensures
        final(seq).gates@.len() == old(seq).gates@.len() + one.gates@.len(),
        forall|i: int| 0 <= i < old(seq).gates@.len() ==> #[trigger] final(seq).gates@[i]
            == old(seq).gates@[i],
        forall|i: int| old(seq).gates@.len() <= i < final(seq).gates@.len() ==> gate_is(
            #[trigger] final(seq).gates@[i],
            one.gates@[i - old(seq).gates@.len()].kind,
            one.gates@[i - old(seq).gates@.len()].params@,
            seq![qubit],
        ),
        final(seq).global_phase == old(seq).global_phase,
{
    let n = one.gates.len();
    let mut i: usize = 0;
    while i < n
        invariant
            i <= n,
            n == one.gates@.len(),
            seq.gates@.len() == old(seq).gates@.len() + i,
            forall|j: int| 0 <= j < old(seq).gates@.len() ==> #[trigger] seq.gates@[j]
                == old(seq).gates@[j],
            forall|j: int| old(seq).gates@.len() <= j < seq.gates@.len() ==> gate_is(
                #[trigger] seq.gates@[j],
                one.gates@[j - old(seq).gates@.len()].kind,
                one.gates@[j - old(seq).gates@.len()].params@,
                seq![qubit],
            ),
            seq.global_phase == old(seq).global_phase,
        decreases n - i,
    {
        let g = &one.gates[i];
        let params = g.params.clone();
        seq.push(g.kind, params, vec![qubit]);
        i = i + 1;
    }
}

/// Determinant magnitudes at or below this bound (0.1 in fidelity
/// units) mark a block as too singular to normalize.
pub const DET_BLOCK_MIN: i64 = 100000000;

/// The left factor's determinant magnitude must reach this bound (0.9).
pub const DET_LEFT_MIN: i64 = 900000000;

/// Which 2x2 block of a product of one-qubit unitaries to normalize by:
/// the upper-left block unless its determinant magnitude falls below a
/// tenth, then the lower-left block; if both fall below, the matrix is
/// not a product and the decomposition fails.
pub fn choose_product_block(det_upper: i64, det_lower: i64) -> (r: Result<bool, SynthError>)
    ensures
        det_upper >= DET_BLOCK_MIN ==> r == Result::<bool, SynthError>::Ok(false),
        det_upper < DET_BLOCK_MIN && det_lower >= DET_BLOCK_MIN ==> r == Result::<
            bool,
            SynthError,
        >::Ok(true),
        det_upper < DET_BLOCK_MIN && det_lower < DET_BLOCK_MIN ==> r == Result::<
            bool,
            SynthError,
        >::Err(SynthError::ProductDecompositionFailure),
{
    if det_upper >= DET_BLOCK_MIN {
        Ok(false)
    } else if det_lower >= DET_BLOCK_MIN {
        Ok(true)
    } else {
        Err(SynthError::ProductDecompositionFailure)
    }
}

/// After normalizing the right factor, the left factor's determinant
/// magnitude must be near one; anything below nine tenths means the
/// input was not a tensor product.
pub fn check_left_det(det_left: i64) -> (r: Result<(), SynthError>)
    ensures
        r is Ok <==> det_left >= DET_LEFT_MIN,
        r is Err ==> r == Result::<(), SynthError>::Err(SynthError::ProductDecompositionFailure),
{
    if det_left >= DET_LEFT_MIN {
        Ok(())
    } else {
        Err(SynthError::ProductDecompositionFailure)
    }
}

impl TwoQubitWeylDecomposition {
    /// Builds the final decomposition record once the specialization has
    /// been chosen and its fidelity evaluated: the requested fidelity
    /// gates the result, and the rewrite's own phase and the trace phase
    /// join the accumulated global phase.
    pub fn new_inner(
        spec: Specialization,
        coords: &crate::specialize::SpecializedCoords,
        global_phase: i64,
        trace_phase: i64,
        calculated_fidelity: i64,
        requested_fidelity: Option<i64>,
    ) -> (r: Result<TwoQubitWeylDecomposition, SynthError>)
    requires
        -PHASE_INPUT_LIMIT <= global_phase <= PHASE_INPUT_LIMIT,
        -PHASE_INPUT_LIMIT <= trace_phase <= PHASE_INPUT_LIMIT,
        -PHASE_INPUT_LIMIT <= coords.phase_add <= PHASE_INPUT_LIMIT,
    ensures
        r is Ok <==> (requested_fidelity is None || calculated_fidelity >= requested_fidelity->0),
        r is Err ==> r->Err_0 == (SynthError::FidelityBelowRequest {
            calculated: calculated_fidelity,
            requested: requested_fidelity->0,
        }),
        r is Ok ==> ({
            let d = r->Ok_0;
            &&& d.a == coords.a
            &&& d.b == coords.b
            &&& d.c == coords.c
            &&& d.global_phase == global_phase + coords.phase_add + trace_phase
            &&& d.specialization == spec
            &&& d.default_euler_basis == coords.euler_basis
            &&& d.requested_fidelity == requested_fidelity
            &&& d.calculated_fidelity == calculated_fidelity
        }),
{
    match crate::specialize::check_fidelity(calculated_fidelity, requested_fidelity) {
        Err(e) => Err(e),
        Ok(()) => Ok(
            TwoQubitWeylDecomposition {
                a: coords.a,
                b: coords.b,
                c: coords.c,
                global_phase: global_phase + coords.phase_add + trace_phase,
                specialization: spec,
                default_euler_basis: coords.euler_basis,
                requested_fidelity,
                calculated_fidelity,
            },
        ),
    }
}
}

} // verus!
