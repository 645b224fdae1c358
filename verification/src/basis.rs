//! Choice of how many entangling-gate applications a target needs, and
//! the decisions around the pulse-efficient rewrite.
//!
//! The achievable trace fidelity of using the entangling gate k times is
//! discounted by the k-th power of its own fidelity; the smallest
//! count attaining the maximal discounted fidelity wins. All fidelities
//! are integers in units of 10^-9, and the discounted objectives are
//! compared exactly over a common denominator.

use vstd::prelude::*;
use crate::angles::PI_4;
use crate::chamber::abs_spec;
use crate::errors::SynthError;
use crate::angles::PI;
use crate::sequence::{EulerBasis, GateKind, TwoQubitGateSequence, OneQubitSequence, gate_is};
use crate::weyl::{PHASE_INPUT_LIMIT, append_1q};
use crate::specialize::FID_ONE;

verus! {

/// The discounted objective of using the entangling gate k times, as an
/// exact integer over the common denominator FID_ONE^3.
pub open spec fn objective(fid: int, b: int, k: int) -> int {
    if k == 0 {
        fid * 1000000000000000000000000000
    } else if k == 1 {
        fid * b * 1000000000000000000
    } else if k == 2 {
        fid * b * b * 1000000000
    } else {
        fid * b * b * b
    }
}

/// Selects one of four fidelities by index.
pub open spec fn sel4(f0: int, f1: int, f2: int, f3: int, k: int) -> int {
    if k == 0 {
        f0
    } else if k == 1 {
        f1
    } else if k == 2 {
        f2
    } else {
        f3
    }
}

/// The lowest application count whose discounted objective is maximal.
pub open spec fn argmax_first(f0: int, f1: int, f2: int, f3: int, b: int) -> int {
    let o0 = objective(f0, b, 0);
    let o1 = objective(f1, b, 1);
    let o2 = objective(f2, b, 2);
    let o3 = objective(f3, b, 3);
    if o0 >= o1 && o0 >= o2 && o0 >= o3 {
        0int
    } else if o1 >= o2 && o1 >= o3 {
        1int
    } else if o2 >= o3 {
        2int
    } else {
        3int
    }
}

/// Picks the number of entangling-gate applications: the lowest count
/// whose trace fidelity, discounted by the basis fidelity once per use,
/// is maximal.
pub fn choose_basis_count(f0: i64, f1: i64, f2: i64, f3: i64, b: i64) -> (r: u8)
    requires
        0 <= f0 <= FID_ONE,
        0 <= f1 <= FID_ONE,
        0 <= f2 <= FID_ONE,
        0 <= f3 <= FID_ONE,
        0 <= b <= FID_ONE,
    ensures
        r < 4,
        r as int == argmax_first(f0 as int, f1 as int, f2 as int, f3 as int, b as int),
        forall|k: int| 0 <= k < 4 ==> objective(
            sel4(f0 as int, f1 as int, f2 as int, f3 as int, r as int),
            b as int,
            r as int,
        ) >= #[trigger] objective(sel4(f0 as int, f1 as int, f2 as int, f3 as int, k), b as int, k),
        forall|k: int| 0 <= k < r ==> objective(
            sel4(f0 as int, f1 as int, f2 as int, f3 as int, r as int),
            b as int,
            r as int,
        ) > #[trigger] objective(sel4(f0 as int, f1 as int, f2 as int, f3 as int, k), b as int, k),
{
    let bw: i128 = b as i128;
    proof {
        assert(0 <= (f1 as i128) * bw <= 1000000000000000000i128
            && 0 <= (f2 as i128) * bw <= 1000000000000000000i128
            && 0 <= (f2 as i128) * bw * bw <= 1000000000000000000000000000i128
            && 0 <= (f3 as i128) * bw <= 1000000000000000000i128
            && 0 <= (f3 as i128) * bw * bw <= 1000000000000000000000000000i128
            && 0 <= (f3 as i128) * bw * bw * bw
                <= 1000000000000000000000000000000000000i128) by (nonlinear_arith)
            requires
                0 <= f1 as i128 <= 1000000000,
                0 <= f2 as i128 <= 1000000000,
                0 <= f3 as i128 <= 1000000000,
                0 <= bw <= 1000000000,
        ;
    }
    let o0: i128 = (f0 as i128) * 1000000000000000000000000000;
    let o1: i128 = (f1 as i128) * bw * 1000000000000000000;
    let o2: i128 = (f2 as i128) * bw * bw * 1000000000;
    let o3: i128 = (f3 as i128) * bw * bw * bw;
    if o0 >= o1 && o0 >= o2 && o0 >= o3 {
        0
    } else if o1 >= o2 && o1 >= o3 {
        1
    } else if o2 >= o3 {
        2
    } else {
        3
    }
}

/// Raising the entangling gate's fidelity never lowers the chosen
/// application count: higher counts are discounted less as the basis
/// fidelity rises toward one, so the first-maximal count can only move
/// up. (Equivalently: the count never rises as the basis fidelity drops
/// away from one.)
pub proof fn lemma_basis_count_monotone(
    f0: int,
    f1: int,
    f2: int,
    f3: int,
    b1: int,
    b2: int,
)
    requires
        0 <= f0 <= FID_ONE,
        0 <= f1 <= FID_ONE,
        0 <= f2 <= FID_ONE,
        0 <= f3 <= FID_ONE,
        0 <= b1 <= b2 <= FID_ONE,
    ensures
        argmax_first(f0, f1, f2, f3, b1) <= argmax_first(f0, f1, f2, f3, b2),
{
    let i = argmax_first(f0, f1, f2, f3, b1);
    let j = argmax_first(f0, f1, f2, f3, b2);
    if j < i {
        let fi = sel4(f0, f1, f2, f3, i);
        let fj = sel4(f0, f1, f2, f3, j);
        let ui = objective(fi, b1, i);
        let uj = objective(fj, b1, j);
        let vi = objective(fi, b2, i);
        let vj = objective(fj, b2, j);
        // By definition of the two selections.
        assert(uj < ui);
        assert(vj >= vi);
        // Power dominance: b2^i b1^j >= b1^i b2^j for j < i.
        assert(vi * uj >= ui * vj) by (nonlinear_arith)
            requires
                0 <= b1 <= b2,
                0 <= fi,
                0 <= fj,
                0 <= j < i < 4,
                ui == objective(fi, b1, i),
                uj == objective(fj, b1, j),
                vi == objective(fi, b2, i),
                vj == objective(fj, b2, j),
        ;
        assert(0 <= vi && 0 <= vj && 0 <= ui && 0 <= uj) by (nonlinear_arith)
            requires
                0 <= b1,
                0 <= b2,
                0 <= fi,
                0 <= fj,
                ui == objective(fi, b1, i),
                uj == objective(fj, b1, j),
                vi == objective(fi, b2, i),
                vj == objective(fj, b2, j),
                0 <= j < i < 4,
        ;
        // vi*(uj - ui) >= vi*uj - ui*vj + ui*(vj - vi) >= 0, yet uj < ui.
        assert(vi * uj >= ui * vi) by (nonlinear_arith)
            requires
                vi * uj >= ui * vj,
                vj >= vi,
                0 <= ui,
        ;
        assert(vi == 0) by (nonlinear_arith)
            requires
                vi * uj >= ui * vi,
                uj < ui,
                0 <= vi,
        ;
        // A vanishing objective at b2 forces one at b1 as well.
        assert(ui == 0) by (nonlinear_arith)
            requires
                vi == 0,
                ui == objective(fi, b1, i),
                vi == objective(fi, b2, i),
                0 <= b1 <= b2,
                0 <= fi,
                0 < i < 4,
        ;
        assert(false);
    }
}

/// Where the pulse-efficient rewrite may be applied.
#[derive(Clone, Copy, Debug, PartialEq, Eq, Structural)]
pub enum PulsePath {
    TwoUses,
    ThreeUses,
    NotApplicable,
}

/// The decision of `pulse_optimal_chooser`, step for step: `mandatory`
/// is whether the caller demanded the pulse-efficient form (then a
/// structural mismatch is an error, not a fallback).
pub open spec fn pulse_choice_spec(
    mandatory: bool,
    euler_basis: EulerBasis,
    gate_is_cx: bool,
    best_nbasis: int,
) -> Result<PulsePath, SynthError> {
    if mandatory && (best_nbasis == 0 || best_nbasis == 1 || best_nbasis > 3) {
        Ok(PulsePath::NotApplicable)
    } else if euler_basis != EulerBasis::Zsx && euler_basis != EulerBasis::Zsxx {
        if mandatory {
            Err(SynthError::UnsupportedPulseOptimization)
        } else {
            Ok(PulsePath::NotApplicable)
        }
    } else if !gate_is_cx {
        if mandatory {
            Err(SynthError::UnsupportedPulseOptimization)
        } else {
            Ok(PulsePath::NotApplicable)
        }
    } else if best_nbasis == 3 {
        Ok(PulsePath::ThreeUses)
    } else if best_nbasis == 2 {
        Ok(PulsePath::TwoUses)
    } else {
        Ok(PulsePath::NotApplicable)
    }
}

/// Decides whether the pulse-efficient closed form applies: only with a
/// ZSX-family rotation basis, a controlled-X entangling gate, and two or
/// three applications; demanded but inapplicable is a hard error.
pub fn pulse_optimal_chooser(
    mandatory: bool,
    euler_basis: EulerBasis,
    gate_is_cx: bool,
    best_nbasis: u8,
) -> (r: Result<PulsePath, SynthError>)
    ensures
        r == pulse_choice_spec(mandatory, euler_basis, gate_is_cx, best_nbasis as int),
{
    if mandatory && (best_nbasis == 0 || best_nbasis == 1 || best_nbasis > 3) {
        return Ok(PulsePath::NotApplicable);
    }
    match euler_basis {
        EulerBasis::Zsx | EulerBasis::Zsxx => {},
        _ => {
            if mandatory {
                return Err(SynthError::UnsupportedPulseOptimization);
            } else {
                return Ok(PulsePath::NotApplicable);
            }
        },
    }
    if !gate_is_cx {
        if mandatory {
            return Err(SynthError::UnsupportedPulseOptimization);
        } else {
            return Ok(PulsePath::NotApplicable);
        }
    }
    if best_nbasis == 3 {
        Ok(PulsePath::ThreeUses)
    } else if best_nbasis == 2 {
        Ok(PulsePath::TwoUses)
    } else {
        Ok(PulsePath::NotApplicable)
    }
}

/// Whether an entangling gate is super-controlled: its first canonical
/// coordinate sits on pi/4 and its third on zero, to within `tol` angle
/// units (one unit is below the reference relative tolerance, so callers
/// pass the tolerance their front end rounds to).
pub fn is_super_controlled(a: i64, c: i64, tol: i64) -> (r: bool)
    requires
        0 <= tol,
        -0x4000_0000_0000_0000 < a < 0x4000_0000_0000_0000,
        -0x4000_0000_0000_0000 < c < 0x4000_0000_0000_0000,
    ensures
        r == (abs_spec(a - PI_4) <= tol && abs_spec(c as int) <= tol),
{
    let da: i64 = if a >= PI_4 { a - PI_4 } else { PI_4 - a };
    let dc: i64 = if c >= 0 { c } else { -c };
    da <= tol && dc <= tol
}

/// Sum of the list lengths of the first `upto` one-qubit layers.
pub open spec fn sum_lens(es: Seq<OneQubitSequence>, upto: int) -> int
    decreases upto,
{
    if upto <= 0 {
        0
    } else {
        sum_lens(es, upto - 1) + es[upto - 1].gates@.len()
    }
}

/// Sum of the phases of the first `upto` one-qubit layers.
pub open spec fn sum_phases(es: Seq<OneQubitSequence>, upto: int) -> int
    decreases upto,
{
    if upto <= 0 {
        0
    } else {
        sum_phases(es, upto - 1) + es[upto - 1].global_phase
    }
}

/// Where layer k starts in the assembled list: the earlier layers plus
/// one slot for each entangling gate standing before it (one after every
/// completed pair of layers).
pub open spec fn layer_start(es: Seq<OneQubitSequence>, k: int) -> int {
    sum_lens(es, k) + k / 2
}

proof fn lemma_sum_phases_bound(es: Seq<OneQubitSequence>, k: int)
    requires
        0 <= k <= es.len(),
        forall|j: int| 0 <= j < es.len() ==> -PHASE_INPUT_LIMIT
            <= #[trigger] es[j].global_phase <= PHASE_INPUT_LIMIT,
    ensures
        -k * PHASE_INPUT_LIMIT <= sum_phases(es, k) <= k * PHASE_INPUT_LIMIT,
    decreases k,
{
    if k > 0 {
        lemma_sum_phases_bound(es, k - 1);
    }
}

proof fn lemma_sum_lens_monotone(es: Seq<OneQubitSequence>, k1: int, k2: int)
    requires
        0 <= k1 <= k2,
    ensures
        sum_lens(es, k1) <= sum_lens(es, k2),
    decreases k2 - k1,
{
    if k1 < k2 {
        lemma_sum_lens_monotone(es, k1, k2 - 1);
    }
}

/// Assembles the synthesized sequence: for each of the `nb` uses, the
/// Euler decompositions of the next left and right corrections (on
/// qubits 0 and 1) followed by one entangling gate; then the closing
/// pair of corrections. The phase starts from the target's, pays the
/// entangling gate's own phase once per use, gains half a turn in the
/// two-use closed form, and collects every layer's phase.
#[verifier::rlimit(100)]
pub fn assemble_basis_sequence(
    target_phase: i64,
    basis_phase: i64,
    nb: u8,
    basis_kind: GateKind,
    basis_params: &Vec<i64>,
    es: &Vec<OneQubitSequence>,
) -> (r: TwoQubitGateSequence)
    requires
        nb <= 3,
        es@.len() == 2 * nb + 2,
        -PHASE_INPUT_LIMIT <= target_phase <= PHASE_INPUT_LIMIT,
        -PHASE_INPUT_LIMIT <= basis_phase <= PHASE_INPUT_LIMIT,
        forall|k: int| 0 <= k < es@.len() ==> -PHASE_INPUT_LIMIT
            <= #[trigger] es@[k].global_phase <= PHASE_INPUT_LIMIT,
    ensures
        r.gates@.len() == sum_lens(es@, es@.len() as int) + nb,
        forall|k: int, t: int| 0 <= k < es@.len() && 0 <= t < es@[k].gates@.len() ==> gate_is(
            r.gates@[layer_start(es@, k) + t],
            #[trigger] es@[k].gates@[t].kind,
            es@[k].gates@[t].params@,
            seq![(k % 2) as u8],
        ),
        forall|m: int| 0 <= m < nb ==> gate_is(
            r.gates@[#[trigger] layer_start(es@, 2 * m + 1) + es@[2 * m + 1].gates@.len()],
            basis_kind,
            basis_params@,
            seq![0u8, 1u8],
        ),
        r.global_phase == target_phase - (nb as int) * basis_phase
            + (if nb == 2 { PI as int } else { 0int })
            + sum_phases(es@, es@.len() as int),
{
    let mut seq = TwoQubitGateSequence::new();
    let nbw: i64 = nb as i64;
    proof {
        assert(-4 * 1099511627776 <= nbw * basis_phase <= 4 * 1099511627776i64)
            by (nonlinear_arith)
            requires
                0 <= nbw <= 3,
                -1099511627776 <= basis_phase <= 1099511627776,
        ;
    }
    seq.global_phase = target_phase - nbw * basis_phase;
    if nb == 2 {
        seq.global_phase = seq.global_phase + PI;
    }
    let ghost base_phase = seq.global_phase as int;
    let mut i: usize = 0;
    while i < nb as usize
        invariant
            i <= nb as usize,
            nb <= 3,
            es@.len() == 2 * nb + 2,
            seq.gates@.len() == layer_start(es@, 2 * i as int),
            forall|k: int, t: int| 0 <= k < 2 * i && 0 <= t < es@[k].gates@.len() ==> gate_is(
                seq.gates@[layer_start(es@, k) + t],
                #[trigger] es@[k].gates@[t].kind,
                es@[k].gates@[t].params@,
                seq![(k % 2) as u8],
            ),
            forall|m: int| 0 <= m < i ==> gate_is(
                seq.gates@[#[trigger] layer_start(es@, 2 * m + 1) + es@[2 * m + 1].gates@.len()],
                basis_kind,
                basis_params@,
                seq![0u8, 1u8],
            ),
            seq.global_phase == base_phase + sum_phases(es@, 2 * i as int),
            -PHASE_INPUT_LIMIT <= target_phase <= PHASE_INPUT_LIMIT,
            -PHASE_INPUT_LIMIT <= basis_phase <= PHASE_INPUT_LIMIT,
            base_phase == target_phase - (nb as int) * basis_phase
                + (if nb == 2 { PI as int } else { 0int }),
            -6597069766656 <= base_phase <= 6597069766656,
            forall|k: int| 0 <= k < es@.len() ==> -PHASE_INPUT_LIMIT
                <= #[trigger] es@[k].global_phase <= PHASE_INPUT_LIMIT,
        decreases nb as usize - i,
    {
        let ghost pre = seq.gates@;
        proof {
            lemma_sum_phases_bound(es@, 2 * i as int);
            lemma_sum_phases_bound(es@, 2 * i as int + 1);
            lemma_sum_phases_bound(es@, 2 * i as int + 2);
        }
        append_1q(&mut seq, &es[2 * i], 0);
        seq.global_phase = seq.global_phase + es[2 * i].global_phase;
        append_1q(&mut seq, &es[2 * i + 1], 1);
        seq.global_phase = seq.global_phase + es[2 * i + 1].global_phase;
        let params = basis_params.clone();
        seq.push(basis_kind, params, vec![0u8, 1u8]);
        proof {
            assert(forall|x: int| 0 <= x < pre.len() ==> #[trigger] seq.gates@[x] == pre[x]);
            let gi = 2 * i as int;
            assert(sum_lens(es@, gi + 1) == sum_lens(es@, gi) + es@[gi].gates@.len());
            assert(sum_lens(es@, gi + 2) == sum_lens(es@, gi + 1) + es@[gi + 1].gates@.len());
            assert(seq.gates@.len() == layer_start(es@, gi + 2));
            assert forall|k: int, t: int| 0 <= k < gi && 0 <= t < es@[k].gates@.len() implies
                gate_is(
                    seq.gates@[layer_start(es@, k) + t],
                    #[trigger] es@[k].gates@[t].kind,
                    es@[k].gates@[t].params@,
                    seq![(k % 2) as u8],
                ) by {
                lemma_sum_lens_monotone(es@, 0, k);
                lemma_sum_lens_monotone(es@, k + 1, gi);
                assert(sum_lens(es@, k + 1) == sum_lens(es@, k) + es@[k].gates@.len());
                assert(layer_start(es@, k) + t < pre.len());
                assert(seq.gates@[layer_start(es@, k) + t] == pre[layer_start(es@, k) + t]);
            };
            assert forall|m: int| 0 <= m < i implies gate_is(
                seq.gates@[#[trigger] layer_start(es@, 2 * m + 1) + es@[2 * m + 1].gates@.len()],
                basis_kind,
                basis_params@,
                seq![0u8, 1u8],
            ) by {
                lemma_sum_lens_monotone(es@, 0, 2 * m + 1);
                lemma_sum_lens_monotone(es@, 0, 2 * m + 1);
            lemma_sum_lens_monotone(es@, 2 * m + 2, gi);
                assert(sum_lens(es@, 2 * m + 2) == sum_lens(es@, 2 * m + 1) + es@[2 * m
                    + 1].gates@.len());
                assert(layer_start(es@, 2 * m + 1) + es@[2 * m + 1].gates@.len() < pre.len());
                assert(seq.gates@[layer_start(es@, 2 * m + 1) + es@[2 * m + 1].gates@.len()]
                    == pre[layer_start(es@, 2 * m + 1) + es@[2 * m + 1].gates@.len()]);
            };
            assert(gate_is(
                seq.gates@[layer_start(es@, gi + 1) + es@[gi + 1].gates@.len()],
                basis_kind,
                basis_params@,
                seq![0u8, 1u8],
            ));
        }
        i = i + 1;
    }
    let ghost pre2 = seq.gates@;
    proof {
        lemma_sum_phases_bound(es@, 2 * i as int);
        lemma_sum_phases_bound(es@, 2 * i as int + 1);
        lemma_sum_phases_bound(es@, 2 * i as int + 2);
    }
    append_1q(&mut seq, &es[2 * i], 0);
    seq.global_phase = seq.global_phase + es[2 * i].global_phase;
    append_1q(&mut seq, &es[2 * i + 1], 1);
    seq.global_phase = seq.global_phase + es[2 * i + 1].global_phase;
    proof {
        let gi = 2 * i as int;
        assert(sum_lens(es@, gi + 1) == sum_lens(es@, gi) + es@[gi].gates@.len());
        assert(sum_lens(es@, gi + 2) == sum_lens(es@, gi + 1) + es@[gi + 1].gates@.len());
        assert(seq.gates@.len() == sum_lens(es@, es@.len() as int) + nb);
        assert forall|k: int, t: int| 0 <= k < gi && 0 <= t < es@[k].gates@.len() implies
            gate_is(
                seq.gates@[layer_start(es@, k) + t],
                #[trigger] es@[k].gates@[t].kind,
                es@[k].gates@[t].params@,
                seq![(k % 2) as u8],
            ) by {
            lemma_sum_lens_monotone(es@, 0, k);
            lemma_sum_lens_monotone(es@, k + 1, gi);
            assert(sum_lens(es@, k + 1) == sum_lens(es@, k) + es@[k].gates@.len());
            assert(layer_start(es@, k) + t < pre2.len());
            assert(seq.gates@[layer_start(es@, k) + t] == pre2[layer_start(es@, k) + t]);
        };
        assert forall|m: int| 0 <= m < nb implies gate_is(
            seq.gates@[#[trigger] layer_start(es@, 2 * m + 1) + es@[2 * m + 1].gates@.len()],
            basis_kind,
            basis_params@,
            seq![0u8, 1u8],
        ) by {
            lemma_sum_lens_monotone(es@, 0, 2 * m + 1);
            lemma_sum_lens_monotone(es@, 2 * m + 2, gi);
            assert(sum_lens(es@, 2 * m + 2) == sum_lens(es@, 2 * m + 1) + es@[2 * m
                + 1].gates@.len());
            assert(layer_start(es@, 2 * m + 1) + es@[2 * m + 1].gates@.len() < pre2.len());
            assert(seq.gates@[layer_start(es@, 2 * m + 1) + es@[2 * m + 1].gates@.len()]
                == pre2[layer_start(es@, 2 * m + 1) + es@[2 * m + 1].gates@.len()]);
        };
    }
    seq
}

/// The basis-gate synthesizer: a fixed entangling gate, its own
/// canonical decomposition, the rotation basis for one-qubit synthesis,
/// and whether the closed two- and three-use forms apply to it.
#[derive(Clone, Debug)]
pub struct TwoQubitBasisDecomposer {
    pub gate: GateKind,
    pub gate_name: String,
    pub gate_params: Vec<i64>,
    pub basis_fidelity: i64,
    pub euler_basis: EulerBasis,
    pub pulse_optimize: Option<bool>,
    pub basis_decomposer: crate::weyl::TwoQubitWeylDecomposition,
    pub super_controlled: bool,
}

impl TwoQubitBasisDecomposer {
    /// The entangling gate's name.
    pub fn gate_name(&self) -> (r: &String)
        ensures
            r@ == self.gate_name@,
    {
        &self.gate_name
    }

    /// Builds the synthesizer around an already canonicalized entangling
    /// gate, which is super-controlled when its first coordinate sits
    /// on pi/4 and its third on zero, to within `sc_tol` units.
    pub fn new_inner(
        gate: GateKind,
        gate_name: String,
        gate_params: Vec<i64>,
        basis_fidelity: i64,
        euler_basis: EulerBasis,
        pulse_optimize: Option<bool>,
        basis_decomposer: crate::weyl::TwoQubitWeylDecomposition,
        sc_tol: i64,
    ) -> (r: TwoQubitBasisDecomposer)
        requires
            0 <= sc_tol,
            -0x4000_0000_0000_0000 < basis_decomposer.a < 0x4000_0000_0000_0000,
            -0x4000_0000_0000_0000 < basis_decomposer.c < 0x4000_0000_0000_0000,
        ensures
            r.gate == gate,
            r.gate_name@ == gate_name@,
            r.gate_params@ == gate_params@,
            r.basis_fidelity == basis_fidelity,
            r.euler_basis == euler_basis,
            r.pulse_optimize == pulse_optimize,
            r.basis_decomposer == basis_decomposer,
            r.super_controlled == (abs_spec(basis_decomposer.a - PI_4) <= sc_tol && abs_spec(
                basis_decomposer.c as int,
            ) <= sc_tol),
    {
        let sc = is_super_controlled(basis_decomposer.a, basis_decomposer.c, sc_tol);
        TwoQubitBasisDecomposer {
            gate,
            gate_name,
            gate_params,
            basis_fidelity,
            euler_basis,
            pulse_optimize,
            basis_decomposer,
            super_controlled: sc,
        }
    }

    /// The number of applications of this entangling gate a target
    /// needs, given the four candidate trace fidelities of the target.
    pub fn num_basis_gates_inner(&self, f0: i64, f1: i64, f2: i64, f3: i64) -> (r: u8)
        requires
            0 <= f0 <= FID_ONE,
            0 <= f1 <= FID_ONE,
            0 <= f2 <= FID_ONE,
            0 <= f3 <= FID_ONE,
            0 <= self.basis_fidelity <= FID_ONE,
        ensures
            r < 4,
            r as int == argmax_first(
                f0 as int,
                f1 as int,
                f2 as int,
                f3 as int,
                self.basis_fidelity as int,
            ),
    {
        choose_basis_count(f0, f1, f2, f3, self.basis_fidelity)
    }

    /// Assembles the generic synthesized sequence for a chosen count,
    /// interleaving the Euler-decomposed corrections with this gate.
    pub fn call_inner(
        &self,
        target_phase: i64,
        nb: u8,
        es: &Vec<OneQubitSequence>,
    ) -> (r: TwoQubitGateSequence)
        requires
            nb <= 3,
            es@.len() == 2 * nb + 2,
            -PHASE_INPUT_LIMIT <= target_phase <= PHASE_INPUT_LIMIT,
            -PHASE_INPUT_LIMIT <= self.basis_decomposer.global_phase <= PHASE_INPUT_LIMIT,
            forall|k: int| 0 <= k < es@.len() ==> -PHASE_INPUT_LIMIT
                <= #[trigger] es@[k].global_phase <= PHASE_INPUT_LIMIT,
        ensures
            r.gates@.len() == sum_lens(es@, es@.len() as int) + nb,
            forall|k: int, t: int| 0 <= k < es@.len() && 0 <= t < es@[k].gates@.len() ==> gate_is(
                r.gates@[layer_start(es@, k) + t],
                #[trigger] es@[k].gates@[t].kind,
                es@[k].gates@[t].params@,
                seq![(k % 2) as u8],
            ),
            forall|m: int| 0 <= m < nb ==> gate_is(
                r.gates@[#[trigger] layer_start(es@, 2 * m + 1) + es@[2 * m + 1].gates@.len()],
                self.gate,
                self.gate_params@,
                seq![0u8, 1u8],
            ),
            r.global_phase == target_phase - (nb as int) * self.basis_decomposer.global_phase
                + (if nb == 2 { PI as int } else { 0int })
                + sum_phases(es@, es@.len() as int),
    {
        assemble_basis_sequence(
            target_phase,
            self.basis_decomposer.global_phase,
            nb,
            self.gate,
            &self.gate_params,
            es,
        )
    }
}

} // verus!
