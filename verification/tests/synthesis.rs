use weyl_synth::angles::{PI, PI_2, PI_4};
use weyl_synth::basis::{
    choose_basis_count, is_super_controlled, pulse_optimal_chooser, TwoQubitBasisDecomposer, PulsePath,
};
use weyl_synth::controlled::{
    check_rxx_equivalence, num_basis_gates_inner, scaled_angle, TwoQubitControlledUDecomposer,
    RxxFactors,
};
use weyl_synth::errors::SynthError;
use weyl_synth::pulse::{three_cx_begin_angle, three_cx_efficient_euler, two_cx_efficient_euler, EulerSet};
use weyl_synth::sequence::{
    invert_1q_gate, EulerBasis, GateKind, TwoQubitGateSequence, OneQubitGate, OneQubitSequence,
};
use weyl_synth::specialize::{Specialization, FID_ONE};
use weyl_synth::weyl::TwoQubitWeylDecomposition;

fn units(rad: f64) -> i64 {
    (rad / std::f64::consts::PI * 1073741824.0).round() as i64
}

fn fid_units(f: f64) -> i64 {
    (f * 1e9).round() as i64
}

fn one_q(kinds: &[(GateKind, i64)], phase: i64) -> OneQubitSequence {
    OneQubitSequence {
        gates: kinds
            .iter()
            .map(|(k, p)| OneQubitGate { kind: *k, params: vec![*p] })
            .collect(),
        global_phase: phase,
    }
}

fn empty_q() -> OneQubitSequence {
    OneQubitSequence { gates: vec![], global_phase: 0 }
}

fn cnot_target_fidelities() -> (i64, i64, i64, i64) {
    // Trace fidelities for a controlled-X target against a controlled-X
    // entangling gate: target (a, b, c) = (pi/4, 0, 0), basis b = 0.
    let a = std::f64::consts::PI / 4.0;
    let f0 = (4.0 + (4.0 * a.cos()).powi(2)) / 20.0;
    let f1 = 1.0;
    let f2 = 1.0;
    let f3 = 1.0;
    (fid_units(f0), fid_units(f1), fid_units(f2), fid_units(f3))
}

#[test]
fn cnot_target_with_cnot_basis_needs_exactly_one_use() {
    // With approximation off the discount factor is one, and the first
    // count attaining the maximal fidelity is a single application.
    let (f0, f1, f2, f3) = cnot_target_fidelities();
    assert_eq!(choose_basis_count(f0, f1, f2, f3, FID_ONE), 1);
}

#[test]
fn zero_uses_win_for_an_identity_target() {
    assert_eq!(choose_basis_count(FID_ONE, FID_ONE, FID_ONE, FID_ONE, FID_ONE), 0);
}

#[test]
fn count_never_drops_as_basis_fidelity_rises() {
    let (f0, f1, f2, f3) = cnot_target_fidelities();
    let fids = [fid_units(0.5), fid_units(0.9), fid_units(0.99), FID_ONE];
    let mut last = 0u8;
    for b in fids {
        let n = choose_basis_count(f0, f1, f2, f3, b);
        assert!(n >= last);
        last = n;
    }
}

#[test]
fn low_basis_fidelity_prefers_fewer_uses() {
    // A target almost reachable without the entangling gate: with a very
    // lossy gate the zero-use approximation wins.
    let f = (
        fid_units(0.97),
        fid_units(0.99),
        FID_ONE,
        FID_ONE,
    );
    assert_eq!(choose_basis_count(f.0, f.1, f.2, f.3, fid_units(0.5)), 0);
    assert_eq!(choose_basis_count(f.0, f.1, f.2, f.3, FID_ONE), 2);
}

#[test]
fn pulse_chooser_demands_zsx_and_cx() {
    assert_eq!(
        pulse_optimal_chooser(true, EulerBasis::Zyz, true, 2),
        Err(SynthError::UnsupportedPulseOptimization)
    );
    assert_eq!(
        pulse_optimal_chooser(false, EulerBasis::Zyz, true, 2),
        Ok(PulsePath::NotApplicable)
    );
    assert_eq!(
        pulse_optimal_chooser(true, EulerBasis::Zsx, false, 2),
        Err(SynthError::UnsupportedPulseOptimization)
    );
    assert_eq!(
        pulse_optimal_chooser(true, EulerBasis::Zsx, true, 1),
        Ok(PulsePath::NotApplicable)
    );
    assert_eq!(
        pulse_optimal_chooser(false, EulerBasis::Zsxx, true, 2),
        Ok(PulsePath::TwoUses)
    );
    assert_eq!(
        pulse_optimal_chooser(false, EulerBasis::Zsx, true, 3),
        Ok(PulsePath::ThreeUses)
    );
    assert_eq!(
        pulse_optimal_chooser(false, EulerBasis::Zsx, true, 0),
        Ok(PulsePath::NotApplicable)
    );
}

#[test]
fn super_controlled_needs_quarter_pi_and_zero() {
    assert!(is_super_controlled(PI_4, 0, 1));
    assert!(is_super_controlled(PI_4 + 1, -1, 1));
    assert!(!is_super_controlled(PI_4 + 2, 0, 1));
    assert!(!is_super_controlled(PI_4, units(0.1), 1));
}

fn cx_basis_decomposer(basis_fidelity: i64) -> TwoQubitBasisDecomposer {
    let record = TwoQubitWeylDecomposition {
        a: PI_4,
        b: 0,
        c: 0,
        global_phase: units(0.5),
        specialization: Specialization::ControlledEquiv,
        default_euler_basis: EulerBasis::Zyz,
        requested_fidelity: Some(fid_units(1.0 - 1e-9)),
        calculated_fidelity: FID_ONE,
    };
    TwoQubitBasisDecomposer::new_inner(
        GateKind::Cx,
        String::from("cx"),
        vec![],
        basis_fidelity,
        EulerBasis::Zsx,
        None,
        record,
        1,
    )
}

#[test]
fn basis_decomposer_records_super_controlled() {
    let d = cx_basis_decomposer(FID_ONE);
    assert!(d.super_controlled);
    assert_eq!(d.gate_name().as_str(), "cx");
    let (f0, f1, f2, f3) = cnot_target_fidelities();
    assert_eq!(d.num_basis_gates_inner(f0, f1, f2, f3), 1);
}

#[test]
fn call_inner_interleaves_corrections_and_basis_gates() {
    let d = cx_basis_decomposer(FID_ONE);
    let es = vec![
        one_q(&[(GateKind::Rz, units(0.1))], units(0.01)),
        one_q(&[(GateKind::Rz, units(0.2)), (GateKind::Sx, 0)], units(0.02)),
        one_q(&[(GateKind::Rz, units(0.3))], units(0.03)),
        one_q(&[], units(0.04)),
    ];
    let r = d.call_inner(units(0.5), 1, &es);
    // Layers: 1 + 2 gates, one entangling gate, then 1 + 0 gates.
    assert_eq!(r.gates.len(), 5);
    assert_eq!(r.gates[0].kind, GateKind::Rz);
    assert_eq!(r.gates[0].qubits, vec![0u8]);
    assert_eq!(r.gates[1].kind, GateKind::Rz);
    assert_eq!(r.gates[1].qubits, vec![1u8]);
    assert_eq!(r.gates[2].kind, GateKind::Sx);
    assert_eq!(r.gates[2].qubits, vec![1u8]);
    assert_eq!(r.gates[3].kind, GateKind::Cx);
    assert_eq!(r.gates[3].qubits, vec![0u8, 1u8]);
    assert_eq!(r.gates[4].kind, GateKind::Rz);
    assert_eq!(r.gates[4].params, vec![units(0.3)]);
    assert_eq!(r.gates[4].qubits, vec![0u8]);
    // Phase: target minus one basis phase plus every layer's phase.
    assert_eq!(
        r.global_phase,
        units(0.5) - units(0.5) + units(0.01) + units(0.02) + units(0.03) + units(0.04)
    );
}

#[test]
fn call_inner_adds_half_turn_for_two_uses() {
    let d = cx_basis_decomposer(FID_ONE);
    let es = vec![empty_q(), empty_q(), empty_q(), empty_q(), empty_q(), empty_q()];
    let r = d.call_inner(0, 2, &es);
    assert_eq!(r.gates.len(), 2);
    assert_eq!(r.gates[0].kind, GateKind::Cx);
    assert_eq!(r.gates[1].kind, GateKind::Cx);
    assert_eq!(r.global_phase, -2 * units(0.5) + PI);
}

#[test]
fn weyl_gate_emits_the_three_interactions() {
    let d = TwoQubitWeylDecomposition {
        a: units(0.3),
        b: units(0.2),
        c: units(0.1),
        global_phase: 0,
        specialization: Specialization::General,
        default_euler_basis: EulerBasis::Zyz,
        requested_fidelity: None,
        calculated_fidelity: FID_ONE,
    };
    let mut seq = TwoQubitGateSequence::new();
    d.weyl_gate(false, &mut seq, 0);
    assert_eq!(seq.gates.len(), 3);
    assert_eq!(seq.gates[0].kind, GateKind::Rxx);
    assert_eq!(seq.gates[0].params, vec![-2 * units(0.3)]);
    assert_eq!(seq.gates[1].kind, GateKind::Ryy);
    assert_eq!(seq.gates[1].params, vec![-2 * units(0.2)]);
    assert_eq!(seq.gates[2].kind, GateKind::Rzz);
    assert_eq!(seq.gates[2].params, vec![-2 * units(0.1)]);
    assert_eq!(seq.global_phase, 0);
}

#[test]
fn identity_record_simplifies_to_an_empty_sequence() {
    // Decomposing the identity yields the identity-equivalent family
    // with all three coordinates zero; with simplification on, no
    // interaction gate at all is emitted.
    let d = TwoQubitWeylDecomposition {
        a: 0,
        b: 0,
        c: 0,
        global_phase: 0,
        specialization: Specialization::IdEquiv,
        default_euler_basis: EulerBasis::Zyz,
        requested_fidelity: Some(fid_units(1.0 - 1e-9)),
        calculated_fidelity: FID_ONE,
    };
    let mut seq = TwoQubitGateSequence::new();
    d.weyl_gate(true, &mut seq, 0);
    assert_eq!(seq.gates.len(), 0);
    assert_eq!(seq.global_phase, 0);
}

#[test]
fn swap_record_emits_one_swap() {
    let d = TwoQubitWeylDecomposition {
        a: PI_4,
        b: PI_4,
        c: PI_4,
        global_phase: 0,
        specialization: Specialization::SwapEquiv,
        default_euler_basis: EulerBasis::Zyz,
        requested_fidelity: None,
        calculated_fidelity: FID_ONE,
    };
    let mut seq = TwoQubitGateSequence::new();
    d.weyl_gate(true, &mut seq, 0);
    assert_eq!(seq.gates.len(), 1);
    assert_eq!(seq.gates[0].kind, GateKind::Swap);
    assert_eq!(seq.global_phase, -3 * PI_4);
}

#[test]
fn mirror_record_emits_swap_and_zz_rotation() {
    let c = units(0.1);
    let d = TwoQubitWeylDecomposition {
        a: PI_4,
        b: PI_4,
        c,
        global_phase: 0,
        specialization: Specialization::MirrorControlledEquiv,
        default_euler_basis: EulerBasis::Zyz,
        requested_fidelity: None,
        calculated_fidelity: FID_ONE,
    };
    let mut seq = TwoQubitGateSequence::new();
    d.weyl_gate(true, &mut seq, 0);
    assert_eq!(seq.gates.len(), 2);
    assert_eq!(seq.gates[0].kind, GateKind::Swap);
    assert_eq!(seq.gates[1].kind, GateKind::Rzz);
    assert_eq!(seq.gates[1].params, vec![(PI_4 - c) * 2]);
    assert_eq!(seq.global_phase, PI_4);
}

#[test]
fn circuit_places_corrections_around_the_interaction() {
    let d = TwoQubitWeylDecomposition {
        a: units(0.3),
        b: 0,
        c: 0,
        global_phase: units(0.1),
        specialization: Specialization::ControlledEquiv,
        default_euler_basis: EulerBasis::Xyx,
        requested_fidelity: None,
        calculated_fidelity: FID_ONE,
    };
    let c2r = one_q(&[(GateKind::Rx, units(0.11))], units(0.2));
    let c2l = one_q(&[(GateKind::Ry, units(0.12))], units(0.3));
    let c1r = one_q(&[(GateKind::Rx, units(0.13))], units(0.4));
    let c1l = one_q(&[(GateKind::Ry, units(0.14))], units(0.5));
    let r = d.circuit(&c2r, &c2l, &c1r, &c1l, true, 0);
    assert_eq!(r.gates.len(), 5);
    assert_eq!(r.gates[0].kind, GateKind::Rx);
    assert_eq!(r.gates[0].qubits, vec![0u8]);
    assert_eq!(r.gates[1].kind, GateKind::Ry);
    assert_eq!(r.gates[1].qubits, vec![1u8]);
    assert_eq!(r.gates[2].kind, GateKind::Rxx);
    assert_eq!(r.gates[3].kind, GateKind::Rx);
    assert_eq!(r.gates[3].qubits, vec![0u8]);
    assert_eq!(r.gates[4].kind, GateKind::Ry);
    assert_eq!(r.gates[4].qubits, vec![1u8]);
    // The record's phase plus all four correction layers' phases: the
    // circuit reproduces the unitary exactly.
    assert_eq!(
        r.global_phase,
        units(0.1) + units(0.2) + units(0.3) + units(0.4) + units(0.5)
    );
}

#[test]
fn identity_circuit_holds_no_interaction_gates() {
    // An identity-equivalent record with simplification on: the circuit
    // is exactly the four (here trivial) correction layers, with no
    // two-qubit gate in between.
    let d = TwoQubitWeylDecomposition {
        a: 0,
        b: 0,
        c: 0,
        global_phase: 0,
        specialization: Specialization::IdEquiv,
        default_euler_basis: EulerBasis::Zyz,
        requested_fidelity: Some(fid_units(1.0 - 1e-9)),
        calculated_fidelity: FID_ONE,
    };
    let r = d.circuit(&empty_q(), &empty_q(), &empty_q(), &empty_q(), true, 0);
    assert_eq!(r.gates.len(), 0);
    assert_eq!(r.global_phase, 0);
    let one = one_q(&[(GateKind::Rz, units(0.1))], 0);
    let r2 = d.circuit(&one, &empty_q(), &empty_q(), &empty_q(), true, 0);
    assert_eq!(r2.gates.len(), 1);
    assert_eq!(r2.gates[0].kind, GateKind::Rz);
}

#[test]
fn rxx_gate_family_with_itself_has_unit_scale() {
    // Probing RXX with RXX: every residual vanishes and all three
    // probes report the same scale of one.
    assert_eq!(
        check_rxx_equivalence(0, 0, 0, FID_ONE, FID_ONE, FID_ONE, 0, 0),
        Ok(FID_ONE)
    );
}

#[test]
fn inconsistent_probe_scales_are_rejected() {
    assert_eq!(
        check_rxx_equivalence(0, 0, 0, FID_ONE, FID_ONE + 5, FID_ONE, 0, 1),
        Err(SynthError::GateEquivalenceCheckFailure)
    );
    assert_eq!(
        check_rxx_equivalence(units(0.01), 0, 0, FID_ONE, FID_ONE, FID_ONE, 0, 0),
        Err(SynthError::GateEquivalenceCheckFailure)
    );
}

#[test]
fn basis_gate_count_counts_nonzero_coordinates() {
    assert_eq!(num_basis_gates_inner(units(0.5), units(0.2), units(0.1), 0), 3);
    assert_eq!(num_basis_gates_inner(units(0.5), 0, 0, 0), 1);
    assert_eq!(num_basis_gates_inner(0, 0, 0, 0), 0);
}

#[test]
fn rxx_third_turn_synthesizes_one_application() {
    // The target RXX(pi/3) has canonical coordinates (pi/6, 0, 0): one
    // application of the user gate, at the scaled angle of magnitude
    // pi/3, with no extra interaction gates.
    let a = units(std::f64::consts::PI / 6.0);
    assert_eq!(num_basis_gates_inner(a, 0, 0, 0), 1);
    let angle = scaled_angle(FID_ONE, -2 * a);
    assert_eq!(angle, -2 * a);
    let dec = TwoQubitControlledUDecomposer {
        rxx_gate: GateKind::Rxx,
        euler_basis: EulerBasis::Zxz,
        scale: FID_ONE,
    };
    let factors = RxxFactors {
        phase: 0,
        k1r: empty_q(),
        k1l: empty_q(),
        k2r: empty_q(),
        k2l: empty_q(),
    };
    let circ = dec.to_rxx_gate(angle, &factors);
    assert_eq!(circ.gates.len(), 1);
    assert_eq!(circ.gates[0].kind, GateKind::Rxx);
    assert_eq!(circ.gates[0].params, vec![-2 * a]);
    assert_eq!(circ.gates[0].qubits, vec![0u8, 1u8]);
    assert_eq!(circ.global_phase, 0);
}

#[test]
fn to_rxx_gate_inverts_the_outer_corrections() {
    let dec = TwoQubitControlledUDecomposer {
        rxx_gate: GateKind::Custom,
        euler_basis: EulerBasis::Zxz,
        scale: FID_ONE,
    };
    let factors = RxxFactors {
        phase: units(0.1),
        k1r: one_q(&[(GateKind::Rz, units(0.2))], units(0.01)),
        k1l: one_q(&[(GateKind::Rx, units(0.3))], units(0.02)),
        k2r: one_q(&[(GateKind::Rz, units(0.4)), (GateKind::Rx, units(0.5))], units(0.03)),
        k2l: empty_q(),
    };
    let circ = dec.to_rxx_gate(units(0.7), &factors);
    // Inverted K2r comes reversed: Rx(-0.5) then Rz(-0.4).
    assert_eq!(circ.gates.len(), 5);
    assert_eq!(circ.gates[0].kind, GateKind::Rx);
    assert_eq!(circ.gates[0].params, vec![-units(0.5)]);
    assert_eq!(circ.gates[1].kind, GateKind::Rz);
    assert_eq!(circ.gates[1].params, vec![-units(0.4)]);
    assert_eq!(circ.gates[2].kind, GateKind::Custom);
    assert_eq!(circ.gates[2].params, vec![units(0.7)]);
    assert_eq!(circ.gates[3].kind, GateKind::Rz);
    assert_eq!(circ.gates[3].params, vec![-units(0.2)]);
    assert_eq!(circ.gates[3].qubits, vec![0u8]);
    assert_eq!(circ.gates[4].kind, GateKind::Rx);
    assert_eq!(circ.gates[4].params, vec![-units(0.3)]);
    assert_eq!(circ.gates[4].qubits, vec![1u8]);
    assert_eq!(
        circ.global_phase,
        -units(0.1) - units(0.01) - units(0.02) - units(0.03)
    );
}

#[test]
fn controlled_weyl_gate_wraps_second_and_third_coordinates() {
    let dec = TwoQubitControlledUDecomposer {
        rxx_gate: GateKind::Custom,
        euler_basis: EulerBasis::Zxz,
        scale: FID_ONE,
    };
    let circ_a = TwoQubitGateSequence {
        gates: vec![],
        global_phase: units(0.1),
    };
    let circ_b = TwoQubitGateSequence {
        gates: vec![],
        global_phase: units(0.2),
    };
    let circ_c = TwoQubitGateSequence {
        gates: vec![],
        global_phase: units(0.3),
    };
    let sdg = one_q(&[(GateKind::Rz, -PI_2)], -PI_4);
    let s = one_q(&[(GateKind::Rz, PI_2)], PI_4);
    let h = one_q(&[(GateKind::Rz, PI_2), (GateKind::Sx, 0), (GateKind::Rz, PI_2)], PI_2);
    let mut circ = TwoQubitGateSequence::new();
    let b = units(0.2);
    let c = -units(0.1);
    dec.weyl_gate(&mut circ, &circ_a, &circ_b, &circ_c, &sdg, &s, &h, b, c, 0);
    // b branch: sdg pair + s pair; c branch: two h pairs; no sub-circuit
    // gates since those lists are empty here.
    assert_eq!(circ.gates.len(), 2 + 2 + 6 + 6);
    assert_eq!(circ.gates[0].qubits, vec![0u8]);
    assert_eq!(circ.gates[1].qubits, vec![1u8]);
    // Phase: a + (b + 2 sdg + 2 s) + (-c + 4 h), with the c sub-circuit
    // phase negated because c is negative and its inverse is appended.
    assert_eq!(
        circ.global_phase,
        units(0.1) + (units(0.2) + 2 * (-PI_4) + 2 * PI_4) + (-units(0.3) + 4 * PI_2)
    );
}

#[test]
fn two_use_pulse_form_pins_the_inner_pattern() {
    let eu0 = vec![
        EulerSet { theta: units(0.1), phi: units(0.2), lam: units(0.3), phase: units(0.01) },
        EulerSet { theta: units(0.4), phi: units(0.5), lam: units(0.6), phase: units(0.02) },
        EulerSet { theta: units(0.7), phi: units(0.8), lam: units(0.9), phase: units(0.03) },
    ];
    let eu1 = vec![
        EulerSet { theta: units(1.0), phi: units(1.1), lam: units(1.2), phase: units(0.04) },
        EulerSet { theta: units(1.3), phi: units(1.4), lam: units(1.5), phase: units(0.05) },
        EulerSet { theta: units(1.6), phi: units(1.7), lam: units(1.8), phase: units(0.06) },
    ];
    let r = two_cx_efficient_euler(
        units(0.5),
        units(0.25),
        &eu0,
        &eu1,
        &empty_q(),
        &empty_q(),
        &empty_q(),
        &empty_q(),
    );
    assert_eq!(r.gates.len(), 6);
    assert_eq!(r.gates[0].kind, GateKind::Cx);
    assert_eq!(r.gates[1].kind, GateKind::Sx);
    assert_eq!(r.gates[2].kind, GateKind::Rz);
    assert_eq!(r.gates[2].params, vec![units(0.4) - PI]);
    assert_eq!(r.gates[3].kind, GateKind::Sx);
    assert_eq!(r.gates[4].kind, GateKind::Rz);
    assert_eq!(r.gates[4].params, vec![units(1.3)]);
    assert_eq!(r.gates[4].qubits, vec![1u8]);
    assert_eq!(r.gates[5].kind, GateKind::Cx);
    let eu_phases = units(0.01) + units(0.02) + units(0.03) + units(0.04) + units(0.05)
        + units(0.06);
    assert_eq!(r.global_phase, units(0.5) - 2 * units(0.25) + eu_phases + PI_2);
}

fn three_cx_eus(phi1: i64, lam2: i64) -> (Vec<EulerSet>, Vec<EulerSet>) {
    let mk = |theta: i64, phi: i64, lam: i64| EulerSet { theta, phi, lam, phase: 0 };
    let eu0 = vec![
        mk(units(0.1), units(0.2), units(0.3)),
        mk(units(0.4), phi1, units(0.6)),
        mk(units(0.7), units(0.8), lam2),
        mk(units(0.9), units(1.0), units(1.1)),
    ];
    let eu1 = vec![
        mk(units(0.1), units(0.2), units(0.3)),
        mk(PI_2, units(0.5), units(0.6)),
        mk(PI_2, units(0.8), units(0.9)),
        mk(units(1.0), units(1.1), units(1.2)),
    ];
    (eu0, eu1)
}

#[test]
fn three_use_pulse_form_refuses_generic_middle_rotation_when_mandatory() {
    // x12 = 0.5 + 0.3: neither a multiple of pi nor a quarter turn.
    let (eu0, eu1) = three_cx_eus(units(0.5), units(0.3));
    let r = three_cx_efficient_euler(
        0,
        0,
        &eu0,
        &eu1,
        &empty_q(),
        &empty_q(),
        &empty_q(),
        &empty_q(),
        &empty_q(),
        &empty_q(),
        &empty_q(),
        true,
        false,
        0,
    );
    assert!(r.is_none());
}

#[test]
fn three_use_pulse_form_uses_sx_on_a_quarter_turn() {
    // x12 exactly pi/2: the middle rotation becomes one SX gate.
    let (eu0, eu1) = three_cx_eus(PI_4, PI_4);
    let r = three_cx_efficient_euler(
        0,
        0,
        &eu0,
        &eu1,
        &empty_q(),
        &empty_q(),
        &empty_q(),
        &empty_q(),
        &empty_q(),
        &empty_q(),
        &empty_q(),
        true,
        false,
        0,
    )
    .unwrap();
    // CX, SX(q0), SX(q1), RZ(q1), CX, RZ(q0), SX(q1), CX.
    assert_eq!(r.gates.len(), 8);
    assert_eq!(r.gates[0].kind, GateKind::Cx);
    assert_eq!(r.gates[0].qubits, vec![1u8, 0u8]);
    assert_eq!(r.gates[1].kind, GateKind::Sx);
    assert_eq!(r.gates[1].qubits, vec![0u8]);
    assert_eq!(r.gates[2].kind, GateKind::Sx);
    assert_eq!(r.gates[2].qubits, vec![1u8]);
    assert_eq!(r.gates[3].kind, GateKind::Rz);
    assert_eq!(r.gates[3].params, vec![units(0.5) + units(0.9)]);
    assert_eq!(r.gates[4].kind, GateKind::Cx);
    assert_eq!(r.gates[5].kind, GateKind::Rz);
    assert_eq!(r.gates[5].params, vec![units(0.7)]);
    assert_eq!(r.gates[6].kind, GateKind::Sx);
    assert_eq!(r.gates[7].kind, GateKind::Cx);
    // Three quarter-turn shortcuts, each worth -pi/4 of phase.
    assert_eq!(r.global_phase, -3 * PI_4);
}

#[test]
fn three_use_pulse_form_handles_pi_multiples_virtually() {
    // x12 exactly pi: an odd multiple, commuted into RZ(-theta) with a
    // phase of -pi.
    let (eu0, eu1) = three_cx_eus(PI_2, PI_2);
    let r = three_cx_efficient_euler(
        0,
        0,
        &eu0,
        &eu1,
        &empty_q(),
        &empty_q(),
        &empty_q(),
        &empty_q(),
        &empty_q(),
        &empty_q(),
        &empty_q(),
        true,
        true,
        0,
    )
    .unwrap();
    assert_eq!(r.gates.len(), 8);
    assert_eq!(r.gates[1].kind, GateKind::Rz);
    assert_eq!(r.gates[1].params, vec![-units(0.4)]);
    // Phase: -pi for the odd multiple, two -pi/4 shortcuts on qubit 1,
    // and +pi for the recorded sign flip.
    assert_eq!(r.global_phase, -PI - 2 * PI_4 + PI);
}

#[test]
fn gate_sequence_state_round_trips() {
    let mut seq = TwoQubitGateSequence::default();
    assert_eq!(seq.gates().len(), 0);
    assert_eq!(seq.global_phase(), 0);
    seq.push(GateKind::X, vec![], vec![0u8]);
    assert_eq!(seq.gates().len(), 1);
    let gates = seq.gates().clone();
    let mut other = TwoQubitGateSequence::new();
    other.set_state((gates, units(0.5)));
    assert_eq!(other.gates.len(), 1);
    assert_eq!(other.global_phase(), units(0.5));
}

#[test]
fn gate_inversion_negates_rotations_and_swaps_adjoints() {
    let (k, p) = invert_1q_gate(GateKind::Rz, &vec![units(0.4)]);
    assert_eq!(k, GateKind::Rz);
    assert_eq!(p, vec![-units(0.4)]);
    let (k, p) = invert_1q_gate(GateKind::Sx, &vec![]);
    assert_eq!(k, GateKind::Sxdg);
    assert!(p.is_empty());
    let (k, _) = invert_1q_gate(GateKind::Sdg, &vec![]);
    assert_eq!(k, GateKind::S);
    let (k, p) = invert_1q_gate(GateKind::U, &vec![units(0.1), units(0.2), units(0.3)]);
    assert_eq!(k, GateKind::U);
    assert_eq!(p, vec![-units(0.1), -units(0.3), -units(0.2)]);
    let (k, p) = invert_1q_gate(GateKind::X, &vec![]);
    assert_eq!(k, GateKind::X);
    assert!(p.is_empty());
}

#[test]
fn controlled_u_construction_fixes_the_common_scale() {
    let r = TwoQubitControlledUDecomposer::new_inner(
        GateKind::Rxx,
        EulerBasis::Zxz,
        0,
        0,
        0,
        FID_ONE,
        FID_ONE,
        FID_ONE,
        0,
        0,
    )
    .unwrap();
    assert_eq!(r.scale, FID_ONE);
    assert_eq!(r.rxx_gate, GateKind::Rxx);
    let bad = TwoQubitControlledUDecomposer::new_inner(
        GateKind::Rxx,
        EulerBasis::Zxz,
        0,
        0,
        units(0.01),
        FID_ONE,
        FID_ONE,
        FID_ONE,
        0,
        0,
    );
    assert_eq!(bad.err().unwrap(), SynthError::GateEquivalenceCheckFailure);
}

#[test]
fn three_use_begin_angle_compensates_pi_multiples() {
    let mk = |theta: i64, phi: i64, lam: i64| EulerSet { theta, phi, lam, phase: 0 };
    // Generic commuted angle: the plain sum of phi and lambda.
    let generic = vec![
        mk(0, units(0.3), 0),
        mk(0, units(0.4), units(0.2)),
        mk(0, 0, units(0.5)),
        mk(0, 0, 0),
    ];
    assert_eq!(three_cx_begin_angle(&generic, 0), units(0.3) + units(0.2));
    // Commuted angle exactly pi: the whole angle less lambda is
    // subtracted instead.
    let pi_case = vec![
        mk(0, units(0.3), 0),
        mk(0, PI_2, units(0.2)),
        mk(0, 0, PI_2),
        mk(0, 0, 0),
    ];
    assert_eq!(
        three_cx_begin_angle(&pi_case, 0),
        units(0.3) - (PI - units(0.2))
    );
}
