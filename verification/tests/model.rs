use weyl_synth::angles::{PI, PI_2, PI_3_2, PI_4, TWO_PI};
use weyl_synth::chamber::{reduce, weyl_coordinates};
use weyl_synth::errors::SynthError;
use weyl_synth::sequence::EulerBasis;
use weyl_synth::specialize::{
    apply_specialization, check_fidelity, closest_partial_swap, select_specialization,
    CandidateFidelities, Specialization, FID_ONE,
};
use weyl_synth::weyl::{check_left_det, choose_product_block, TwoQubitWeylDecomposition};

fn units(rad: f64) -> i64 {
    (rad / std::f64::consts::PI * 1073741824.0).round() as i64
}

fn fid_units(f: f64) -> i64 {
    (f * 1e9).round() as i64
}

#[test]
fn angle_units_are_exact_for_quarter_turns() {
    assert_eq!(units(std::f64::consts::PI / 4.0), PI_4);
    assert_eq!(units(std::f64::consts::PI / 2.0), PI_2);
    assert_eq!(units(std::f64::consts::PI), PI);
    assert_eq!(units(1.5 * std::f64::consts::PI), PI_3_2);
    assert_eq!(units(2.0 * std::f64::consts::PI), TWO_PI);
}

#[test]
fn reduce_keeps_chamber_triple_with_positive_c() {
    let a = units(0.7);
    let b = units(0.5);
    let c = units(0.3);
    // The reduction takes the coordinates in slot order (b, a, c).
    let r = reduce(b, a, c);
    assert_eq!((r.a, r.b, r.c), (a, b, c));
    assert!(!r.wrap_a && !r.wrap_b && !r.conj_a && !r.conj_b);
    assert!(!r.wrap_c && !r.conj_c && !r.shift_c);
    assert_eq!(r.phase, 0);
}

#[test]
fn reduce_keeps_chamber_triple_with_negative_c() {
    let a = units(0.7);
    let b = units(0.5);
    let c = -units(0.3);
    let r = reduce(b, a, c + TWO_PI);
    assert_eq!((r.a, r.b, r.c), (a, b, c));
}

#[test]
fn reduce_output_is_always_in_the_chamber() {
    let samples = [
        (units(1.1), units(0.2), units(5.9)),
        (units(0.0), units(1.5), units(4.9)),
        (units(1.57), units(1.56), units(6.0)),
        (units(0.4), units(0.3), units(0.2)),
    ];
    for (c0, c1, c2) in samples {
        let r = reduce(c0, c1, c2);
        assert!(r.a <= PI_4);
        assert!(0 <= r.b && r.b <= r.a);
        assert!(r.c.abs() <= r.b);
    }
}

#[test]
fn reduce_wraps_a_coordinate_beyond_a_half_turn() {
    // 5.9 rad sits just below 2 pi: it is wrapped by 3 pi / 2 and the
    // flip is recorded so the matrix front end can mirror it.
    let r = reduce(units(5.9), units(0.1), units(0.2));
    assert!(r.wrap_b || r.wrap_a || r.wrap_c);
}

#[test]
fn weyl_coordinates_of_identity_phases_are_zero() {
    let (r, c0, c1, c2) = weyl_coordinates(0, 0, 0);
    assert_eq!((c0, c1, c2), (0, 0, 0));
    assert_eq!((r.a, r.b, r.c), (0, 0, 0));
    assert_eq!(r.phase, 0);
}

#[test]
fn weyl_coordinates_sorts_by_folding_key() {
    // d-phases giving distinct folded keys; the permutation must place
    // the largest key in the a slot and the smallest in the c slot.
    let (r, _, _, _) = weyl_coordinates(units(0.3), units(-0.2), units(0.1));
    assert!(r.a <= PI_4);
    assert!(r.b <= r.a);
    assert!(r.c.abs() <= r.b);
    let p = [r.p0, r.p1, r.p2];
    let mut sorted = p;
    sorted.sort();
    assert_eq!(sorted, [0, 1, 2]);
}

#[test]
fn from_u8_round_trips_all_discriminants() {
    let all = [
        Specialization::General,
        Specialization::IdEquiv,
        Specialization::SwapEquiv,
        Specialization::PartialSwapEquiv,
        Specialization::PartialSwapFlipEquiv,
        Specialization::ControlledEquiv,
        Specialization::MirrorControlledEquiv,
        Specialization::FSimAabEquiv,
        Specialization::FSimAbbEquiv,
        Specialization::FSimAbmbEquiv,
    ];
    for (i, s) in all.iter().enumerate() {
        assert_eq!(Specialization::from_u8(i as u8).unwrap(), *s);
    }
    assert_eq!(
        Specialization::from_u8(10),
        Err(SynthError::UnknownSpecialization { value: 10 })
    );
}

#[test]
fn closest_partial_swap_is_exact_on_the_diagonal() {
    let x = units(0.37);
    assert_eq!(closest_partial_swap(x, x, x), x);
    assert_eq!(closest_partial_swap(0, 0, 0), 0);
}

#[test]
fn closest_partial_swap_stays_near_the_mean() {
    let a = units(0.7);
    let b = units(0.5);
    let c = units(0.3);
    let m = (a + b + c) / 3;
    let r = closest_partial_swap(a, b, c);
    // The cubic correction is small compared with the mean here.
    assert!((r - m).abs() < units(0.05));
}

#[test]
fn specialization_selection_follows_priority_order() {
    let t = fid_units(0.999);
    let none = CandidateFidelities {
        id: 0,
        swap_pos: 0,
        swap_neg: 0,
        partial_swap: 0,
        partial_swap_flip: 0,
        controlled: 0,
        mirror_controlled: 0,
        fsim_aab: 0,
        fsim_abb: 0,
        fsim_abmb: 0,
    };
    assert_eq!(
        select_specialization(None, &none, Some(t)),
        Specialization::General
    );
    let id_wins = CandidateFidelities { id: FID_ONE, ..none };
    assert_eq!(
        select_specialization(None, &id_wins, Some(t)),
        Specialization::IdEquiv
    );
    let swap_wins = CandidateFidelities { swap_neg: FID_ONE, ..none };
    assert_eq!(
        select_specialization(None, &swap_wins, Some(t)),
        Specialization::SwapEquiv
    );
    let late = CandidateFidelities { fsim_abmb: FID_ONE, ..none };
    assert_eq!(
        select_specialization(None, &late, Some(t)),
        Specialization::FSimAbmbEquiv
    );
    // Identity beats swap when both match.
    let both = CandidateFidelities { id: FID_ONE, swap_pos: FID_ONE, ..none };
    assert_eq!(
        select_specialization(None, &both, Some(t)),
        Specialization::IdEquiv
    );
    // Without a requested fidelity nothing specializes.
    assert_eq!(
        select_specialization(None, &id_wins, None),
        Specialization::General
    );
    // A forced specialization always wins.
    assert_eq!(
        select_specialization(Some(Specialization::SwapEquiv), &id_wins, Some(t)),
        Specialization::SwapEquiv
    );
}

#[test]
fn id_and_swap_specializations_pin_the_coordinates() {
    let a = units(0.02);
    let b = units(0.01);
    let c = units(0.005);
    let id = apply_specialization(Specialization::IdEquiv, a, b, c);
    assert_eq!((id.a, id.b, id.c), (0, 0, 0));
    assert!(!id.flipped_from_original);
    let swap = apply_specialization(Specialization::SwapEquiv, a, b, c);
    assert_eq!((swap.a, swap.b, swap.c), (PI_4, PI_4, PI_4));
}

#[test]
fn swap_specialization_flips_on_nonpositive_c() {
    let a = units(0.7);
    let b = units(0.7);
    let pos = apply_specialization(Specialization::SwapEquiv, a, b, units(0.7));
    assert!(!pos.flipped_from_original);
    assert_eq!(pos.phase_add, 0);
    let neg = apply_specialization(Specialization::SwapEquiv, a, b, -units(0.7));
    assert!(neg.flipped_from_original);
    assert_eq!(neg.phase_add, PI_2);
}

#[test]
fn fsim_families_average_the_coordinates() {
    let a = units(0.7);
    let b = units(0.5);
    let c = units(0.1);
    let aab = apply_specialization(Specialization::FSimAabEquiv, a, b, c);
    assert_eq!((aab.a, aab.b, aab.c), ((a + b) / 2, (a + b) / 2, c));
    assert_eq!(aab.euler_basis, EulerBasis::Zyz);
    let abb = apply_specialization(Specialization::FSimAbbEquiv, a, b, c);
    assert_eq!((abb.a, abb.b, abb.c), (a, (b + c) / 2, (b + c) / 2));
    assert_eq!(abb.euler_basis, EulerBasis::Xyx);
    let abmb = apply_specialization(Specialization::FSimAbmbEquiv, a, b, c);
    assert_eq!(
        (abmb.a, abmb.b, abmb.c),
        (a, (b - c) / 2, -((b - c) / 2))
    );
    let ctrl = apply_specialization(Specialization::ControlledEquiv, a, b, c);
    assert_eq!((ctrl.a, ctrl.b, ctrl.c), (a, 0, 0));
    assert_eq!(ctrl.euler_basis, EulerBasis::Xyx);
    let mirror = apply_specialization(Specialization::MirrorControlledEquiv, a, b, c);
    assert_eq!((mirror.a, mirror.b, mirror.c), (PI_4, PI_4, c));
}

#[test]
fn fidelity_check_passes_iff_achieved_reaches_requested() {
    assert_eq!(check_fidelity(fid_units(0.9999), Some(fid_units(0.999))), Ok(()));
    assert_eq!(check_fidelity(fid_units(0.9), None), Ok(()));
    assert_eq!(
        check_fidelity(fid_units(0.9), Some(fid_units(0.999))),
        Err(SynthError::FidelityBelowRequest {
            calculated: fid_units(0.9),
            requested: fid_units(0.999),
        })
    );
}

#[test]
fn forcing_identity_on_a_generic_target_fails_the_fidelity_gate() {
    // A generic in-chamber triple, forced to the identity family: the
    // achieved trace fidelity of the discarded interaction falls far
    // short of the near-one request, so construction must fail.
    let a = 0.6f64;
    let b = 0.4f64;
    let c = 0.2f64;
    let coords = apply_specialization(Specialization::IdEquiv, units(a), units(b), units(c));
    let tr_re = 4.0 * (a.cos() * b.cos() * c.cos());
    let tr_im = 4.0 * (a.sin() * b.sin() * c.sin());
    let calculated = fid_units((4.0 + tr_re * tr_re + tr_im * tr_im) / 20.0);
    let requested = Some(fid_units(1.0 - 1e-9));
    let r = TwoQubitWeylDecomposition::new_inner(
        Specialization::IdEquiv,
        &coords,
        0,
        0,
        calculated,
        requested,
    );
    let e = r.err().unwrap();
    assert_eq!(
        e,
        SynthError::FidelityBelowRequest {
            calculated,
            requested: fid_units(1.0 - 1e-9),
        }
    );
}

#[test]
fn new_inner_assembles_the_record() {
    let coords = apply_specialization(Specialization::General, units(0.7), units(0.5), units(0.3));
    let r = TwoQubitWeylDecomposition::new_inner(
        Specialization::General,
        &coords,
        units(0.25),
        units(0.125),
        FID_ONE,
        Some(fid_units(1.0 - 1e-9)),
    )
    .unwrap();
    assert_eq!((r.a(), r.b(), r.c()), (units(0.7), units(0.5), units(0.3)));
    assert_eq!(r.global_phase, units(0.25) + units(0.125));
    assert_eq!(r.specialization, Specialization::General);
    assert_eq!(r.calculated_fidelity, FID_ONE);
}

#[test]
fn product_block_choice_prefers_the_upper_block() {
    assert_eq!(choose_product_block(fid_units(0.8), fid_units(0.0)), Ok(false));
    assert_eq!(choose_product_block(fid_units(0.05), fid_units(0.8)), Ok(true));
    assert_eq!(
        choose_product_block(fid_units(0.05), fid_units(0.05)),
        Err(SynthError::ProductDecompositionFailure)
    );
    assert_eq!(check_left_det(fid_units(0.95)), Ok(()));
    assert_eq!(
        check_left_det(fid_units(0.85)),
        Err(SynthError::ProductDecompositionFailure)
    );
}

#[test]
fn decomposition_record_exposes_its_coordinates() {
    let d = TwoQubitWeylDecomposition {
        a: units(0.3),
        b: units(0.2),
        c: units(0.1),
        global_phase: 0,
        specialization: Specialization::General,
        default_euler_basis: EulerBasis::Zyz,
        requested_fidelity: None,
        calculated_fidelity: FID_ONE,
    };
    assert_eq!(d.a(), units(0.3));
    assert_eq!(d.b(), units(0.2));
    assert_eq!(d.c(), units(0.1));
}

#[test]
fn integer_coordinates_match_a_float_reference() {
    // The fixed-point pipeline agrees with the same computation done in
    // floating point, up to one angle unit per arithmetic step.
    let d = [0.31f64, -0.47, 0.05];
    let (r, _, _, _) = weyl_coordinates(units(d[0]), units(d[1]), units(d[2]));
    let pi = std::f64::consts::PI;
    let d3 = -d[0] - d[1] - d[2];
    let cs: Vec<f64> = (0..3).map(|i| ((d[i] + d3) / 2.0).rem_euclid(2.0 * pi)).collect();
    let cstemp: Vec<f64> = cs
        .iter()
        .map(|x| {
            let m = x.rem_euclid(pi / 2.0);
            m.min(pi / 2.0 - m)
        })
        .collect();
    let mut order: Vec<usize> = vec![0, 1, 2];
    order.sort_by(|&x, &y| cstemp[x].partial_cmp(&cstemp[y]).unwrap());
    let (o0, o1, o2) = (order[1], order[2], order[0]);
    let mut sorted = [cs[o0], cs[o1], cs[o2]];
    let pi2 = pi / 2.0;
    let pi4 = pi / 4.0;
    let pi32 = 1.5 * pi;
    if sorted[0] > pi2 {
        sorted[0] -= pi32;
    }
    if sorted[1] > pi2 {
        sorted[1] -= pi32;
    }
    let mut conjs = 0;
    if sorted[0] > pi4 {
        sorted[0] = pi2 - sorted[0];
        conjs += 1;
    }
    if sorted[1] > pi4 {
        sorted[1] = pi2 - sorted[1];
        conjs += 1;
    }
    if sorted[2] > pi2 {
        sorted[2] -= pi32;
    }
    if conjs == 1 {
        sorted[2] = pi2 - sorted[2];
    }
    if sorted[2] > pi4 {
        sorted[2] -= pi2;
    }
    let to_units = |x: f64| (x / pi * 1073741824.0).round() as i64;
    assert!((r.a - to_units(sorted[1])).abs() <= 2);
    assert!((r.b - to_units(sorted[0])).abs() <= 2);
    assert!((r.c - to_units(sorted[2])).abs() <= 2);
}

#[test]
fn reduce_conjugation_branch_counts_an_odd_flip() {
    // A coordinate in (pi/4, pi/2] triggers exactly one conjugation, so
    // the third slot is mirrored as well.
    let r = reduce(units(1.2), units(0.1), units(0.2));
    assert!(r.conj_b || r.conj_a);
    assert!(r.conj_c);
    assert!(r.a <= PI_4 && r.b <= r.a && r.c.abs() <= r.b);
}
