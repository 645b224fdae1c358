//! Gate vocabulary and ordered gate sequences.
//!
//! A synthesis result is an ordered list of (operation, parameter list,
//! qubit list) triples together with one accumulated global phase, all in
//! fixed-point angle units.

use vstd::prelude::*;

verus! {

/// Rotation bases for the external one-qubit Euler decomposer.
#[derive(Clone, Copy, Debug, PartialEq, Eq, Structural)]
pub enum EulerBasis {
    Zyz,
    Zxz,
    Xyx,
    Xzx,
    Zsx,
    Zsxx,
    U,
}

/// The operations a synthesized sequence can hold. `Basis` stands for the
/// caller's entangling gate; `Custom` for a user-supplied one-parameter
/// two-qubit gate.
#[derive(Clone, Copy, Debug, PartialEq, Eq, Structural)]
pub enum GateKind {
    Rx,
    Ry,
    Rz,
    Sx,
    Sxdg,
    X,
    H,
    S,
    Sdg,
    U,
    Cx,
    Swap,
    Rxx,
    Ryy,
    Rzz,
    Basis,
    Custom,
}

/// One emitted operation: a kind, its real parameters in angle units, and
/// the qubit indices it acts on.
#[derive(Clone, Debug)]
pub struct Gate {
    pub kind: GateKind,
    pub params: Vec<i64>,
    pub qubits: Vec<u8>,
}

/// Spec-level picture of a gate.
pub ghost struct GateModel {
    pub kind: GateKind,
    pub params: Seq<i64>,
    pub qubits: Seq<u8>,
}

impl Gate {
    pub open spec fn model(self) -> GateModel {
        GateModel { kind: self.kind, params: self.params@, qubits: self.qubits@ }
    }
}

/// A gate is a given kind with given parameters and qubits.
pub open spec fn gate_is(g: Gate, kind: GateKind, params: Seq<i64>, qubits: Seq<u8>) -> bool {
    g.kind == kind && g.params@ =~= params && g.qubits@ =~= qubits
}

/// An ordered gate list with one global phase, in angle units.
#[derive(Clone, Debug)]
pub struct TwoQubitGateSequence {
    pub gates: Vec<Gate>,
    pub global_phase: i64,
}

impl TwoQubitGateSequence {
    /// An empty sequence with zero phase.
    pub fn new() -> (r: TwoQubitGateSequence)
        ensures
            r.gates@.len() == 0,
            r.global_phase == 0,
    {
        TwoQubitGateSequence { gates: Vec::new(), global_phase: 0 }
    }

    /// The list of operations.
    pub fn gates(&self) -> (r: &Vec<Gate>)
        ensures
            r@ == self.gates@,
    {
        &self.gates
    }

    /// The accumulated global phase.
    pub fn global_phase(&self) -> (r: i64)
        ensures
            r == self.global_phase,
    {
        self.global_phase
    }

    /// Replaces the whole state at once.
    pub fn set_state(&mut self, state: (Vec<Gate>, i64))
        ensures
            final(self).gates@ == state.0@,
            final(self).global_phase == state.1,
    {
        self.gates = state.0;
        self.global_phase = state.1;
    }

    /// Appends one gate.
    pub fn push(&mut self, kind: GateKind, params: Vec<i64>, qubits: Vec<u8>)
        ensures
            final(self).gates@.len() == old(self).gates@.len() + 1,
            forall|i: int| 0 <= i < old(self).gates@.len() ==> #[trigger] final(self).gates@[i]
                == old(self).gates@[i],
            gate_is(final(self).gates@[old(self).gates@.len() as int], kind, params@, qubits@),
            final(self).global_phase == old(self).global_phase,
    {
        let g = Gate { kind, params, qubits };
        self.gates.push(g);
    }
}

impl Default for TwoQubitGateSequence {
    fn default() -> (r: Self)
        ensures
            r.gates@.len() == 0,
            r.global_phase == 0,
    {
        TwoQubitGateSequence { gates: Vec::new(), global_phase: 0 }
    }
}

/// A one-qubit operation as the external Euler decomposer reports it:
/// a kind and its parameters, with no qubit attached yet.
#[derive(Clone, Debug)]
pub struct OneQubitGate {
    pub kind: GateKind,
    pub params: Vec<i64>,
}

/// What the external one-qubit decomposer returns for one 2x2 unitary:
/// an ordered list of rotations and a global phase.
#[derive(Clone, Debug)]
pub struct OneQubitSequence {
    pub gates: Vec<OneQubitGate>,
    pub global_phase: i64,
}

/// Whether inverting a kind negates its parameters.
pub open spec fn negate_params(kind: GateKind) -> bool {
    match kind {
        GateKind::Rx | GateKind::Ry | GateKind::Rz | GateKind::Rxx | GateKind::Ryy
        | GateKind::Rzz | GateKind::Custom | GateKind::Basis => true,
        _ => false,
    }
}

fn negate_params_exec(kind: GateKind) -> (r: bool)
    ensures
        r == negate_params(kind),
{
    match kind {
        GateKind::Rx | GateKind::Ry | GateKind::Rz | GateKind::Rxx | GateKind::Ryy
        | GateKind::Rzz | GateKind::Custom | GateKind::Basis => true,
        _ => false,
    }
}

/// Parameters of the inverse of a gate: rotation kinds negate their
/// angle; a U gate negates all three Euler angles and swaps the last two;
/// other kinds keep their parameters.
pub open spec fn invert_params(kind: GateKind, params: Seq<i64>) -> Seq<i64> {
    if kind == GateKind::U && params.len() == 3 {
        seq![(-params[0]) as i64, (-params[2]) as i64, (-params[1]) as i64]
    } else if negate_params(kind) {
        params.map_values(|p: i64| (-p) as i64)
    } else {
        params
    }
}

/// The inverse of a one-qubit operation this library emits: the adjoint
/// kind with the parameters of `invert_params`.
pub fn invert_1q_gate(kind: GateKind, params: &Vec<i64>) -> (r: (GateKind, Vec<i64>))
    requires
        forall|i: int| 0 <= i < params@.len() ==> -0x4000_0000_0000_0000 < #[trigger] params@[i],
    ensures
        r.0 == invert_1q_kind(kind),
        r.1@ == invert_params(kind, params@),
{
    if matches!(kind, GateKind::U) && params.len() == 3 {
        let p0: i64 = -params[0];
        let p1: i64 = -params[2];
        let p2: i64 = -params[1];
        let out: Vec<i64> = vec![p0, p1, p2];
        proof {
            assert(out@ =~= invert_params(kind, params@));
        }
        (invert_1q_kind_exec(kind), out)
    } else if negate_params_exec(kind) {
        let mut out: Vec<i64> = Vec::new();
        let mut i: usize = 0;
        while i < params.len()
            invariant
                i <= params@.len(),
                out@.len() == i,
                forall|j: int| 0 <= j < i ==> #[trigger] out@[j] == -params@[j],
                forall|j: int| 0 <= j < params@.len() ==> -0x4000_0000_0000_0000 < #[trigger] params@[j],
            decreases params@.len() - i,
        {
            out.push(-params[i]);
            i = i + 1;
        }
        proof {
            assert(out@ =~= invert_params(kind, params@));
        }
        (invert_1q_kind_exec(kind), out)
    } else {
        (invert_1q_kind_exec(kind), params.clone())
    }
}

/// The inverse kind of each kind.
pub open spec fn invert_1q_kind(kind: GateKind) -> GateKind {
    match kind {
        GateKind::Sx => GateKind::Sxdg,
        GateKind::Sxdg => GateKind::Sx,
        GateKind::S => GateKind::Sdg,
        GateKind::Sdg => GateKind::S,
        _ => kind,
    }
}

fn invert_1q_kind_exec(kind: GateKind) -> (r: GateKind)
    ensures
        r == invert_1q_kind(kind),
{
    match kind {
        GateKind::Sx => GateKind::Sxdg,
        GateKind::Sxdg => GateKind::Sx,
        GateKind::S => GateKind::Sdg,
        GateKind::Sdg => GateKind::S,
        _ => kind,
    }
}

/// Inverting twice gives back the same kind.
pub proof fn lemma_invert_1q_kind_involution(kind: GateKind)
    ensures
        invert_1q_kind(invert_1q_kind(kind)) == kind,
{
}

/// Inversion is an involution on whole operations: inverting the
/// inverted kind with the inverted parameters restores the parameters,
/// provided none sits at the extreme representable value.
pub proof fn lemma_invert_params_involution(kind: GateKind, params: Seq<i64>)
    ensures
        (forall|i: int| 0 <= i < params.len() ==> -0x8000_0000_0000_0000
            < #[trigger] params[i]) ==> invert_params(
            invert_1q_kind(kind),
            invert_params(kind, params),
        ) =~= params,
{
    if forall|i: int| 0 <= i < params.len() ==> -0x8000_0000_0000_0000 < #[trigger] params[i] {
        let once = invert_params(kind, params);
        let twice = invert_params(invert_1q_kind(kind), once);
        assert forall|i: int| 0 <= i < params.len() implies #[trigger] twice[i]
            == params[i] by {
            if kind == GateKind::U && params.len() == 3 {
            } else if negate_params(kind) {
                assert(once[i] == (-params[i]) as i64);
            }
        };
    }
}

} // verus!
