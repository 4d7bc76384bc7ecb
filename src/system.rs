use vstd::prelude::*;
use ark_bls12_381::Fr;
use ark_ff::BigInt;
use ark_ff::One;
use ark_ff::PrimeField;
use ark_relations::r1cs::ConstraintSystemRef;
use ark_relations::r1cs::LinearCombination;
use ark_relations::r1cs::SynthesisError;
use ark_relations::r1cs::Variable;
use crate::field::modulus;
use crate::field::Scalar;

verus! {

/// A handle on an ark_relations constraint system over the scalar field of
/// BLS12-381. What it holds is seen through `system_view`.
#[verifier::external_body]
pub struct SystemHandle {
    pub cs: ConstraintSystemRef<Fr>,
}

/// A variable of a constraint system.
#[derive(Clone, Copy, Debug, PartialEq, Eq, Structural)]
pub enum Var {
    /// A public input, by its index among the instance variables.
    Instance(usize),
    /// A private witness, by its index among the witness variables.
    Witness(usize),
}

/// Why synthesis stopped.
#[derive(Clone, Copy, Debug, PartialEq, Eq, Structural)]
pub enum CircuitError {
    /// The constraint system handle was empty.
    MissingCs,
    /// A value was needed for a variable, and none was supplied.
    AssignmentMissing,
}

/// The outcome of one step of synthesis.
pub type Step = Result<(), CircuitError>;

/// A linear combination as a sequence of (coefficient, variable) terms.
pub type LcView = Seq<(int, Var)>;

/// A rank-1 constraint `l * r = o`.
pub type Row = (LcView, LcView, LcView);

/// What a constraint system holds, as plain values.
pub struct SystemView {
    /// The handle is empty (`ConstraintSystemRef::None`).
    pub absent: bool,
    /// The system is in setup mode: it records shape and no values.
    pub setup: bool,
    /// The system records each constraint's linear combinations.
    pub builds_matrices: bool,
    /// The number of instance variables, the constant one included.
    pub num_instances: nat,
    /// The number of witness variables.
    pub num_witnesses: nat,
    /// The values of the instance variables, canonical, the constant one first.
    pub instance_values: Seq<int>,
    /// The values of the witness variables, canonical.
    pub witness_values: Seq<int>,
    /// The number of constraints.
    pub num_constraints: nat,
    /// The recorded constraints, in order. Only constraints over instance
    /// and witness variables, the kind this library records, are pictured
    /// exactly.
    pub rows: Seq<Row>,
}

/// The state of the constraint system behind a handle.
pub uninterp spec fn system_view(h: SystemHandle) -> SystemView;

/// A linear combination of the given variables, each with coefficient one.
pub open spec fn unit_lc(vars: Seq<Var>) -> LcView {
    vars.map_values(|v: Var| (1int, v))
}

/// The view after a new witness variable: the count grows by one, and
/// outside setup mode a supplied value is appended.
pub open spec fn with_witness(v: SystemView, value: Option<int>) -> SystemView {
    SystemView {
        num_witnesses: v.num_witnesses + 1,
        witness_values: if !v.setup && value is Some {
            v.witness_values.push(value->0)
        } else {
            v.witness_values
        },
        ..v
    }
}

/// The view after a new instance variable, as for a witness.
pub open spec fn with_instance(v: SystemView, value: Option<int>) -> SystemView {
    SystemView {
        num_instances: v.num_instances + 1,
        instance_values: if !v.setup && value is Some {
            v.instance_values.push(value->0)
        } else {
            v.instance_values
        },
        ..v
    }
}

/// The view after a new constraint: the count grows by one, and the row is
/// recorded where the system builds matrices.
pub open spec fn with_row(v: SystemView, row: Row) -> SystemView {
    SystemView {
        num_constraints: v.num_constraints + 1,
        rows: if v.builds_matrices {
            v.rows.push(row)
        } else {
            v.rows
        },
        ..v
    }
}

/// The value a variable takes in the assignment of `v`.
pub open spec fn var_value(x: Var, v: SystemView) -> int {
    match x {
        Var::Instance(i) => v.instance_values[i as int],
        Var::Witness(i) => v.witness_values[i as int],
    }
}

/// The value of a linear combination in the assignment of `v`, before
/// reduction.
pub open spec fn lc_value(lc: LcView, v: SystemView) -> int
    decreases lc.len(),
{
    if lc.len() == 0 {
        0
    } else {
        lc_value(lc.drop_last(), v) + lc.last().0 * var_value(lc.last().1, v)
    }
}

/// The constraint holds in the assignment of `v`, modulo the field's order.
pub open spec fn row_holds(row: Row, v: SystemView) -> bool {
    (lc_value(row.0, v) * lc_value(row.1, v)) % modulus() == lc_value(row.2, v) % modulus()
}

/// The assignment covers every allocated variable.
pub open spec fn fully_assigned(v: SystemView) -> bool {
    &&& v.instance_values.len() == v.num_instances
    &&& v.witness_values.len() == v.num_witnesses
}

/// The value of an optional element.
pub open spec fn scalar_value(s: Option<Scalar>) -> Option<int> {
    match s {
        Some(x) => Some(x.value()),
        None => None,
    }
}

/// Relies on ark_relations' `ConstraintSystemRef::num_witness_variables`:
/// the count of witness variables allocated so far.
#[verifier::external_body]
pub(crate) fn num_witnesses(h: &SystemHandle) -> (r: usize)
    ensures
        r == system_view(*h).num_witnesses,
{
    h.cs.num_witness_variables()
}

/// Relies on ark_relations' `ConstraintSystemRef::num_instance_variables`:
/// the count of instance variables allocated so far, the constant one included.
#[verifier::external_body]
pub(crate) fn num_instances(h: &SystemHandle) -> (r: usize)
    ensures
        r == system_view(*h).num_instances,
{
    h.cs.num_instance_variables()
}

/// Relies on ark_relations' `ConstraintSystemRef::new_witness_variable`, and
/// on ark_ff's `Fr::from_bigint`, which takes a canonical integer below the
/// modulus to the element it stands for. An empty handle fails with
/// `MissingCS`; otherwise the count grows by one, and outside setup mode the
/// provider is run and its value appended, or its error returned.
#[verifier::external_body]
pub(crate) fn new_witness(h: &mut SystemHandle, value: Option<Scalar>) -> (r: Step)
    requires
        value is Some ==> value->0.wf(),
    ensures
        system_view(*old(h)).absent ==> r == Step::Err(CircuitError::MissingCs)
            && system_view(*final(h)) == system_view(*old(h)),
        !system_view(*old(h)).absent ==> system_view(*final(h)) == with_witness(
            system_view(*old(h)),
            scalar_value(value),
        ),
        !system_view(*old(h)).absent ==> (r is Ok <==> (system_view(*old(h)).setup
            || value is Some)),
        !system_view(*old(h)).absent && r is Err ==> r == Step::Err(
            CircuitError::AssignmentMissing,
        ),
{
    let provider = || match value {
        Some(x) => Ok(Fr::from_bigint(BigInt::new(x.limbs)).unwrap()),
        None => Err(SynthesisError::AssignmentMissing),
    };
    match h.cs.new_witness_variable(provider) {
        Ok(_) => Ok(()),
        Err(SynthesisError::MissingCS) => Err(CircuitError::MissingCs),
        Err(_) => Err(CircuitError::AssignmentMissing),
    }
}

/// Relies on ark_relations' `ConstraintSystemRef::new_input_variable`, which
/// behaves as `new_witness_variable` does, on the instance variables.
#[verifier::external_body]
pub(crate) fn new_input(h: &mut SystemHandle, value: Option<Scalar>) -> (r: Step)
    requires
        value is Some ==> value->0.wf(),
    ensures
        system_view(*old(h)).absent ==> r == Step::Err(CircuitError::MissingCs)
            && system_view(*final(h)) == system_view(*old(h)),
        !system_view(*old(h)).absent ==> system_view(*final(h)) == with_instance(
            system_view(*old(h)),
            scalar_value(value),
        ),
        !system_view(*old(h)).absent ==> (r is Ok <==> (system_view(*old(h)).setup
            || value is Some)),
        !system_view(*old(h)).absent && r is Err ==> r == Step::Err(
            CircuitError::AssignmentMissing,
        ),
{
    let provider = || match value {
        Some(x) => Ok(Fr::from_bigint(BigInt::new(x.limbs)).unwrap()),
        None => Err(SynthesisError::AssignmentMissing),
    };
    match h.cs.new_input_variable(provider) {
        Ok(_) => Ok(()),
        Err(SynthesisError::MissingCS) => Err(CircuitError::MissingCs),
        Err(_) => Err(CircuitError::AssignmentMissing),
    }
}

/// Relies on ark_relations' `ConstraintSystemRef::enforce_constraint`: an
/// empty handle fails with `MissingCS`; otherwise the constraint count grows by
/// one, and the three linear combinations are recorded where the system builds
/// matrices.
#[verifier::external_body]
pub(crate) fn enforce(
    h: &mut SystemHandle,
    l: &Vec<Var>,
    r: &Vec<Var>,
    o: &Vec<Var>,
) -> (res: Step)
    ensures
        system_view(*old(h)).absent ==> res == Step::Err(CircuitError::MissingCs)
            && system_view(*final(h)) == system_view(*old(h)),
        !system_view(*old(h)).absent ==> res is Ok && system_view(*final(h)) == with_row(
            system_view(*old(h)),
            (unit_lc(l@), unit_lc(r@), unit_lc(o@)),
        ),
{
    let var = |v: &Var| match *v {
        Var::Instance(i) => Variable::Instance(i),
        Var::Witness(i) => Variable::Witness(i),
    };
    let lc = |vs: &Vec<Var>| LinearCombination(vs.iter().map(|v| (Fr::one(), var(v))).collect());
    match h.cs.enforce_constraint(lc(l), lc(r), lc(o)) {
        Ok(()) => Ok(()),
        Err(_) => Err(CircuitError::MissingCs),
    }
}

} // verus!
