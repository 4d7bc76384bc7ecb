use vstd::prelude::*;
use crate::field::modulus;
use crate::field::Scalar;
use crate::system::enforce;
use crate::system::new_input;
use crate::system::new_witness;
use crate::system::num_instances;
use crate::system::num_witnesses;
use crate::system::scalar_value;
use crate::system::system_view;
use crate::system::unit_lc;
use crate::system::fully_assigned;
use crate::system::lc_value;
use crate::system::row_holds;
use crate::system::var_value;
use crate::system::with_instance;
use crate::system::with_row;
use crate::system::with_witness;
use crate::system::CircuitError;
use crate::system::Row;
use crate::system::Step;
use crate::system::SystemHandle;
use crate::system::SystemView;
use crate::system::Var;

verus! {

/// The relation `a * b = c`, with `a` and `b` private inputs and `c` the one
/// public input. Both inputs are present when proving; both are absent when
/// only the shape of the circuit is wanted.
#[derive(Clone, Copy, Debug)]
pub struct MultiplierCircuit {
    pub a: Option<Scalar>,
    pub b: Option<Scalar>,
}

/// The constraint `w[a] * w[b] = x[c]`.
pub open spec fn product_row(a: usize, b: usize, c: usize) -> Row {
    (unit_lc(seq![Var::Witness(a)]), unit_lc(seq![Var::Witness(b)]), unit_lc(seq![Var::Instance(c)]))
}

/// The constraint `0 * 0 = 0`, with every side the empty combination.
pub open spec fn zero_row() -> Row {
    (Seq::empty(), Seq::empty(), Seq::empty())
}

impl MultiplierCircuit {
    /// Every input that is present is a canonical field element.
    pub open spec fn wf(self) -> bool {
        &&& self.a is Some ==> self.a->0.wf()
        &&& self.b is Some ==> self.b->0.wf()
    }

    /// The public value `a * b`, where both inputs are present.
    pub open spec fn output_value(self) -> Option<int> {
        if self.a is Some && self.b is Some {
            Some((self.a->0.value() * self.b->0.value()) % modulus())
        } else {
            None
        }
    }

    /// What synthesis into a system in state `v` returns, and the state it
    /// leaves. Outside setup mode each value is demanded as its variable is
    /// allocated, and a missing one stops synthesis there.
    pub open spec fn synthesis(self, v: SystemView) -> (Step, SystemView) {
        let wa = v.num_witnesses as usize;
        let xc = v.num_instances as usize;
        let v1 = with_witness(v, scalar_value(self.a));
        let v2 = with_witness(v1, scalar_value(self.b));
        let v3 = with_instance(v2, self.output_value());
        if v.absent {
            (Err(CircuitError::MissingCs), v)
        } else if !v.setup && self.a is None {
            (Err(CircuitError::AssignmentMissing), v1)
        } else if !v.setup && self.b is None {
            (Err(CircuitError::AssignmentMissing), v2)
        } else {
            (Ok(()), with_row(with_row(v3, product_row(wa, (wa + 1) as usize, xc)), zero_row()))
        }
    }

    /// A circuit with both inputs, for proving.
    pub fn valued(a: Scalar, b: Scalar) -> (r: MultiplierCircuit)
        ensures
            r.a == Some(a),
            r.b == Some(b),
    {
        MultiplierCircuit { a: Some(a), b: Some(b) }
    }

    /// A circuit with neither input, for setup, where only its shape is read.
    pub fn shape_only() -> (r: MultiplierCircuit)
        ensures
            r.a is None,
            r.b is None,
    {
        MultiplierCircuit { a: None, b: None }
    }

    /// The public input `c = a * b`, or `None` where an input is absent.
    pub fn output(&self) -> (r: Option<Scalar>)
        requires
            self.wf(),
        ensures
            scalar_value(r) == self.output_value(),
            r is Some ==> r->0.wf(),
    {
        match (self.a, self.b) {
            (Some(a), Some(b)) => Some(a.mul(&b)),
            _ => None,
        }
    }

    /// Allocates `a` and `b` as witnesses and `c = a * b` as a public input,
    /// then enforces `a * b = c` and `0 * 0 = 0`.
    pub fn generate_constraints(self, h: &mut SystemHandle) -> (r: Step)
        requires
            self.wf(),
            system_view(*old(h)).num_witnesses + 2 <= usize::MAX,
            system_view(*old(h)).num_instances + 1 <= usize::MAX,
        ensures
            (r, system_view(*final(h))) == self.synthesis(system_view(*old(h))),
    {
        let wa = num_witnesses(h);
        let xc = num_instances(h);
        new_witness(h, self.a)?;
        new_witness(h, self.b)?;
        let c = self.output();
        new_input(h, c)?;
        let l: Vec<Var> = vec![Var::Witness(wa)];
        let r: Vec<Var> = vec![Var::Witness(wa + 1)];
        let o: Vec<Var> = vec![Var::Instance(xc)];
        assert(l@ =~= seq![Var::Witness(wa)]);
        assert(r@ =~= seq![Var::Witness((wa + 1) as usize)]);
        assert(o@ =~= seq![Var::Instance(xc)]);
        enforce(h, &l, &r, &o)?;
        let empty: Vec<Var> = Vec::new();
        assert(unit_lc(empty@) =~= Seq::empty());
        enforce(h, &empty, &empty, &empty)?;
        Ok(())
    }
}

/// A one-term combination with coefficient one has the value of its variable.
proof fn lemma_unit_lc_single(x: Var, v: SystemView)
    ensures
        lc_value(unit_lc(seq![x]), v) == var_value(x, v),
{
    let lc = unit_lc(seq![x]);
    assert(lc =~= seq![(1int, x)]);
    assert(lc.drop_last() =~= Seq::empty());
    assert(lc_value(lc.drop_last(), v) == 0);
    assert(lc.last() == (1int, x));
    assert(lc_value(lc, v) == 1 * var_value(x, v));
}

/// The product constraint holds exactly when the public value is the product
/// of the two witnesses, for any canonical public value.
pub proof fn lemma_product_row_sound(v: SystemView, a: usize, b: usize, c: usize)
    requires
        0 <= var_value(Var::Instance(c), v) < modulus(),
    ensures
        row_holds(product_row(a, b, c), v) <==> var_value(Var::Instance(c), v) == (var_value(
            Var::Witness(a),
            v,
        ) * var_value(Var::Witness(b), v)) % modulus(),
{
    lemma_unit_lc_single(Var::Witness(a), v);
    lemma_unit_lc_single(Var::Witness(b), v);
    lemma_unit_lc_single(Var::Instance(c), v);
    let x = var_value(Var::Instance(c), v);
    vstd::arithmetic::div_mod::lemma_small_mod(x as nat, modulus() as nat);
}

/// The constraint `0 * 0 = 0` holds in every assignment.
pub proof fn lemma_zero_row_holds(v: SystemView)
    ensures
        row_holds(zero_row(), v),
{
    assert(lc_value(Seq::empty(), v) == 0);
}

/// Synthesis of a circuit with both inputs, into a proving system whose
/// assignment covers its variables, succeeds, makes `c` the product, and
/// leaves both of its constraints holding in the new assignment.
pub proof fn lemma_valued_synthesis_satisfied(circuit: MultiplierCircuit, v: SystemView)
    requires
        circuit.wf(),
        circuit.a is Some,
        circuit.b is Some,
        !v.absent,
        !v.setup,
        fully_assigned(v),
        v.num_witnesses + 2 <= usize::MAX,
        v.num_instances + 1 <= usize::MAX,
    ensures
        ({
            let (r, w) = circuit.synthesis(v);
            let wa = v.num_witnesses as usize;
            let xc = v.num_instances as usize;
            &&& r is Ok
            &&& fully_assigned(w)
            &&& w.instance_values.last() == circuit.output_value()->0
            &&& row_holds(product_row(wa, (wa + 1) as usize, xc), w)
            &&& row_holds(zero_row(), w)
        }),
{
    let (r, w) = circuit.synthesis(v);
    let wa = v.num_witnesses as usize;
    let xc = v.num_instances as usize;
    let a = circuit.a->0.value();
    let b = circuit.b->0.value();
    assert(var_value(Var::Witness(wa), w) == a);
    assert(var_value(Var::Witness((wa + 1) as usize), w) == b);
    assert(var_value(Var::Instance(xc), w) == (a * b) % modulus());
    lemma_product_row_sound(w, wa, (wa + 1) as usize, xc);
    lemma_zero_row_holds(w);
}

/// With both inputs absent, synthesis in setup mode succeeds, and outside it
/// fails for want of an assignment.
pub proof fn lemma_shape_only_synthesis(v: SystemView)
    requires
        !v.absent,
    ensures
        v.setup ==> (MultiplierCircuit { a: None, b: None }).synthesis(v).0 is Ok,
        !v.setup ==> (MultiplierCircuit { a: None, b: None }).synthesis(v).0 == Step::Err(
            CircuitError::AssignmentMissing,
        ),
{
}

/// Two syntheses of one circuit into systems of the same shape record the
/// same constraints and leave the same counts, so the same assignments
/// satisfy both.
pub proof fn lemma_synthesis_deterministic(circuit: MultiplierCircuit, v1: SystemView, v2: SystemView)
    requires
        v1.absent == v2.absent,
        v1.setup == v2.setup,
        v1.builds_matrices == v2.builds_matrices,
        v1.num_witnesses == v2.num_witnesses,
        v1.num_instances == v2.num_instances,
        v1.num_constraints == v2.num_constraints,
        v1.rows == v2.rows,
    ensures
        circuit.synthesis(v1).0 == circuit.synthesis(v2).0,
        circuit.synthesis(v1).1.rows == circuit.synthesis(v2).1.rows,
        circuit.synthesis(v1).1.num_witnesses == circuit.synthesis(v2).1.num_witnesses,
        circuit.synthesis(v1).1.num_instances == circuit.synthesis(v2).1.num_instances,
        circuit.synthesis(v1).1.num_constraints == circuit.synthesis(v2).1.num_constraints,
        forall|w: SystemView, k: int|
            0 <= k < circuit.synthesis(v1).1.rows.len() ==> (#[trigger] row_holds(
                circuit.synthesis(v1).1.rows[k],
                w,
            ) <==> row_holds(circuit.synthesis(v2).1.rows[k], w)),
{
}

} // verus!
