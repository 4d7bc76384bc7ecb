use ark_bls12_381::{Bls12_381, Fr};
use ark_crypto_primitives::snark::SNARK;
use ark_ff::{BigInt, PrimeField};
use ark_groth16::Groth16;
use ark_relations::r1cs::{
    ConstraintSynthesizer, ConstraintSystem, ConstraintSystemRef, SynthesisError, SynthesisMode,
};
use ark_std::rand::SeedableRng;
use multiplier::{CircuitError, MultiplierCircuit, Scalar, SystemHandle};

/// The circuit as ark_relations sees it.
#[derive(Clone)]
struct Gadget(MultiplierCircuit);

impl ConstraintSynthesizer<Fr> for Gadget {
    fn generate_constraints(self, cs: ConstraintSystemRef<Fr>) -> Result<(), SynthesisError> {
        let mut h = SystemHandle { cs };
        self.0.generate_constraints(&mut h).map_err(|e| match e {
            CircuitError::MissingCs => SynthesisError::MissingCS,
            CircuitError::AssignmentMissing => SynthesisError::AssignmentMissing,
        })
    }
}

fn fr(s: Scalar) -> Fr {
    Fr::from_bigint(BigInt::new(s.limbs)).unwrap()
}

fn two_three() -> MultiplierCircuit {
    MultiplierCircuit { a: Some(Scalar::from_u64(2)), b: Some(Scalar::from_u64(3)) }
}

fn modulus_minus(k: u64) -> Scalar {
    let mut limbs = [
        0xffff_ffff_0000_0001u64,
        0x53bd_a402_fffe_5bfe,
        0x3339_d808_09a1_d805,
        0x73ed_a753_299d_7d48,
    ];
    limbs[0] -= k;
    Scalar::from_limbs(limbs).unwrap()
}

fn prove_and_verify(seed: u64, public: Fr) -> bool {
    let rng = &mut ark_std::rand::rngs::StdRng::seed_from_u64(seed);
    let circuit = Gadget(two_three());
    let (pk, vk) = Groth16::<Bls12_381>::circuit_specific_setup(circuit.clone(), rng).unwrap();
    let proof = Groth16::<Bls12_381>::prove(&pk, circuit, rng).unwrap();
    let pvk = Groth16::<Bls12_381>::process_vk(&vk).unwrap();
    Groth16::<Bls12_381>::verify_with_processed_vk(&pvk, &vec![public], &proof).unwrap()
}

#[test]
fn constraints_test() {
    let rng = &mut ark_std::rand::rngs::StdRng::seed_from_u64(100u64);

    println!("Creating proofs...");

    let circuit = Gadget(MultiplierCircuit {
        a: Some(Scalar::from_u64(2u64)),
        b: Some(Scalar::from_u64(3u64)),
    });

    let c = Fr::from(2u64) * Fr::from(3u64);

    println!("Setting up circuit...");

    let (pk, vk) = Groth16::<Bls12_381>::circuit_specific_setup(circuit.clone(), rng).unwrap();

    println!("Proving...");
    let proof = Groth16::<Bls12_381>::prove(&pk, circuit, rng).unwrap();

    println!("Processing verifier key...");
    let pvk = Groth16::<Bls12_381>::process_vk(&vk).unwrap();

    println!("Verifying...");
    assert!(Groth16::<Bls12_381>::verify_with_processed_vk(&pvk, &vec![c], &proof).unwrap());
}

#[test]
fn lib_test() {
    let rng = &mut ark_std::rand::rngs::StdRng::seed_from_u64(0u64);

    println!("Creating proofs...");

    let c = Gadget(MultiplierCircuit {
        a: Some(Scalar::from_u64(2u64)),
        b: Some(Scalar::from_u64(3u64)),
    });

    let v = Fr::from(2u64) * Fr::from(3u64);

    println!("Setting up circuit...");

    let (pk, vk) = Groth16::<Bls12_381>::circuit_specific_setup(c.clone(), rng).unwrap();

    println!("Proving...");
    let proof = Groth16::<Bls12_381>::prove(&pk, c, rng).unwrap();

    println!("Processing verifier key...");
    let pvk = Groth16::<Bls12_381>::process_vk(&vk).unwrap();

    println!("Verifying...");
    assert!(Groth16::<Bls12_381>::verify_with_processed_vk(&pvk, &vec![v], &proof).unwrap());
}

#[test]
fn proof_checks_against_library_output() {
    let c = two_three().output().unwrap();
    assert_eq!(c, Scalar::from_u64(6));
    assert!(prove_and_verify(7, fr(c)));
}

#[test]
fn wrong_public_input_is_rejected() {
    assert!(!prove_and_verify(1, Fr::from(7u64)));
    assert!(!prove_and_verify(2, Fr::from(5u64)));
}

#[test]
fn shape_only_circuit_sets_up_but_cannot_prove() {
    let rng = &mut ark_std::rand::rngs::StdRng::seed_from_u64(3u64);
    let shape = Gadget(MultiplierCircuit { a: None, b: None });
    let (pk, _vk) = Groth16::<Bls12_381>::circuit_specific_setup(shape.clone(), rng).unwrap();
    let r = Groth16::<Bls12_381>::prove(&pk, shape, rng);
    assert_eq!(r.err(), Some(SynthesisError::AssignmentMissing));
}

#[test]
fn output_is_the_field_product() {
    assert_eq!(two_three().output(), Some(Scalar::from_u64(6)));
    let c = MultiplierCircuit { a: Some(Scalar::from_u64(1 << 40)), b: Some(Scalar::from_u64(1 << 40)) };
    assert_eq!(c.output().unwrap().limbs, [0, 1 << 16, 0, 0]);
    // (p - 1) * (p - 2) = 2 modulo p
    let c = MultiplierCircuit { a: Some(modulus_minus(1)), b: Some(modulus_minus(2)) };
    assert_eq!(c.output(), Some(Scalar::from_u64(2)));
    assert_eq!(MultiplierCircuit { a: Some(Scalar::from_u64(2)), b: None }.output(), None);
    assert_eq!(MultiplierCircuit { a: None, b: None }.output(), None);
}

#[test]
fn scalar_mul_matches_ark() {
    let x = modulus_minus(5);
    let y = Scalar::from_u64(123_456_789);
    assert_eq!(fr(x.mul(&y)), fr(x) * fr(y));
    assert_eq!(Scalar::from_u64(0).mul(&y), Scalar::from_u64(0));
}

#[test]
fn from_limbs_accepts_exactly_canonical_values() {
    assert!(Scalar::from_limbs([5, 0, 0, 0]).is_some());
    assert!(Scalar::from_limbs([
        0xffff_ffff_0000_0000,
        0x53bd_a402_fffe_5bfe,
        0x3339_d808_09a1_d805,
        0x73ed_a753_299d_7d48
    ])
    .is_some());
    assert!(Scalar::from_limbs([
        0xffff_ffff_0000_0001,
        0x53bd_a402_fffe_5bfe,
        0x3339_d808_09a1_d805,
        0x73ed_a753_299d_7d48
    ])
    .is_none());
    assert!(Scalar::from_limbs([0, 0, 0, 0x73ed_a753_299d_7d49]).is_none());
    assert!(Scalar::from_limbs([u64::MAX; 4]).is_none());
}

#[test]
fn proving_synthesis_fills_the_system() {
    let cs = ConstraintSystem::<Fr>::new_ref();
    let mut h = SystemHandle { cs: cs.clone() };
    assert_eq!(two_three().generate_constraints(&mut h), Ok(()));
    assert_eq!(cs.num_witness_variables(), 2);
    assert_eq!(cs.num_instance_variables(), 2);
    assert_eq!(cs.num_constraints(), 2);
    assert!(cs.is_satisfied().unwrap());
    let inner = cs.borrow().unwrap();
    assert_eq!(inner.witness_assignment, vec![Fr::from(2u64), Fr::from(3u64)]);
    assert_eq!(inner.instance_assignment, vec![Fr::from(1u64), Fr::from(6u64)]);
}

#[test]
fn setup_synthesis_needs_no_values() {
    let cs = ConstraintSystem::<Fr>::new_ref();
    cs.set_mode(SynthesisMode::Setup);
    let mut h = SystemHandle { cs: cs.clone() };
    let shape = MultiplierCircuit { a: None, b: None };
    assert_eq!(shape.generate_constraints(&mut h), Ok(()));
    assert_eq!(cs.num_witness_variables(), 2);
    assert_eq!(cs.num_instance_variables(), 2);
    assert_eq!(cs.num_constraints(), 2);
}

#[test]
fn proving_without_values_fails() {
    let cs = ConstraintSystem::<Fr>::new_ref();
    let mut h = SystemHandle { cs: cs.clone() };
    let shape = MultiplierCircuit { a: None, b: None };
    assert_eq!(shape.generate_constraints(&mut h), Err(CircuitError::AssignmentMissing));
    let half = MultiplierCircuit { a: Some(Scalar::from_u64(2)), b: None };
    let cs = ConstraintSystem::<Fr>::new_ref();
    let mut h = SystemHandle { cs: cs.clone() };
    assert_eq!(half.generate_constraints(&mut h), Err(CircuitError::AssignmentMissing));
    assert_eq!(cs.num_witness_variables(), 2);
    assert_eq!(cs.num_constraints(), 0);
}

#[test]
fn empty_handle_is_missing_cs() {
    let mut h = SystemHandle { cs: ConstraintSystemRef::None };
    assert_eq!(two_three().generate_constraints(&mut h), Err(CircuitError::MissingCs));
}

#[test]
fn zero_constraint_is_satisfied_for_any_inputs() {
    for (a, b) in [(0u64, 0u64), (1, u64::MAX), (7, 11)] {
        let cs = ConstraintSystem::<Fr>::new_ref();
        let mut h = SystemHandle { cs: cs.clone() };
        let c = MultiplierCircuit { a: Some(Scalar::from_u64(a)), b: Some(Scalar::from_u64(b)) };
        assert_eq!(c.generate_constraints(&mut h), Ok(()));
        assert!(cs.is_satisfied().unwrap());
        assert_eq!(cs.which_is_unsatisfied().unwrap(), None);
    }
}

#[test]
fn synthesis_twice_gives_the_same_matrices() {
    let mut matrices = Vec::new();
    for _ in 0..2 {
        let cs = ConstraintSystem::<Fr>::new_ref();
        let mut h = SystemHandle { cs: cs.clone() };
        assert_eq!(two_three().generate_constraints(&mut h), Ok(()));
        cs.finalize();
        let inner = cs.borrow().unwrap();
        matrices.push((cs.to_matrices().unwrap(), inner.witness_assignment.clone()));
    }
    assert_eq!(matrices[0], matrices[1]);
}

#[test]
fn constructors_set_both_inputs_or_neither() {
    let v = MultiplierCircuit::valued(Scalar::from_u64(4), Scalar::from_u64(5));
    assert_eq!(v.a, Some(Scalar::from_u64(4)));
    assert_eq!(v.b, Some(Scalar::from_u64(5)));
    assert_eq!(v.output(), Some(Scalar::from_u64(20)));
    let s = MultiplierCircuit::shape_only();
    assert!(s.a.is_none() && s.b.is_none());
}
