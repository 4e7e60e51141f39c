use ark_bn254::{Bn254, Fr};
use ark_groth16::{prepare_verifying_key, Groth16, PreparedVerifyingKey, Proof, ProvingKey};
use ark_r1cs_std::alloc::AllocVar;
use ark_r1cs_std::eq::EqGadget;
use ark_r1cs_std::fields::fp::FpVar;
use ark_relations::r1cs::{ConstraintSynthesizer, ConstraintSystemRef, SynthesisError};
use ark_serialize::CanonicalSerialize;
use ark_snark::{CircuitSpecificSetupSNARK, SNARK};
use ark_std::rand::rngs::OsRng;
use mulproof::circuit::SimpleCircuit;
use mulproof::pipeline::{Action, Event, PipelineError, Session};

#[derive(Clone, Copy)]
struct R1csCircuit(SimpleCircuit);

impl ConstraintSynthesizer<Fr> for R1csCircuit {
    fn generate_constraints(self, cs: ConstraintSystemRef<Fr>) -> Result<(), SynthesisError> {
        let value = |v: Option<u32>| v.map(Fr::from).ok_or(SynthesisError::AssignmentMissing);
        let a_var = FpVar::new_witness(cs.clone(), || value(self.0.a))?;
        let b_var = FpVar::new_witness(cs.clone(), || value(self.0.b))?;
        let c_var = FpVar::new_input(cs.clone(), || value(self.0.c))?;
        let result_var = &a_var * &b_var;
        result_var.enforce_equal(&c_var)?;
        Ok(())
    }
}

fn keys() -> (ProvingKey<Bn254>, PreparedVerifyingKey<Bn254>) {
    let shape = SimpleCircuit::new(0, 0, 0).shape();
    let (pk, vk) = Groth16::<Bn254>::setup(R1csCircuit(shape), &mut OsRng).unwrap();
    (pk, prepare_verifying_key(&vk))
}

fn prove(pk: &ProvingKey<Bn254>, a: u32, b: u32, c: u32) -> Proof<Bn254> {
    let circuit = SimpleCircuit::new(a, b, c);
    assert!(circuit.check().is_ok());
    Groth16::<Bn254>::prove(pk, R1csCircuit(circuit), &mut OsRng).unwrap()
}

fn verify(pvk: &PreparedVerifyingKey<Bn254>, proof: &Proof<Bn254>, c: u32) -> bool {
    Groth16::<Bn254>::verify_proof(pvk, proof, &[Fr::from(c)]).unwrap()
}

fn run(a: u32, b: u32, c: u32) -> Result<bool, PipelineError> {
    let mut session = Session::new(a, b, c);
    let mut pk = None;
    let mut pvk = None;
    let mut proof = None;
    loop {
        let event = match session.next_action() {
            Action::Report(verdict) => return Ok(verdict),
            Action::Setup(shape) => match Groth16::<Bn254>::setup(R1csCircuit(shape), &mut OsRng) {
                Ok((p, v)) => {
                    pk = Some(p);
                    pvk = Some(prepare_verifying_key(&v));
                    Event::KeysGenerated
                }
                Err(e) => Event::Failed(e),
            },
            Action::Prove(circuit) => {
                match Groth16::<Bn254>::prove(pk.as_ref().unwrap(), R1csCircuit(circuit), &mut OsRng) {
                    Ok(p) => {
                        proof = Some(p);
                        Event::ProofGenerated
                    }
                    Err(e) => Event::Failed(e),
                }
            }
            Action::Verify(c) => {
                match Groth16::<Bn254>::verify_proof(pvk.as_ref().unwrap(), proof.as_ref().unwrap(), &[Fr::from(c)]) {
                    Ok(valid) => Event::Verified(valid),
                    Err(e) => Event::Failed(e),
                }
            }
        };
        session.step(event)?;
    }
}

#[test]
fn six_times_seven_is_forty_two() {
    assert_eq!(run(6, 7, 42), Ok(true));
}

#[test]
fn six_times_seven_is_not_forty_one() {
    assert_eq!(run(6, 7, 41), Ok(false));
}

#[test]
fn three_times_four_is_not_thirteen() {
    assert_eq!(run(3, 4, 13), Ok(false));
    assert_eq!(run(3, 4, 11), Ok(false));
}

#[test]
fn true_statements_verify() {
    let (pk, pvk) = keys();
    for (a, b) in [(1u32, 1u32), (12, 12), (65536, 65536), (u32::MAX, u32::MAX)] {
        let c = (a as u64 * b as u64) as u32;
        if (a as u64) * (b as u64) <= u32::MAX as u64 {
            let proof = prove(&pk, a, b, c);
            assert!(verify(&pvk, &proof, c));
        }
    }
}

#[test]
fn proof_is_bound_to_its_public_input() {
    let (pk, pvk) = keys();
    let proof = prove(&pk, 6, 7, 42);
    assert!(verify(&pvk, &proof, 42));
    assert!(!verify(&pvk, &proof, 43));
    assert!(!verify(&pvk, &proof, 41));
    assert!(!verify(&pvk, &proof, 0));
}

#[test]
fn proofs_of_one_statement_differ() {
    let (pk, pvk) = keys();
    let first = prove(&pk, 6, 7, 42);
    let second = prove(&pk, 6, 7, 42);
    let mut first_bytes = Vec::new();
    let mut second_bytes = Vec::new();
    first.serialize_compressed(&mut first_bytes).unwrap();
    second.serialize_compressed(&mut second_bytes).unwrap();
    assert_ne!(first_bytes, second_bytes);
    assert!(verify(&pvk, &first, 42));
    assert!(verify(&pvk, &second, 42));
}

#[test]
fn zero_factors_verify() {
    assert_eq!(run(0, 5, 0), Ok(true));
    assert_eq!(run(5, 0, 0), Ok(true));
    assert_eq!(run(0, 5, 5), Ok(false));
}
