//! The one-shot pipeline `Uninitialized -> KeysGenerated -> ProofGenerated ->
//! Verified(bool)`: which step comes next, and how each outcome of a step
//! moves the session on. The steps themselves (Groth16 setup, proving and
//! verification) are performed by the caller, who reports each outcome back.
use vstd::prelude::*;
use ark_relations::r1cs::SynthesisError;
use crate::circuit::SimpleCircuit;
use crate::field::{lemma_small_product_is_reduced, product_holds};

verus! {

/// The error type of ark-relations' constraint synthesis, which setup,
/// proving and verification report. Its variants carry no data, and are read
/// as declared there.
#[verifier::external_type_specification]
pub struct ExSynthesisError(SynthesisError);

/// Where a session stands. No stage can be skipped or entered twice.
#[derive(Clone, Copy, Debug, PartialEq, Eq, Structural)]
pub enum Stage {
    Uninitialized,
    KeysGenerated,
    ProofGenerated,
    Verified(bool),
}

/// What went wrong in a session. Each is fatal to it.
#[derive(Clone, Copy, Debug, PartialEq, Eq, Structural)]
pub enum PipelineError {
    /// A variable of the circuit had no value when one was needed.
    AssignmentMissing,
    /// The prover was asked to prove values with `a * b != c`.
    UnsatisfiedConstraint,
    /// Key generation failed.
    SetupError,
    /// Proof generation failed for a reason other than the two above.
    ProvingError,
    /// The verifier could not read the proof against the key and inputs.
    MalformedProof,
    /// An outcome was reported for a step that was not the next one.
    OutOfOrder,
}

/// The step that the caller is to perform next.
#[derive(Clone, Copy, Debug)]
pub enum Action {
    /// Generate proving and verifying keys for this circuit shape.
    Setup(SimpleCircuit),
    /// Prove this circuit with the proving key.
    Prove(SimpleCircuit),
    /// Verify the proof against the verifying key and this public input.
    Verify(u32),
    /// The session is over, and this is its verdict.
    Report(bool),
}

/// The outcome of a step, as the caller reports it.
#[derive(Clone, Copy, Debug)]
pub enum Event {
    KeysGenerated,
    ProofGenerated,
    Verified(bool),
    Failed(SynthesisError),
}

/// What a session is, to its contracts.
pub struct SessionView {
    pub circuit: SimpleCircuit,
    pub stage: Stage,
}

/// One run of setup, proving and verification for one statement.
pub struct Session {
    circuit: SimpleCircuit,
    stage: Stage,
}

/// The error that a failure reported at `stage` stands for.
pub open spec fn failure_of(stage: Stage, e: SynthesisError) -> PipelineError {
    if e == SynthesisError::AssignmentMissing {
        PipelineError::AssignmentMissing
    } else {
        match stage {
            Stage::Uninitialized => PipelineError::SetupError,
            Stage::KeysGenerated => PipelineError::ProvingError,
            _ => PipelineError::MalformedProof,
        }
    }
}

/// The stage that `ev` moves the session `s` to, or the error it raises.
pub open spec fn transition(s: SessionView, ev: Event) -> Result<Stage, PipelineError> {
    match (s.stage, ev) {
        (Stage::Uninitialized, Event::KeysGenerated) => Ok(Stage::KeysGenerated),
        (Stage::KeysGenerated, Event::ProofGenerated) => if s.circuit.satisfied() {
            Ok(Stage::ProofGenerated)
        } else {
            Err(PipelineError::UnsatisfiedConstraint)
        },
        (Stage::ProofGenerated, Event::Verified(v)) => Ok(Stage::Verified(v)),
        (Stage::Verified(_), _) => Err(PipelineError::OutOfOrder),
        (st, Event::Failed(e)) => Err(failure_of(st, e)),
        _ => Err(PipelineError::OutOfOrder),
    }
}

/// The step that comes next in session `s`. A prover fails fast: values
/// with `a * b != c` are never proved, and the session's verdict is then
/// `false` at once.
pub open spec fn action_of(s: SessionView) -> Action {
    match s.stage {
        Stage::Uninitialized => Action::Setup(
            SimpleCircuit { a: None, b: None, c: None },
        ),
        Stage::KeysGenerated => if s.circuit.satisfied() {
            Action::Prove(s.circuit)
        } else {
            Action::Report(false)
        },
        Stage::ProofGenerated => Action::Verify(s.circuit.c->Some_0),
        Stage::Verified(v) => Action::Report(v),
    }
}

/// The verdict of session `s`, once the session is over.
pub open spec fn verdict_of(s: SessionView) -> Option<bool> {
    match action_of(s) {
        Action::Report(v) => Some(v),
        _ => None,
    }
}

impl View for Session {
    type V = SessionView;

    closed spec fn view(&self) -> SessionView {
        SessionView { circuit: self.circuit, stage: self.stage }
    }
}

impl Session {
    /// A session holds all three values, and has proved nothing that does
    /// not satisfy the circuit.
    #[verifier::type_invariant]
    spec fn inv(self) -> bool {
        &&& self.circuit.is_complete()
        &&& (self.stage is ProofGenerated || self.stage is Verified) ==> self.circuit.satisfied()
    }

    /// A fresh session for the statement `a * b == c`.
    pub fn new(a: u32, b: u32, c: u32) -> (r: Session)
        ensures
            r@.circuit == (SimpleCircuit { a: Some(a), b: Some(b), c: Some(c) }),
            r@.stage == Stage::Uninitialized,
    {
        Session { circuit: SimpleCircuit::new(a, b, c), stage: Stage::Uninitialized }
    }

    /// Where the session stands.
    pub fn stage(&self) -> (r: Stage)
        ensures
            r == self@.stage,
    {
        self.stage
    }

    /// The circuit that the session proves.
    pub fn circuit(&self) -> (r: SimpleCircuit)
        ensures
            r == self@.circuit,
    {
        self.circuit
    }

    /// The step to perform next.
    pub fn next_action(&self) -> (r: Action)
        ensures
            r == action_of(self@),
    {
        proof {
            use_type_invariant(self);
        }
        match self.stage {
            Stage::Uninitialized => Action::Setup(self.circuit.shape()),
            Stage::KeysGenerated => match self.circuit.check() {
                Ok(_) => Action::Prove(self.circuit),
                Err(_) => Action::Report(false),
            },
            Stage::ProofGenerated => match self.circuit.c {
                Some(c) => Action::Verify(c),
                None => Action::Report(false),
            },
            Stage::Verified(v) => Action::Report(v),
        }
    }

    /// The session's verdict, once it has one. Whatever outcomes were
    /// reported to the session, `true` comes only for values with
    /// `a * b == c` in the field: no false statement is ever accepted.
    pub fn verdict(&self) -> (r: Option<bool>)
        ensures
            r == verdict_of(self@),
            r == Some(true) ==> self@.circuit.satisfied(),
            r == Some(true) ==> product_holds(
                self@.circuit.a->Some_0 as int,
                self@.circuit.b->Some_0 as int,
                self@.circuit.c->Some_0 as int,
            ),
    {
        proof {
            use_type_invariant(self);
        }
        match self.next_action() {
            Action::Report(v) => Some(v),
            _ => None,
        }
    }

    /// Takes the outcome of the step just performed. On success the session
    /// moves to the next stage; on an error it stays where it was.
    pub fn step(&mut self, ev: Event) -> (r: Result<(), PipelineError>)
        ensures
            match transition(old(self)@, ev) {
                Ok(st) => r is Ok && final(self)@ == (SessionView {
                    circuit: old(self)@.circuit,
                    stage: st,
                }),
                Err(e) => r == Err::<(), PipelineError>(e) && final(self)@ == old(self)@,
            },
    {
        proof {
            use_type_invariant(&*self);
        }
        let next = match (self.stage, ev) {
            (Stage::Uninitialized, Event::KeysGenerated) => Ok(Stage::KeysGenerated),
            (Stage::KeysGenerated, Event::ProofGenerated) => match self.circuit.check() {
                Ok(_) => Ok(Stage::ProofGenerated),
                Err(_) => Err(PipelineError::UnsatisfiedConstraint),
            },
            (Stage::ProofGenerated, Event::Verified(v)) => Ok(Stage::Verified(v)),
            (Stage::Verified(_), _) => Err(PipelineError::OutOfOrder),
            (st, Event::Failed(e)) => Err(failure(st, e)),
            _ => Err(PipelineError::OutOfOrder),
        };
        match next {
            Ok(st) => {
                self.stage = st;
                Ok(())
            },
            Err(e) => Err(e),
        }
    }
}

/// For every statement with `a * b == c`, the session goes through every
/// stage: setup, then proving of the circuit with its values, then
/// verification against the public input `c`, and the verifier's answer is
/// its verdict.
pub proof fn lemma_true_statement_runs_every_stage(a: u32, b: u32, c: u32, v: bool)
    requires
        product_holds(a as int, b as int, c as int),
    ensures
        ({
            let circuit = SimpleCircuit { a: Some(a), b: Some(b), c: Some(c) };
            let s0 = SessionView { circuit, stage: Stage::Uninitialized };
            let s1 = SessionView { circuit, stage: Stage::KeysGenerated };
            let s2 = SessionView { circuit, stage: Stage::ProofGenerated };
            let s3 = SessionView { circuit, stage: Stage::Verified(v) };
            &&& action_of(s0) is Setup
            &&& transition(s0, Event::KeysGenerated) == Ok::<Stage, PipelineError>(s1.stage)
            &&& action_of(s1) == Action::Prove(circuit)
            &&& transition(s1, Event::ProofGenerated) == Ok::<Stage, PipelineError>(s2.stage)
            &&& action_of(s2) == Action::Verify(c)
            &&& transition(s2, Event::Verified(v)) == Ok::<Stage, PipelineError>(s3.stage)
            &&& action_of(s3) == Action::Report(v)
        }),
{
}

/// For every statement with `a * b != c`, the session never asks for a
/// proof: once keys exist its verdict is `false`, and a proof reported
/// for it is refused.
pub proof fn lemma_false_statement_is_rejected(a: u32, b: u32, c: u32)
    requires
        !product_holds(a as int, b as int, c as int),
    ensures
        ({
            let circuit = SimpleCircuit { a: Some(a), b: Some(b), c: Some(c) };
            let s1 = SessionView { circuit, stage: Stage::KeysGenerated };
            &&& action_of(s1) == Action::Report(false)
            &&& transition(s1, Event::ProofGenerated) == Err::<Stage, PipelineError>(
                PipelineError::UnsatisfiedConstraint,
            )
        }),
{
}

/// A zero factor with a zero product is a true statement, and is proved
/// like any other.
pub proof fn lemma_zero_factor(a: u32, b: u32)
    requires
        a == 0 || b == 0,
    ensures
        product_holds(a as int, b as int, 0),
        action_of(
            SessionView {
                circuit: SimpleCircuit { a: Some(a), b: Some(b), c: Some(0) },
                stage: Stage::KeysGenerated,
            },
        ) == Action::Prove(SimpleCircuit { a: Some(a), b: Some(b), c: Some(0) }),
{
    lemma_small_product_is_reduced(a, b);
    assert(a as int * b as int == 0) by (nonlinear_arith)
        requires a == 0 || b == 0;
}

/// The error that a failure reported at `stage` stands for.
pub fn failure(stage: Stage, e: SynthesisError) -> (r: PipelineError)
    ensures
        r == failure_of(stage, e),
{
    match e {
        SynthesisError::AssignmentMissing => PipelineError::AssignmentMissing,
        _ => match stage {
            Stage::Uninitialized => PipelineError::SetupError,
            Stage::KeysGenerated => PipelineError::ProvingError,
            _ => PipelineError::MalformedProof,
        },
    }
}

} // verus!
