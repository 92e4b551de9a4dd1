//! The proving pipeline: load the circuit, build the witness, generate the
//! keys, prove, verify.
//!
//! Every step hands its work to the backend and decides on what comes back.
//! What a step decides is proved here; what the backend computes is not.
//! Where a step fails, the error is of the kind that belongs to the step.

use crate::assignment::Assignment;
use crate::backend::{
    check_proof, clock_now, compile_module, copy_instance, create_proof, default_engine,
    elapsed_since, file_named_wires, generate_key, header_shape, input_count, instance_layout,
    is_satisfied, key_wire_count, key_wires, layout_of, memory_tunables, named_wires, new_store,
    pairing_verdict, process_key, proving_key_wires, public_input_count, public_inputs,
    r1cs_shape, r1cs_wires, read_constraints, satisfied, set_tunables, start_program,
    structure_of, synthesize, thread_generator, whole_millis, wires_named, with_witness,
    witness_circuit,
    CircuitInstance, PreparedKey, Program, Proof, ProvingKey, PublicInputs,
};
use crate::calculator::{is_scalar_field, order_words, read_field, run_program};
use crate::circuit::{
    all_below, are_all_below, declared_wires, read_declared_wires, CircuitShape,
};
use crate::inputs::{normalize, CircuitInputs};
use crate::outcome::{advance, conclude, is_terminal, ErrorKind, Event, Outcome, Stage};
use vstd::prelude::*;

verus! {

/// The largest memory, in pages, for which the full range that a program
/// could address is reserved. With none reserved, a memory takes the room
/// that its program declares, and loading works where address space is
/// scarce.
pub const RESERVED_PAGES: u32 = 0;

/// The size in bytes of the guard behind a memory.
pub const GUARD_BYTES: u64 = 0x1_0000;

/// Whether constraints of this shape that name these wires are admitted:
/// the header is consistent and every wire that is named is declared.
pub open spec fn constraints_admitted(shape: CircuitShape, wires: Seq<usize>) -> bool {
    shape.consistent() && all_below(wires, shape.wires as int)
}

/// Decides whether constraints of this shape that name these wires are
/// admitted.
pub fn admits_constraints(shape: &CircuitShape, wires: &Vec<usize>) -> (r: bool)
    ensures
        r == constraints_admitted(*shape, wires@),
{
    shape.is_consistent() && are_all_below(wires, shape.wires as usize)
}

/// Whether a circuit is admitted: its constraints are, and its program
/// tells the scalar field for its field.
pub open spec fn admitted(shape: CircuitShape, wires: Seq<usize>, field: Option<Seq<u32>>) -> bool {
    constraints_admitted(shape, wires) && field == Some(order_words())
}

/// Decides whether a circuit is admitted, from what its constraint file
/// declares and names and from the field that its program told, if it told
/// one.
pub fn admits(shape: &CircuitShape, wires: &Vec<usize>, field: &Option<Vec<u32>>) -> (r: bool)
    ensures
        r == admitted(
            *shape,
            wires@,
            match field {
                Some(words) => Some(words@),
                None => None,
            },
        ),
{
    match field {
        Some(words) => admits_constraints(shape, wires) && is_scalar_field(words),
        None => false,
    }
}

/// Whether the constraint file `r1cs` can be loaded: its header does not
/// declare zero wires, the reader accepts it, its header is consistent, and
/// its constraints name declared wires only.
pub open spec fn loadable(r1cs: Seq<u8>) -> bool {
    &&& declared_wires(r1cs) != Some(0int)
    &&& r1cs_shape(r1cs) matches Some(shape) && constraints_admitted(shape, r1cs_wires(r1cs))
}

/// Whether every wire that a constraint of `instance` names is one of its
/// wires.
pub open spec fn wires_declared(instance: CircuitInstance) -> bool {
    all_below(wires_named(instance), layout_of(instance).wires())
}

/// A loaded circuit: the witness program, started, and the constraint
/// system.
pub struct CircuitDescription {
    program: Program,
    structure: CircuitInstance,
    shape: CircuitShape,
}

impl CircuitDescription {
    #[verifier::type_invariant]
    spec fn sound(&self) -> bool {
        &&& self.shape.consistent()
        &&& layout_of(self.structure).witness is None
        &&& !layout_of(self.structure).relabelled
        &&& layout_of(self.structure).public_wires == self.shape.public_wires()
        &&& layout_of(self.structure).wires() == self.shape.wires
        &&& wires_declared(self.structure)
    }

    /// The shape that the constraint system declares.
    pub closed spec fn declared_shape(&self) -> CircuitShape {
        self.shape
    }

    /// Whether this is a circuit as loading the constraint file `r1cs`
    /// yields it.
    pub open spec fn loaded_from(&self, r1cs: Seq<u8>) -> bool {
        r1cs_shape(r1cs) == Some(self.declared_shape()) && constraints_admitted(
            self.declared_shape(),
            r1cs_wires(r1cs),
        )
    }

    /// The shape that the constraint system declares.
    pub fn shape(&self) -> (shape: CircuitShape)
        ensures
            shape == self.declared_shape(),
    {
        self.shape
    }
}

/// Loading the same constraint file twice yields circuits of the same
/// shape: the same number of constraints and of wires, and the same public
/// signals in the same places.
pub proof fn lemma_loading_is_idempotent(
    first: CircuitDescription,
    second: CircuitDescription,
    r1cs: Seq<u8>,
)
    requires
        first.loaded_from(r1cs),
        second.loaded_from(r1cs),
    ensures
        first.declared_shape() == second.declared_shape(),
{
}

/// Loads a circuit from its two artifacts: the witness program `wasm` and
/// the constraint file `r1cs`.
///
/// Fails with `CircuitLoad`, and with nothing else. It fails where the
/// constraint file cannot be loaded: where its header declares no wire, it
/// is rejected by the reader, declares fewer wires than public signals or
/// names a wire that it does not declare. It fails where the program is not
/// compiled or not started, and where it does not tell its field or tells
/// another than the scalar field (see `admits`); whether a program is
/// compiled and started is up to the backend and the machine. The program is compiled by the
/// default engine and gets memories of the size it declares (see
/// `RESERVED_PAGES`).
pub fn load_circuit(wasm: &[u8], r1cs: &[u8]) -> (r: Result<CircuitDescription, ErrorKind>)
    ensures
        r matches Err(kind) ==> kind == ErrorKind::CircuitLoad,
        r matches Ok(circuit) ==> circuit.loaded_from(r1cs@),
        !loadable(r1cs@) ==> r is Err,
{
    match read_declared_wires(r1cs) {
        Some(0) => {
            return Err(ErrorKind::CircuitLoad);
        },
        _ => {},
    }
    let file = match read_constraints(r1cs) {
        Ok(file) => file,
        Err(_) => {
            return Err(ErrorKind::CircuitLoad);
        },
    };
    let shape = header_shape(&file);
    let wires = file_named_wires(&file);
    let mut engine = default_engine();
    set_tunables(&mut engine, memory_tunables(RESERVED_PAGES, GUARD_BYTES, GUARD_BYTES));
    let store = new_store(engine);
    let module = match compile_module(&store, wasm) {
        Ok(module) => module,
        Err(_) => {
            return Err(ErrorKind::CircuitLoad);
        },
    };
    let mut program = match start_program(store, module) {
        Ok(program) => program,
        Err(_) => {
            return Err(ErrorKind::CircuitLoad);
        },
    };
    let field = read_field(&mut program);
    if !admits(&shape, &wires, &field) {
        return Err(ErrorKind::CircuitLoad);
    }
    Ok(CircuitDescription { program, structure: structure_of(file), shape })
}

/// Decides whether every wire that a constraint of `instance` names is one
/// of its wires.
pub fn has_declared_wires(instance: &CircuitInstance) -> (r: bool)
    ensures
        r == wires_declared(*instance),
{
    let layout = instance_layout(instance);
    let named = named_wires(instance);
    match layout.public_wires.checked_add(layout.private_wires) {
        Some(wires) => are_all_below(&named, wires),
        None => true,
    }
}

/// Whether keys can be generated from `instance`: it has the constant wire,
/// and its constraints name declared wires only.
pub open spec fn keyed(instance: CircuitInstance) -> bool {
    1 <= layout_of(instance).public_wires && wires_declared(instance)
}

/// A constraint system, without a witness or with one, from which keys can
/// be generated.
pub struct Structure {
    instance: CircuitInstance,
}

impl Structure {
    #[verifier::type_invariant]
    spec fn sound(&self) -> bool {
        keyed(self.instance)
    }

    /// The constraint system that this is.
    pub closed spec fn system(&self) -> CircuitInstance {
        self.instance
    }

    /// Takes `instance` for a structure where keys can be generated from
    /// it, and refuses it with `Setup` where not.
    pub fn accept(instance: CircuitInstance) -> (r: Result<Structure, ErrorKind>)
        ensures
            r is Ok <==> keyed(instance),
            r matches Ok(structure) ==> structure.system() == instance,
            r matches Err(kind) ==> kind == ErrorKind::Setup,
    {
        if instance_layout(&instance).public_wires >= 1 && has_declared_wires(&instance) {
            Ok(Structure { instance })
        } else {
            Err(ErrorKind::Setup)
        }
    }

    /// Gives the constraint system back.
    pub fn into_instance(self) -> (instance: CircuitInstance)
        ensures
            instance == self.system(),
    {
        self.instance
    }
}

/// Whether `instance` can be proved: its witness has a value for every
/// wire, its constraints name declared wires only, and the witness
/// satisfies them.
pub open spec fn provable(instance: CircuitInstance) -> bool {
    layout_of(instance).covered() && wires_declared(instance) && satisfied(instance)
}

/// A circuit instance that can be proved.
pub struct Witness {
    instance: CircuitInstance,
}

impl Witness {
    #[verifier::type_invariant]
    spec fn complete(&self) -> bool {
        provable(self.instance)
    }

    /// The circuit instance that this is.
    pub closed spec fn system(&self) -> CircuitInstance {
        self.instance
    }

    /// Takes `instance` for a witness, and hands out the values of the
    /// public signals with it. An instance is taken if and only if it can
    /// be proved; any other is refused with `Witness`: one whose witness
    /// leaves a wire without a value or violates a constraint, and one whose
    /// constraints name a wire that is not declared.
    pub fn accept(instance: CircuitInstance) -> (r: Result<(Witness, PublicInputs), ErrorKind>)
        ensures
            r is Ok <==> provable(instance),
            r matches Ok(pair) ==> pair.0.system() == instance,
            r matches Ok(pair) ==> input_count(pair.1) + 1 == layout_of(instance).public_wires,
            r matches Err(kind) ==> kind == ErrorKind::Witness,
    {
        let layout = instance_layout(&instance);
        if !layout.is_covered() || !has_declared_wires(&instance) {
            return Err(ErrorKind::Witness);
        }
        let system = match synthesize(&instance) {
            Ok(system) => system,
            Err(_) => {
                return Err(ErrorKind::Witness);
            },
        };
        match is_satisfied(&system) {
            Ok(true) => {},
            _ => {
                return Err(ErrorKind::Witness);
            },
        }
        match public_inputs(&instance) {
            Some(inputs) => Ok((Witness { instance }, inputs)),
            None => Err(ErrorKind::Witness),
        }
    }
}

/// What the witness builder yields: the circuit without a witness, for the
/// generation of keys; the circuit with its witness, for the prover; and
/// the values of the public signals, for the verifier.
pub struct BuiltCircuit {
    pub structural: Structure,
    pub witness: Witness,
    pub public_inputs: PublicInputs,
}

/// Whether the run `run` of a witness program gave a witness with which
/// `base` can be proved: it gave words, eight for each value, and `base`
/// with the values they stand for is provable.
pub open spec fn run_accepted(base: CircuitInstance, run: Option<Seq<u32>>) -> bool {
    run matches Some(words) && words.len() % 8 == 0 && provable(with_witness(base, words, 8))
}

/// Takes what the run of a witness program gave for the witness of `base`,
/// if and only if `base` can be proved with it; refuses it with `Witness`
/// where the run gave nothing, where it gave no whole number of values, and
/// where `base` cannot be proved with the values.
pub fn take_witness(base: CircuitInstance, run: &Option<Vec<u32>>) -> (r: Result<
    (Witness, PublicInputs),
    ErrorKind,
>)
    ensures
        r is Ok <==> run_accepted(
            base,
            match run {
                Some(words) => Some(words@),
                None => None,
            },
        ),
        r matches Ok(pair) ==> run matches Some(words) && pair.0.system() == with_witness(
            base,
            words@,
            8,
        ),
        r matches Ok(pair) ==> layout_of(pair.0.system()).public_wires == layout_of(
            base,
        ).public_wires,
        r matches Ok(pair) ==> input_count(pair.1) + 1 == layout_of(base).public_wires,
        r matches Err(kind) ==> kind == ErrorKind::Witness,
{
    match run {
        Some(words) => {
            if words.len() % 8 != 0 {
                return Err(ErrorKind::Witness);
            }
            Witness::accept(witness_circuit(base, words, 8))
        },
        None => Err(ErrorKind::Witness),
    }
}

/// Whether `built` is what the witness builder yields for `circuit`: a
/// structure without a witness from which keys can be generated, an
/// instance that can be proved, both with the public wires that the circuit
/// declares, and one public input for each public signal.
pub open spec fn built_from(built: BuiltCircuit, circuit: CircuitDescription) -> bool {
    &&& layout_of(built.structural.system()).witness is None
    &&& keyed(built.structural.system())
    &&& provable(built.witness.system())
    &&& layout_of(built.witness.system()).public_wires == layout_of(
        built.structural.system(),
    ).public_wires
    &&& layout_of(built.witness.system()).public_wires == circuit.declared_shape().public_wires()
    &&& input_count(built.public_inputs) + 1 == layout_of(built.witness.system()).public_wires
}

/// Builds the witness of `circuit` for `assignment`.
///
/// The program is run on the assignment, every value under its signal and
/// in order, and the witness it gives is taken if and only if it can be
/// proved (see `Witness::accept`). Fails with `Witness`, and with nothing
/// else: where the run ends without a witness, and where the witness is
/// refused. Whether the run gives a witness is up to the program.
pub fn build_witness(circuit: CircuitDescription, assignment: &Assignment) -> (r: Result<
    BuiltCircuit,
    ErrorKind,
>)
    ensures
        r matches Err(kind) ==> kind == ErrorKind::Witness,
        r matches Ok(built) ==> built_from(built, circuit),
{
    proof {
        use_type_invariant(&circuit);
    }
    let wires = circuit.shape.wires;
    let mut program = circuit.program;
    let base = circuit.structure;
    let run = run_program(&mut program, assignment, wires);
    let structural = Structure { instance: copy_instance(&base) };
    match take_witness(base, &run) {
        Ok((witness, public_inputs)) => Ok(BuiltCircuit { structural, witness, public_inputs }),
        Err(kind) => Err(kind),
    }
}

/// Generates a key pair for the constraint system of `structural`, with
/// randomness of this thread. Fails with `Setup`, and with nothing else.
pub fn generate_parameters(structural: Structure) -> (r: Result<ProvingKey, ErrorKind>)
    ensures
        r matches Err(kind) ==> kind == ErrorKind::Setup,
        r matches Ok(key) ==> proving_key_wires(key) == layout_of(
            structural.system(),
        ).public_wires,
{
    proof {
        use_type_invariant(&structural);
    }
    let mut rng = thread_generator();
    match generate_key(structural.instance, &mut rng) {
        Ok(key) => Ok(key),
        Err(_) => Err(ErrorKind::Setup),
    }
}

/// A proof and the time it took to make, in milliseconds.
pub struct TimedProof {
    pub proof: Proof,
    pub millis: u128,
}

/// Proves `witness` under `key`, with randomness of this thread, and
/// measures the time. Fails with `Prove`, and with nothing else.
pub fn prove(key: &ProvingKey, witness: Witness) -> (r: Result<TimedProof, ErrorKind>)
    ensures
        r matches Err(kind) ==> kind == ErrorKind::Prove,
{
    proof {
        use_type_invariant(&witness);
    }
    let mut rng = thread_generator();
    let start = clock_now();
    let made = create_proof(key, witness.instance, &mut rng);
    let span = elapsed_since(&start);
    match made {
        Ok(proof) => Ok(TimedProof { proof, millis: whole_millis(&span) }),
        Err(_) => Err(ErrorKind::Prove),
    }
}

/// Prepares the verification key that belongs to `key` for repeated use.
/// The backend always answers with a key, so this does not fail.
pub fn prepare_key(key: &ProvingKey) -> (r: Result<PreparedKey, ErrorKind>)
    ensures
        r is Ok,
        r matches Ok(prepared) ==> key_wires(prepared) == proving_key_wires(*key),
{
    match process_key(key) {
        Ok(prepared) => Ok(prepared),
        Err(_) => Err(ErrorKind::Verify),
    }
}

/// Whether `inputs` has one value for each public signal that `key` was
/// made for.
pub open spec fn inputs_fit(key: PreparedKey, inputs: PublicInputs) -> bool {
    input_count(inputs) + 1 == key_wires(key)
}

/// Checks `proof` against `key` and the public inputs. Where there is one
/// input for each public signal of the key, the answer is the verdict of
/// the verifier; where there is not, it is the error `Verify`.
pub fn verify(key: &PreparedKey, inputs: &PublicInputs, proof: &Proof) -> (r: Result<
    bool,
    ErrorKind,
>)
    ensures
        inputs_fit(*key, *inputs) ==> r == Ok::<bool, ErrorKind>(
            pairing_verdict(*key, *inputs, *proof),
        ),
        !inputs_fit(*key, *inputs) ==> r == Err::<bool, ErrorKind>(ErrorKind::Verify),
{
    let wires = key_wire_count(key);
    let count = public_input_count(inputs);
    if wires == 0 || count != wires - 1 {
        return Err(ErrorKind::Verify);
    }
    match check_proof(key, inputs, proof) {
        Ok(valid) => Ok(valid),
        Err(_) => Err(ErrorKind::Verify),
    }
}

/// An invocation that ended at `stage` without an accepted time.
fn ended(stage: Stage) -> (outcome: Outcome)
    ensures
        outcome.stage == stage,
        outcome.proving_millis == 0,
{
    Outcome { stage, proving_millis: 0 }
}

/// Whether an invocation whose inputs are normalised can end at `stage`: it
/// ends with a verdict or with a failure of loading, of the witness, of the
/// setup or of the prover. The verifier always gives its verdict, since the
/// public inputs are those of the witness and the key is made for them.
pub open spec fn can_end_at(stage: Stage) -> bool {
    is_terminal(stage) && stage != Stage::Failed(ErrorKind::Marshal) && stage != Stage::Failed(
        ErrorKind::Verify,
    )
}

/// Runs the pipeline for `assignment` on the circuit given by its two
/// artifacts, each step once and in order; the first failure ends it.
///
/// The outcome names the stage at which the invocation ended, and the
/// proving time where a verdict was reached. An invocation on a constraint
/// file that cannot be loaded ends with `Failed(CircuitLoad)`.
pub fn prove_and_verify(wasm: &[u8], r1cs: &[u8], assignment: &Assignment) -> (outcome: Outcome)
    ensures
        can_end_at(outcome.stage),
        !loadable(r1cs@) ==> outcome.stage == Stage::Failed(ErrorKind::CircuitLoad),
        !(outcome.stage is Verified) ==> outcome.proving_millis == 0,
{
    let stage = Stage::InputsNormalized;
    let circuit = match load_circuit(wasm, r1cs) {
        Ok(circuit) => circuit,
        Err(_) => {
            return ended(advance(stage, Event::Failure));
        },
    };
    let stage = advance(stage, Event::Done);
    let built = match build_witness(circuit, assignment) {
        Ok(built) => built,
        Err(_) => {
            return ended(advance(stage, Event::Failure));
        },
    };
    let stage = advance(stage, Event::Done);
    let key = match generate_parameters(built.structural) {
        Ok(key) => key,
        Err(_) => {
            return ended(advance(stage, Event::Failure));
        },
    };
    let stage = advance(stage, Event::Done);
    let timed = match prove(&key, built.witness) {
        Ok(timed) => timed,
        Err(_) => {
            return ended(advance(stage, Event::Failure));
        },
    };
    let stage = advance(stage, Event::Done);
    let prepared = match prepare_key(&key) {
        Ok(prepared) => prepared,
        Err(_) => {
            return ended(advance(stage, Event::Failure));
        },
    };
    conclude(verify(&prepared, &built.public_inputs, &timed.proof), timed.millis)
}

/// Proves and verifies one request: normalises its raw inputs and runs the
/// pipeline on the result.
///
/// Normalising cannot fail, so the invocation ends as `prove_and_verify`
/// ends on the normalised inputs.
pub fn prove_passport(inputs: &CircuitInputs, wasm: &[u8], r1cs: &[u8]) -> (outcome: Outcome)
    ensures
        can_end_at(outcome.stage),
        !loadable(r1cs@) ==> outcome.stage == Stage::Failed(ErrorKind::CircuitLoad),
        !(outcome.stage is Verified) ==> outcome.proving_millis == 0,
{
    let assignment = normalize(inputs);
    prove_and_verify(wasm, r1cs, &assignment)
}

} // verus!
