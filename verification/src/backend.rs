//! The doors to the proving backend.
//!
//! Decoding the artifacts, computing the witness and the Groth16 scheme are
//! the work of `ark-circom`, `wasmer` and `ark-groth16`. Each function here
//! makes one call into them; its contract is assumed, not proved, and says
//! no more than the called code shows. The values that pass between the
//! calls are opaque: nothing is known of them but what the contracts say.
//!
//! The library checks what can be checked on plain values before it makes
//! a call: that the header of the constraint file declares a wire, that no constraint
//! names a wire that is not declared, that the witness has a value for every
//! wire and satisfies the constraints, that there is one public input for
//! each public wire of the key. The witness program is not handed to a
//! calculator of the backend: the library calls its functions one by one
//! and takes every answer as it comes, so that a program that misbehaves
//! ends in an error. What is left open is a machine without memory for the
//! program or without entropy, and a setup that draws a zero.

use crate::circuit::{CircuitShape, WitnessLayout};
use ark_bn254::{Bn254, Fr};
use ark_circom::circom::{R1CSFile, R1CS};
use ark_circom::{CircomCircuit, Wasm, WitnessCalculator};
use ark_ff::PrimeField;
use ark_crypto_primitives::snark::SNARK;
use ark_groth16::Groth16;
use ark_relations::gr1cs::{
    ConstraintSynthesizer, ConstraintSystem, ConstraintSystemRef, SynthesisError,
};
use ark_serialize::SerializationError;
use ark_std::rand::rngs::ThreadRng;
use color_eyre::Report;
use std::io::Cursor;
use std::time::{Duration, Instant};
use vstd::prelude::*;
use wasmer::sys::{BaseTunables, NativeEngineExt};
use wasmer::{CompileError, Engine, Module, Pages, Store, Value};

verus! {

/// `wasmer::Engine`: what compiles a program.
#[verifier::external_type_specification]
#[verifier::external_body]
pub struct ExEngine(Engine);

/// `wasmer::sys::BaseTunables`: how an engine lays out the memories of the
/// programs it runs.
#[verifier::external_type_specification]
#[verifier::external_body]
pub struct ExBaseTunables(BaseTunables);

/// `wasmer::Store`: an engine with the state of the programs it runs.
#[verifier::external_type_specification]
#[verifier::external_body]
pub struct ExStore(Store);

/// `wasmer::Module`: a compiled program.
#[verifier::external_type_specification]
#[verifier::external_body]
pub struct ExModule(Module);

/// `wasmer::CompileError`: why a program was not compiled.
#[verifier::external_type_specification]
#[verifier::external_body]
pub struct ExCompileError(CompileError);

/// `color_eyre::Report`: the error of `ark-circom`.
#[verifier::external_type_specification]
#[verifier::external_body]
pub struct ExReport(Report);

/// `ark_serialize::SerializationError`: why a constraint file was not read.
#[verifier::external_type_specification]
#[verifier::external_body]
pub struct ExSerializationError(SerializationError);

/// `ark_relations::gr1cs::SynthesisError`: the error of `ark-groth16`.
#[verifier::external_type_specification]
#[verifier::external_body]
pub struct ExSynthesisError(SynthesisError);

/// `rand::rngs::ThreadRng`: a handle to the thread's random number generator.
#[verifier::external_type_specification]
#[verifier::external_body]
pub struct ExThreadRng(ThreadRng);

/// `std::time::Instant`: a reading of the monotonic clock.
#[verifier::external_type_specification]
#[verifier::external_body]
pub struct ExInstant(Instant);

/// A decoded constraint file (`ark_circom::circom::R1CSFile` over the scalar
/// field of BN254).
#[verifier::external_body]
pub struct ConstraintFile {
    inner: R1CSFile<Fr>,
}

/// A witness program that runs: a `wasmer::Store` and the instance of the
/// program in it (`ark_circom::Wasm`).
#[verifier::external_body]
pub struct Program {
    store: Store,
    wasm: Wasm,
}

/// A constraint system with or without a witness
/// (`ark_circom::CircomCircuit`).
#[verifier::external_body]
pub struct CircuitInstance {
    inner: CircomCircuit<Fr>,
}

/// The constraints of a circuit instance written out with the values of its
/// witness (`ark_relations::gr1cs::ConstraintSystemRef`).
#[verifier::external_body]
pub struct Synthesis {
    inner: ConstraintSystemRef<Fr>,
}

/// The proving key of a key pair; it holds the verification key
/// (`ark_groth16::ProvingKey` over BN254).
#[verifier::external_body]
pub struct ProvingKey {
    inner: ark_groth16::ProvingKey<Bn254>,
}

/// A verification key prepared for repeated use
/// (`ark_groth16::PreparedVerifyingKey` over BN254).
#[verifier::external_body]
pub struct PreparedKey {
    inner: ark_groth16::PreparedVerifyingKey<Bn254>,
}

/// A proof (`ark_groth16::Proof` over BN254).
#[verifier::external_body]
pub struct Proof {
    inner: ark_groth16::Proof<Bn254>,
}

/// The values of the public signals, in the order of their wires, as
/// elements of the scalar field of BN254.
#[verifier::external_body]
pub struct PublicInputs {
    pub values: Vec<Fr>,
}

/// The shape that the reader of constraint files finds in `bytes`, or `None`
/// where it rejects them.
pub uninterp spec fn r1cs_shape(bytes: Seq<u8>) -> Option<CircuitShape>;

/// The shape declared by the header of a decoded constraint file.
pub uninterp spec fn file_shape(file: ConstraintFile) -> CircuitShape;

/// The numbers of the wires that the constraints name in the file that the
/// reader finds in `bytes`, in the order of the constraints.
pub uninterp spec fn r1cs_wires(bytes: Seq<u8>) -> Seq<usize>;

/// The measures of a circuit instance.
pub uninterp spec fn layout_of(instance: CircuitInstance) -> WitnessLayout;

/// The numbers of the wires that the constraints of a decoded file name, in
/// the order of the constraints.
pub uninterp spec fn file_wires(file: ConstraintFile) -> Seq<usize>;

/// The numbers of the wires that the constraints of an instance name, in
/// the order of the constraints.
pub uninterp spec fn wires_named(instance: CircuitInstance) -> Seq<usize>;

/// The instance `base` with another witness: the elements of the scalar
/// field that `words` stand for, every `width` words one element, least
/// significant word first.
pub uninterp spec fn with_witness(base: CircuitInstance, words: Seq<u32>, width: nat) -> CircuitInstance;

/// Whether the witness of an instance satisfies every constraint.
pub uninterp spec fn satisfied(instance: CircuitInstance) -> bool;

/// Whether a written-out constraint system holds for its values.
pub uninterp spec fn holds(system: Synthesis) -> bool;

/// The verdict of the verifier on a key, public inputs and a proof: whether
/// the pairing equation holds for them.
pub uninterp spec fn pairing_verdict(key: PreparedKey, inputs: PublicInputs, proof: Proof) -> bool;

/// The number of public wires for which a proving key was made, the
/// constant wire included.
pub uninterp spec fn proving_key_wires(key: ProvingKey) -> nat;

/// The number of public wires for which a key was made, the constant wire
/// included.
pub uninterp spec fn key_wires(key: PreparedKey) -> nat;

/// The number of values in a list of public inputs.
pub uninterp spec fn input_count(inputs: PublicInputs) -> nat;

/// `wasmer::Engine::default`: the engine with the default compiler.
#[verifier::external_body]
pub(crate) fn default_engine() -> Engine {
    Engine::default()
}

/// The `wasmer::sys::BaseTunables` with the given bound, in pages, on
/// memories that are reserved in full, and the given sizes, in bytes, of the
/// guards behind a reserved memory and behind a growing one.
#[verifier::external_body]
pub(crate) fn memory_tunables(bound: u32, reserved_guard: u64, growing_guard: u64) -> BaseTunables {
    BaseTunables {
        static_memory_bound: Pages(bound),
        static_memory_offset_guard_size: reserved_guard,
        dynamic_memory_offset_guard_size: growing_guard,
    }
}

/// `wasmer::sys::NativeEngineExt::set_tunables`: makes the engine lay out
/// memories as `tunables` say.
#[verifier::external_body]
pub(crate) fn set_tunables(engine: &mut Engine, tunables: BaseTunables) {
    engine.set_tunables(tunables)
}

/// `wasmer::Store::new`: a store for the programs of `engine`.
#[verifier::external_body]
pub(crate) fn new_store(engine: Engine) -> Store {
    Store::new(engine)
}

/// `wasmer::Module::new`: compiles a program given in binary or text form.
/// Nothing is claimed of the result.
#[verifier::external_body]
pub(crate) fn compile_module(store: &Store, wasm: &[u8]) -> Result<Module, CompileError> {
    Module::new(store, wasm)
}

/// `ark_circom::WitnessCalculator::make_wasm_runtime`: instantiates a
/// compiled program in `store`, with the memory and the callbacks that a
/// witness program imports. Nothing is claimed of the result.
#[verifier::external_body]
pub(crate) fn start_program(store: Store, module: Module) -> Result<Program, Report> {
    let mut store = store;
    WitnessCalculator::make_wasm_runtime(&mut store, module).map(|wasm| Program { store, wasm })
}

/// `wasmer::Function::call` on the export called `name`, looked up with
/// `wasmer::Exports::get_function`. The arguments go in as 32-bit integers.
/// `None` says that there is no such function or that the call failed; else
/// every result that is a 32-bit integer comes back as `Some` of it and
/// every other result as `None`. Nothing is claimed of what comes back. A
/// program that does not come back from the call keeps the caller waiting.
#[verifier::external_body]
pub(crate) fn call_export(program: &mut Program, name: &str, arguments: &Vec<u32>) -> Option<Vec<Option<u32>>> {
    let function = program.wasm.instance.exports.get_function(name).ok()?;
    let values: Vec<Value> = arguments.iter().map(|a| Value::I32(*a as i32)).collect();
    let results = function.call(&mut program.store, &values).ok()?;
    Some(results.iter().map(|v| v.i32().map(|n| n as u32)).collect())
}

/// `ark_circom::circom::R1CSFile::new` on a cursor over `r1cs`. The reader is a
/// function of the bytes alone: what it answers is what `r1cs_shape` and
/// `r1cs_wires` name, and a file it accepts has that shape in its header and
/// names those wires. It walks the table of sections to the header and
/// takes the first label from a list as long as the header declares wires,
/// so the header that it finds has to declare one.
#[verifier::external_body]
pub(crate) fn read_constraints(r1cs: &[u8]) -> (r: Result<ConstraintFile, SerializationError>)
    requires
        crate::circuit::declared_wires(r1cs@) != Some(0int),
    ensures
        r matches Ok(file) ==> r1cs_shape(r1cs@) == Some(file_shape(file)),
        r matches Ok(file) ==> r1cs_wires(r1cs@) == file_wires(file),
        r is Err ==> r1cs_shape(r1cs@) is None,
{
    R1CSFile::new(Cursor::new(r1cs)).map(|inner| ConstraintFile { inner })
}

/// Reads the header of a decoded constraint file into plain numbers.
#[verifier::external_body]
pub(crate) fn header_shape(file: &ConstraintFile) -> (r: CircuitShape)
    ensures
        r == file_shape(*file),
{
    CircuitShape {
        wires: file.inner.header.n_wires,
        public_outputs: file.inner.header.n_pub_out,
        public_inputs: file.inner.header.n_pub_in,
        private_inputs: file.inner.header.n_prv_in,
        labels: file.inner.header.n_labels,
        constraints: file.inner.header.n_constraints,
    }
}

/// Reads the numbers of the wires that the constraints of a decoded file
/// name.
#[verifier::external_body]
pub(crate) fn file_named_wires(file: &ConstraintFile) -> (r: Vec<usize>)
    ensures
        r@ == file_wires(*file),
{
    let terms = file.inner.constraints.iter().flat_map(|c| [&c.0, &c.1, &c.2]);
    terms.flat_map(|side| side.iter().map(|term| term.0)).collect()
}

/// `ark_circom::circom::R1CS::from` on the file, and the
/// `ark_circom::CircomCircuit` made of its result without a witness and
/// without the table of labels. The conversion subtracts the number of
/// public wires from the number of wires, so the header has to be
/// consistent.
#[verifier::external_body]
pub(crate) fn structure_of(file: ConstraintFile) -> (r: CircuitInstance)
    requires
        file_shape(file).consistent(),
    ensures
        layout_of(r).witness is None,
        !layout_of(r).relabelled,
        layout_of(r).public_wires == file_shape(file).public_wires(),
        layout_of(r).wires() == file_shape(file).wires,
        wires_named(r) == file_wires(file),
{
    let mut r1cs = R1CS::from(file.inner);
    r1cs.wire_mapping = None;
    CircuitInstance { inner: CircomCircuit { r1cs, witness: None } }
}

/// Copies a circuit instance (`Clone` of `ark_circom::CircomCircuit`).
#[verifier::external_body]
pub(crate) fn copy_instance(instance: &CircuitInstance) -> (r: CircuitInstance)
    ensures
        layout_of(r) == layout_of(*instance),
        wires_named(r) == wires_named(*instance),
{
    CircuitInstance { inner: instance.inner.clone() }
}

/// Reads the numbers of the wires that the constraints of an instance name.
#[verifier::external_body]
pub(crate) fn named_wires(instance: &CircuitInstance) -> (r: Vec<usize>)
    ensures
        r@ == wires_named(*instance),
{
    let terms = instance.inner.r1cs.constraints.iter().flat_map(|c| [&c.0, &c.1, &c.2]);
    terms.flat_map(|side| side.iter().map(|term| term.0)).collect()
}

/// `ark_ff::PrimeField::from_le_bytes_mod_order` on every `width` words of
/// `words`, least significant word first: the elements of the scalar field
/// that the words stand for. They are set into `base` as its witness;
/// nothing else of `base` changes. The words are cut into pieces of `width`,
/// which therefore is not zero.
#[verifier::external_body]
pub(crate) fn witness_circuit(base: CircuitInstance, words: &Vec<u32>, width: usize) -> (r: CircuitInstance)
    requires
        width > 0,
        words@.len() % (width as nat) == 0,
    ensures
        r == with_witness(base, words@, width as nat),
        layout_of(r).witness == Some((words@.len() / (width as nat)) as usize),
        layout_of(r).relabelled == layout_of(base).relabelled,
        layout_of(r).public_wires == layout_of(base).public_wires,
        layout_of(r).private_wires == layout_of(base).private_wires,
        wires_named(r) == wires_named(base),
{
    let bytes = |piece: &[u32]| piece.iter().flat_map(|w| w.to_le_bytes()).collect::<Vec<u8>>();
    let witness = words.chunks(width).map(|piece| Fr::from_le_bytes_mod_order(&bytes(piece)));
    let mut circuit = base.inner;
    circuit.witness = Some(witness.collect());
    CircuitInstance { inner: circuit }
}

/// `ark_circom::CircomCircuit::generate_constraints` into a fresh
/// `ark_relations::gr1cs::ConstraintSystem`: writes out the constraints of
/// the instance with the values of its witness. It reads a value for every
/// wire and looks up every wire that a constraint names. On a fresh system
/// it does not fail.
#[verifier::external_body]
pub(crate) fn synthesize(instance: &CircuitInstance) -> (r: Result<Synthesis, SynthesisError>)
    requires
        layout_of(*instance).covered(),
        crate::circuit::all_below(wires_named(*instance), layout_of(*instance).wires()),
    ensures
        r is Ok,
        r matches Ok(system) ==> holds(system) == satisfied(*instance),
{
    let inner = ConstraintSystem::<Fr>::new_ref();
    instance.inner.clone().generate_constraints(inner.clone()).map(|_| Synthesis { inner })
}

/// `ark_relations::gr1cs::ConstraintSystemRef::is_satisfied`: whether every
/// constraint of the system holds for its values. A system that was written
/// out with values always gets an answer.
#[verifier::external_body]
pub(crate) fn is_satisfied(system: &Synthesis) -> (r: Result<bool, SynthesisError>)
    ensures
        r is Ok,
        r matches Ok(answer) ==> answer == holds(*system),
{
    system.inner.is_satisfied()
}

/// Reads the measures of a circuit instance into plain numbers.
#[verifier::external_body]
pub(crate) fn instance_layout(instance: &CircuitInstance) -> (r: WitnessLayout)
    ensures
        r == layout_of(*instance),
{
    WitnessLayout {
        public_wires: instance.inner.r1cs.num_inputs,
        private_wires: instance.inner.r1cs.num_aux,
        witness: instance.inner.witness.as_ref().map(|w| w.len()),
        relabelled: instance.inner.r1cs.wire_mapping.is_some(),
    }
}

/// `ark_circom::CircomCircuit::get_public_inputs`: the values of the wires
/// behind the constant wire up to the last public wire, where the instance
/// has a witness. It slices the witness, which therefore has to reach that
/// far.
#[verifier::external_body]
pub(crate) fn public_inputs(instance: &CircuitInstance) -> (r: Option<PublicInputs>)
    requires
        !layout_of(*instance).relabelled,
        layout_of(*instance).witness matches Some(values) ==> 1 <= layout_of(
            *instance,
        ).public_wires <= values,
    ensures
        r is Some <==> layout_of(*instance).witness is Some,
        r matches Some(inputs) ==> input_count(inputs) + 1 == layout_of(*instance).public_wires,
{
    instance.inner.get_public_inputs().map(|values| PublicInputs { values })
}

/// `rand::thread_rng` (by way of `ark_std`): the generator of this thread.
#[verifier::external_body]
pub(crate) fn thread_generator() -> ThreadRng {
    ark_std::rand::thread_rng()
}

/// `ark_groth16::Groth16::generate_random_parameters_with_reduction`: the
/// randomised setup for the constraint system of `instance`. It looks up
/// every wire that a constraint names, so these have to be declared. A key
/// that comes back holds one element for each public wire, the constant wire
/// included; nothing more is claimed of it.
#[verifier::external_body]
pub(crate) fn generate_key(instance: CircuitInstance, rng: &mut ThreadRng) -> (r: Result<ProvingKey, SynthesisError>)
    requires
        1 <= layout_of(instance).public_wires,
        crate::circuit::all_below(wires_named(instance), layout_of(instance).wires()),
    ensures
        r matches Ok(key) ==> proving_key_wires(key) == layout_of(instance).public_wires,
{
    Groth16::<Bn254>::generate_random_parameters_with_reduction(instance.inner, rng).map(
        |inner| ProvingKey { inner },
    )
}

/// `ark_groth16::Groth16::prove`: a proof for the witness of `instance`. The
/// prover reads a value for every wire and looks up every wire that a
/// constraint names; with debug assertions it asserts that the witness
/// satisfies the constraints. Nothing is claimed of the result.
#[verifier::external_body]
pub(crate) fn create_proof(
    key: &ProvingKey,
    instance: CircuitInstance,
    rng: &mut ThreadRng,
) -> Result<Proof, SynthesisError>
    requires
        layout_of(instance).covered(),
        crate::circuit::all_below(wires_named(instance), layout_of(instance).wires()),
        satisfied(instance),
{
    Groth16::<Bn254>::prove(&key.inner, instance.inner, rng).map(|inner| Proof { inner })
}

/// `ark_groth16::Groth16::process_vk` on the verification key inside `key`.
/// It always answers with a key, made for the same public wires.
#[verifier::external_body]
pub(crate) fn process_key(key: &ProvingKey) -> (r: Result<PreparedKey, SynthesisError>)
    ensures
        r is Ok,
        r matches Ok(prepared) ==> key_wires(prepared) == proving_key_wires(*key),
{
    Groth16::<Bn254>::process_vk(&key.inner.vk).map(|inner| PreparedKey { inner })
}

/// Counts the elements that the verification key holds for the public
/// wires.
#[verifier::external_body]
pub(crate) fn key_wire_count(key: &PreparedKey) -> (r: usize)
    ensures
        r == key_wires(*key),
{
    key.inner.vk.gamma_abc_g1.len()
}

/// Counts the values of a list of public inputs.
#[verifier::external_body]
pub(crate) fn public_input_count(inputs: &PublicInputs) -> (r: usize)
    ensures
        r == input_count(*inputs),
{
    inputs.values.len()
}

/// `ark_groth16::Groth16::verify_with_processed_vk`: whether the pairing
/// equation holds for key, public inputs and proof. The answer depends on
/// the three alone and is never an error. The verifier pairs the inputs with
/// the elements of the key behind the first and passes over what is left of
/// the longer list, so the two have to match in number.
#[verifier::external_body]
pub(crate) fn check_proof(key: &PreparedKey, inputs: &PublicInputs, proof: &Proof) -> (r: Result<bool, SynthesisError>)
    requires
        input_count(*inputs) + 1 == key_wires(*key),
    ensures
        r is Ok,
        r matches Ok(valid) ==> valid == pairing_verdict(*key, *inputs, *proof),
{
    Groth16::<Bn254>::verify_with_processed_vk(&key.inner, &inputs.values, &proof.inner)
}

/// `std::time::Instant::now`: the present reading of the clock.
#[verifier::external_body]
pub(crate) fn clock_now() -> Instant {
    Instant::now()
}

/// `std::time::Instant::elapsed`: the time since `start`.
#[verifier::external_body]
pub(crate) fn elapsed_since(start: &Instant) -> Duration {
    start.elapsed()
}

/// `std::time::Duration::as_millis`: the whole milliseconds in `span`.
#[verifier::external_body]
pub(crate) fn whole_millis(span: &Duration) -> u128 {
    span.as_millis()
}

} // verus!
