//! Running the witness program.
//!
//! A witness program is driven through a handful of its functions: it tells
//! its field, takes the inputs signal by signal and value by value through
//! a shared buffer of words, and gives the witness back wire by wire. The
//! library makes each call itself and takes every answer as it comes: a
//! function that is missing, a call that fails and an answer that is no
//! number all end the run without a witness.

use crate::assignment::Assignment;
use crate::backend::{call_export, Program};
use crate::inputs::scalar_field_order;
use vstd::prelude::*;
use vstd::string::*;

verus! {

/// The number of 32-bit words in which a value of the scalar field is
/// exchanged with the program.
pub const FIELD_WORDS: u32 = 8;

/// The order of the scalar field in words, least significant word first.
pub open spec fn order_words() -> Seq<u32> {
    seq![
        0xf000_0001u32,
        0x43e1_f593u32,
        0x79b9_7091u32,
        0x2833_e848u32,
        0x8181_585du32,
        0xb850_45b6u32,
        0xe131_a029u32,
        0x3064_4e72u32,
    ]
}

/// The number that eight words stand for, least significant word first.
pub open spec fn number_of(words: Seq<u32>) -> nat
    recommends
        words.len() == 8,
{
    (words[0] as nat) + (words[1] as nat) * 0x1_0000_0000nat + (words[2] as nat)
        * 0x1_0000_0000_0000_0000nat + (words[3] as nat) * 0x1_0000_0000_0000_0000_0000_0000nat
        + (words[4] as nat) * 0x1_0000_0000_0000_0000_0000_0000_0000_0000nat + (words[5] as nat)
        * 0x1_0000_0000_0000_0000_0000_0000_0000_0000_0000_0000nat + (words[6] as nat)
        * 0x1_0000_0000_0000_0000_0000_0000_0000_0000_0000_0000_0000_0000nat + (words[7] as nat)
        * 0x1_0000_0000_0000_0000_0000_0000_0000_0000_0000_0000_0000_0000_0000_0000nat
}

/// The words in which `value` is handed to the program: its four words,
/// least significant first, and four words of zero above them.
pub open spec fn value_words(value: u128) -> Seq<u32> {
    seq![
        (value % 0x1_0000_0000) as u32,
        ((value / 0x1_0000_0000) % 0x1_0000_0000) as u32,
        ((value / 0x1_0000_0000_0000_0000) % 0x1_0000_0000) as u32,
        (value / 0x1_0000_0000_0000_0000_0000_0000) as u32,
        0u32,
        0u32,
        0u32,
        0u32,
    ]
}

/// The words of the order stand for the order of the scalar field.
pub proof fn lemma_order_words()
    ensures
        order_words().len() == FIELD_WORDS,
        number_of(order_words()) == scalar_field_order(),
{
}

/// The words of a value stand for the value: nothing is lost on the way to
/// the program.
pub proof fn lemma_words_keep_value(value: u128)
    ensures
        value_words(value).len() == FIELD_WORDS,
        number_of(value_words(value)) == value,
{
}

/// Decides whether `words` are the words of the order of the scalar field.
pub fn is_scalar_field(words: &Vec<u32>) -> (r: bool)
    ensures
        r == (words@ == order_words()),
{
    let r = words.len() == 8 && words[0] == 0xf000_0001u32 && words[1] == 0x43e1_f593u32
        && words[2] == 0x79b9_7091u32 && words[3] == 0x2833_e848u32 && words[4]
        == 0x8181_585du32 && words[5] == 0xb850_45b6u32 && words[6] == 0xe131_a029u32
        && words[7] == 0x3064_4e72u32;
    proof {
        if r {
            assert(words@ =~= order_words());
        } else if words@.len() == 8 {
            assert(exists|i: int| 0 <= i < 8 && words@[i] != order_words()[i]);
        }
    }
    r
}

/// Cuts `value` into the words in which it is handed to the program.
pub fn words_of(value: u128) -> (r: Vec<u32>)
    ensures
        r@ == value_words(value),
{
    let mut r: Vec<u32> = Vec::new();
    r.push((value % 0x1_0000_0000u128) as u32);
    r.push(((value / 0x1_0000_0000u128) % 0x1_0000_0000u128) as u32);
    r.push(((value / 0x1_0000_0000_0000_0000u128) % 0x1_0000_0000u128) as u32);
    r.push((value / 0x1_0000_0000_0000_0000_0000_0000u128) as u32);
    r.push(0);
    r.push(0);
    r.push(0);
    r.push(0);
    assert(r@ =~= value_words(value));
    r
}

/// One step of the hash under which a program knows a signal: the byte is
/// mixed in and the result multiplied, in 64 bits.
pub open spec fn hash_step(hash: u64, byte: u8) -> u64 {
    ((((hash ^ (byte as u64)) as int) * 0x100_0000_01b3) % 0x1_0000_0000_0000_0000) as u64
}

/// The hash of `bytes`: the steps over its bytes in order, from the fixed
/// start.
pub open spec fn hash_of(bytes: Seq<u8>) -> u64
    decreases bytes.len(),
{
    if bytes.len() == 0 {
        0xcbf2_9ce4_8422_2325u64
    } else {
        hash_step(hash_of(bytes.drop_last()), bytes.last())
    }
}

/// Computes the two halves, upper first, of the hash under which a program
/// knows the signal called `name`.
pub fn signal_hash(name: &str) -> (r: (u32, u32))
    ensures
        r.0 == hash_of(name.spec_bytes()) / 0x1_0000_0000,
        r.1 == hash_of(name.spec_bytes()) % 0x1_0000_0000,
{
    let bytes = name.as_bytes();
    let mut hash: u64 = 0xcbf2_9ce4_8422_2325u64;
    let mut i: usize = 0;
    assert(bytes@.subrange(0, 0) =~= Seq::<u8>::empty());
    while i < bytes.len()
        invariant
            i <= bytes@.len(),
            hash == hash_of(bytes@.subrange(0, i as int)),
        decreases bytes@.len() - i,
    {
        let mixed: u64 = hash ^ (bytes[i] as u64);
        proof {
            assert(bytes@.subrange(0, i + 1).drop_last() =~= bytes@.subrange(0, i as int));
        }
        hash = ((mixed as u128) * 0x100_0000_01b3u128 % 0x1_0000_0000_0000_0000u128) as u64;
        i = i + 1;
    }
    assert(bytes@.subrange(0, bytes@.len() as int) =~= bytes@);
    ((hash / 0x1_0000_0000u64) as u32, (hash % 0x1_0000_0000u64) as u32)
}

/// Calls a function of the program that takes no argument.
fn ask(program: &mut Program, name: &str) -> Option<u32> {
    let arguments: Vec<u32> = Vec::new();
    first_number(call_export(program, name, &arguments))
}

/// Calls a function of the program with one argument.
fn ask_at(program: &mut Program, name: &str, at: u32) -> Option<u32> {
    let mut arguments: Vec<u32> = Vec::new();
    arguments.push(at);
    first_number(call_export(program, name, &arguments))
}

/// The first result of a call, where the call was made and its first result
/// is a number; `None` in every other case.
pub fn first_number(answer: Option<Vec<Option<u32>>>) -> (r: Option<u32>)
    ensures
        r == match answer {
            Some(results) => if results@.len() > 0 {
                results@[0]
            } else {
                None
            },
            None => None,
        },
{
    match answer {
        Some(results) => if results.len() > 0 {
            results[0]
        } else {
            None
        },
        None => None,
    }
}

/// Reads the field of the program: the words of its order, least
/// significant first. `None` where the program does not tell, or tells a
/// field of another width than that of the scalar field.
pub fn read_field(program: &mut Program) -> (r: Option<Vec<u32>>)
    ensures
        r matches Some(words) ==> words@.len() == FIELD_WORDS,
{
    match ask(program, "getFieldNumLen32") {
        Some(width) => if width != FIELD_WORDS {
            return None;
        },
        None => {
            return None;
        },
    }
    let none: Vec<u32> = Vec::new();
    if call_export(program, "getRawPrime", &none).is_none() {
        return None;
    }
    let mut words: Vec<u32> = Vec::new();
    let mut j: u32 = 0;
    while j < FIELD_WORDS
        invariant
            j <= FIELD_WORDS,
            words@.len() == j,
        decreases FIELD_WORDS - j,
    {
        match ask_at(program, "readSharedRWMemory", j) {
            Some(word) => words.push(word),
            None => {
                return None;
            },
        }
        j = j + 1;
    }
    Some(words)
}

/// Hands one value to the program as the `place`-th value of the signal
/// with the given hash. Says whether every call was made.
fn set_input(program: &mut Program, hash: (u32, u32), place: u32, value: u128) -> bool {
    let words = words_of(value);
    let mut j: u32 = 0;
    while j < FIELD_WORDS
        invariant
            j <= FIELD_WORDS,
            words@.len() == FIELD_WORDS,
        decreases FIELD_WORDS - j,
    {
        let mut arguments: Vec<u32> = Vec::new();
        arguments.push(j);
        arguments.push(words[j as usize]);
        if call_export(program, "writeSharedRWMemory", &arguments).is_none() {
            return false;
        }
        j = j + 1;
    }
    let mut arguments: Vec<u32> = Vec::new();
    arguments.push(hash.0);
    arguments.push(hash.1);
    arguments.push(place);
    call_export(program, "setInputSignal", &arguments).is_some()
}

/// Hands every value of `assignment` to the program, signal by signal and
/// value by value in their order. Says whether every call was made.
fn set_inputs(program: &mut Program, assignment: &Assignment) -> bool {
    let count = assignment.signal_count();
    let mut i: usize = 0;
    while i < count
        invariant
            i <= count,
            count == assignment.signals().len(),
        decreases count - i,
    {
        let hash = signal_hash(assignment.signal_name(i).as_str());
        let values = assignment.signal_values(i);
        if values.len() > 0xffff_ffff {
            return false;
        }
        let mut k: usize = 0;
        while k < values.len()
            invariant
                k <= values@.len(),
                values@.len() <= 0xffff_ffff,
            decreases values@.len() - k,
        {
            if !set_input(program, hash, k as u32, values[k]) {
                return false;
            }
            k = k + 1;
        }
        i = i + 1;
    }
    true
}

/// Runs the program on `assignment` and reads the witness: for each of the
/// `wires` wires its value in `FIELD_WORDS` words, least significant first.
///
/// `None` where a call fails or an answer is no number, and where the
/// program reports a witness of another size than `wires`. Whether a
/// witness comes back is up to the program.
pub fn run_program(program: &mut Program, assignment: &Assignment, wires: u32) -> (r: Option<
    Vec<u32>,
>)
    ensures
        r matches Some(words) ==> words@.len() == wires * FIELD_WORDS,
{
    let mut start: Vec<u32> = Vec::new();
    start.push(0);
    if call_export(program, "init", &start).is_none() {
        return None;
    }
    if !set_inputs(program, assignment) {
        return None;
    }
    match ask(program, "getWitnessSize") {
        Some(size) => if size != wires {
            return None;
        },
        None => {
            return None;
        },
    }
    let mut words: Vec<u32> = Vec::new();
    let mut wire: u32 = 0;
    while wire < wires
        invariant
            wire <= wires,
            words@.len() == wire * FIELD_WORDS,
        decreases wires - wire,
    {
        let mut arguments: Vec<u32> = Vec::new();
        arguments.push(wire);
        if call_export(program, "getWitness", &arguments).is_none() {
            return None;
        }
        let mut j: u32 = 0;
        while j < FIELD_WORDS
            invariant
                j <= FIELD_WORDS,
                wire < wires,
                words@.len() == wire * FIELD_WORDS + j,
            decreases FIELD_WORDS - j,
        {
            match ask_at(program, "readSharedRWMemory", j) {
                Some(word) => words.push(word),
                None => {
                    return None;
                },
            }
            j = j + 1;
        }
        wire = wire + 1;
    }
    Some(words)
}

} // verus!
