//! What is known in plain numbers of a circuit and of a witness for it.

use vstd::prelude::*;

verus! {

/// The shape of a constraint system, as its header declares it.
#[derive(Clone, Copy, Debug, PartialEq, Eq, Structural)]
pub struct CircuitShape {
    /// The number of wires, the constant wire included.
    pub wires: u32,
    /// The number of public output signals. They come first among the wires,
    /// behind the constant wire, in the order of their declaration.
    pub public_outputs: u32,
    /// The number of public input signals. They follow the public outputs.
    pub public_inputs: u32,
    /// The number of private input signals.
    pub private_inputs: u32,
    /// The number of labels.
    pub labels: u64,
    /// The number of constraints.
    pub constraints: u32,
}

impl CircuitShape {
    /// The wires that the verifier sees: the constant wire and the public
    /// signals.
    pub open spec fn public_wires(self) -> int {
        1 + self.public_outputs + self.public_inputs
    }

    /// Whether the header is consistent: the public wires are among the
    /// wires that it declares.
    pub open spec fn consistent(self) -> bool {
        self.public_wires() <= self.wires
    }

    /// Decides whether the header is consistent.
    pub fn is_consistent(&self) -> (r: bool)
        ensures
            r == self.consistent(),
    {
        1 + self.public_outputs as u64 + self.public_inputs as u64 <= self.wires as u64
    }
}

/// The measures of a circuit instance: how many wires its constraint system
/// has, and how many values its witness.
#[derive(Clone, Copy, Debug, PartialEq, Eq, Structural)]
pub struct WitnessLayout {
    /// The number of public wires, the constant wire included.
    pub public_wires: usize,
    /// The number of private wires. They follow the public wires.
    pub private_wires: usize,
    /// The number of values of the witness, where the instance has one.
    pub witness: Option<usize>,
    /// Whether the wires are renumbered through a table of labels.
    pub relabelled: bool,
}

impl WitnessLayout {
    /// The number of all wires.
    pub open spec fn wires(self) -> int {
        self.public_wires + self.private_wires
    }

    /// Whether the instance has a witness with a value for every wire, read
    /// by the wire's own number.
    pub open spec fn covered(self) -> bool {
        &&& !self.relabelled
        &&& 1 <= self.public_wires
        &&& self.witness matches Some(values) && self.public_wires + self.private_wires <= values
    }

    /// Decides whether the witness has a value for every wire.
    pub fn is_covered(&self) -> (r: bool)
        ensures
            r == self.covered(),
    {
        match (self.witness, self.public_wires.checked_add(self.private_wires)) {
            (Some(values), Some(wires)) => !self.relabelled && 1 <= self.public_wires && wires
                <= values,
            _ => false,
        }
    }
}

/// Whether every number of the list is below `bound`.
pub open spec fn all_below(numbers: Seq<usize>, bound: int) -> bool {
    forall|i: int| 0 <= i < numbers.len() ==> (#[trigger] numbers[i]) < bound
}

/// Decides whether every number of the list is below `bound`.
pub fn are_all_below(numbers: &Vec<usize>, bound: usize) -> (r: bool)
    ensures
        r == all_below(numbers@, bound as int),
{
    let mut i: usize = 0;
    while i < numbers.len()
        invariant
            i <= numbers@.len(),
            forall|k: int| 0 <= k < i ==> (#[trigger] numbers@[k]) < bound,
        decreases numbers@.len() - i,
    {
        if numbers[i] >= bound {
            return false;
        }
        i = i + 1;
    }
    true
}

/// The 32-bit number that stands at place `at` of `bytes`, least
/// significant byte first, where four bytes stand there.
pub open spec fn word_at(bytes: Seq<u8>, at: int) -> Option<int> {
    if 0 <= at && at + 4 <= bytes.len() {
        Some(
            bytes[at] as int + 0x100 * (bytes[at + 1] as int) + 0x1_0000 * (bytes[at + 2] as int)
                + 0x100_0000 * (bytes[at + 3] as int),
        )
    } else {
        None
    }
}

/// The 64-bit number that stands at place `at` of `bytes`, least
/// significant byte first, where eight bytes stand there.
pub open spec fn long_at(bytes: Seq<u8>, at: int) -> Option<int> {
    match (word_at(bytes, at), word_at(bytes, at + 4)) {
        (Some(low), Some(high)) => Some(low + 0x1_0000_0000 * high),
        _ => None,
    }
}

/// A 64-bit number read as a signed one.
pub open spec fn signed(size: int) -> int {
    if size < 0x8000_0000_0000_0000 {
        size
    } else {
        size - 0x1_0000_0000_0000_0000
    }
}

/// Where the walk over the table of sections ends up: the place of the
/// content of the last section of kind 1, the header, if there is one.
///
/// The walk stands at place `at` with `left` sections to go and has found
/// the header at `found` so far. Each section gives its kind in four bytes
/// and its size in eight; its content begins behind them, and the next
/// section stands the size, read as a signed number, behind that. The walk
/// fails, with `None`, where the bytes of a section are not there and where
/// the next place is below zero or beyond 64 bits.
pub open spec fn header_from(bytes: Seq<u8>, at: int, left: nat, found: Option<int>) -> Option<
    Option<int>,
>
    decreases left,
{
    if left == 0 {
        Some(found)
    } else {
        match (word_at(bytes, at), long_at(bytes, at + 4)) {
            (Some(kind), Some(size)) => {
                let next = at + 12 + signed(size);
                if next < 0 || next > 0xffff_ffff_ffff_ffff {
                    None
                } else {
                    header_from(
                        bytes,
                        next,
                        (left - 1) as nat,
                        if kind == 1 {
                            Some(at + 12)
                        } else {
                            found
                        },
                    )
                }
            },
            _ => None,
        }
    }
}

/// The place of the header in a constraint file: the file begins with the
/// letters `r1cs`, the version 1 and the number of sections, and the walk
/// over that many sections from place 12 finds the header. `None` where the
/// file begins otherwise, where the walk fails, and where it finds no
/// header.
pub open spec fn header_place(bytes: Seq<u8>) -> Option<int> {
    match (word_at(bytes, 0), word_at(bytes, 4), word_at(bytes, 8)) {
        (Some(magic), Some(version), Some(sections)) => if magic == 0x7363_3172 && version == 1 {
            match header_from(bytes, 12, sections as nat, None) {
                Some(found) => found,
                None => None,
            }
        } else {
            None
        },
        _ => None,
    }
}

/// The number of wires that the header of a constraint file declares: the
/// number behind the size and the order of the field, 36 bytes into the
/// header. `None` where no header is found or the number is not there.
pub open spec fn declared_wires(bytes: Seq<u8>) -> Option<int> {
    match header_place(bytes) {
        Some(place) => word_at(bytes, place + 36),
        None => None,
    }
}

/// Reads the 32-bit number at place `at`.
pub fn read_word(bytes: &[u8], at: u64) -> (r: Option<u32>)
    ensures
        r matches Some(word) ==> word_at(bytes@, at as int) == Some(word as int),
        r is None ==> word_at(bytes@, at as int) is None,
{
    let length = bytes.len();
    if length < 4 || at > (length - 4) as u64 {
        return None;
    }
    let i = at as usize;
    let word: u32 = bytes[i] as u32 + 0x100 * (bytes[i + 1] as u32) + 0x1_0000 * (bytes[i + 2] as u32)
        + 0x100_0000 * (bytes[i + 3] as u32);
    Some(word)
}

/// Reads the 64-bit number at place `at`.
pub fn read_long(bytes: &[u8], at: u64) -> (r: Option<u64>)
    ensures
        r matches Some(long) ==> long_at(bytes@, at as int) == Some(long as int),
        r is None ==> long_at(bytes@, at as int) is None,
{
    let low = match read_word(bytes, at) {
        Some(low) => low,
        None => {
            return None;
        },
    };
    let length: usize = bytes.len();
    assert(at + 4 <= length);
    match read_word(bytes, at + 4) {
        Some(high) => Some(low as u64 + 0x1_0000_0000 * (high as u64)),
        None => None,
    }
}

/// Finds the place of the header in a constraint file.
pub fn find_header(bytes: &[u8]) -> (r: Option<u64>)
    ensures
        r matches Some(place) ==> header_place(bytes@) == Some(place as int),
        r is None ==> header_place(bytes@) is None,
{
    let sections = match (read_word(bytes, 0), read_word(bytes, 4), read_word(bytes, 8)) {
        (Some(magic), Some(version), Some(sections)) => {
            if magic != 0x7363_3172 || version != 1 {
                return None;
            }
            sections
        },
        _ => {
            return None;
        },
    };
    let length: usize = bytes.len();
    let mut at: u64 = 12;
    let mut left: u32 = sections;
    let mut found: Option<u64> = None;
    let ghost whole = header_from(bytes@, 12, sections as nat, None);
    assert(header_place(bytes@) == match whole {
        Some(place) => place,
        None => None,
    });
    while left > 0
        invariant
            length == bytes@.len(),
            header_place(bytes@) == match whole {
                Some(place) => place,
                None => None,
            },
            whole == header_from(
                bytes@,
                at as int,
                left as nat,
                match found {
                    Some(place) => Some(place as int),
                    None => None,
                },
            ),
        decreases left,
    {
        let kind = match read_word(bytes, at) {
            Some(kind) => kind,
            None => {
                assert(whole is None);
                return None;
            },
        };
        assert(at + 4 <= length);
        let size = match read_long(bytes, at + 4) {
            Some(size) => size,
            None => {
                assert(whole is None);
                return None;
            },
        };
        assert(at + 12 <= length);
        let content: u64 = at + 12;
        let step: i128 = if size < 0x8000_0000_0000_0000u64 {
            size as i128
        } else {
            size as i128 - 0x1_0000_0000_0000_0000i128
        };
        let next: i128 = content as i128 + step;
        assert(next == at + 12 + signed(size as int));
        if next < 0 || next > 0xffff_ffff_ffff_ffffi128 {
            assert(whole is None);
            return None;
        }
        if kind == 1 {
            found = Some(content);
        }
        at = next as u64;
        left = left - 1;
    }
    found
}

/// Reads the number of wires that the header of a constraint file declares.
pub fn read_declared_wires(bytes: &[u8]) -> (r: Option<u32>)
    ensures
        r matches Some(wires) ==> declared_wires(bytes@) == Some(wires as int),
        r is None ==> declared_wires(bytes@) is None,
{
    let length: usize = bytes.len();
    match find_header(bytes) {
        Some(place) => if place > 0xffff_ffff_ffff_ffffu64 - 36 {
            assert(place + 40 > length);
            assert(word_at(bytes@, place + 36) is None);
            None
        } else {
            read_word(bytes, place + 36)
        },
        None => None,
    }
}

} // verus!
