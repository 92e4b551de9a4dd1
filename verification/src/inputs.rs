//! The input normaliser: from the raw fields of one request to the
//! assignment of the circuit's input signals.
//!
//! Each field is a list of texts. An entry that is a decimal numeral within
//! 128 bits becomes a value of the field's signal; any other entry is left
//! out, and the entries behind it move up.

use crate::assignment::{
    has_name, lemma_map_with_values_step, lemma_signals_with_values_step, map_with_values,
    names_distinct, signals_with_values, Assignment, Signal,
};
use crate::decimal::{parse_decimal, parse_u128};
use vstd::prelude::*;

verus! {

/// The raw inputs of one request: six lists of texts and the recipient's
/// address. The address is carried along; no signal is made of it.
pub struct CircuitInputs {
    pub mrz: Vec<String>,
    pub reveal_bitmap: Vec<String>,
    pub data_hashes: Vec<String>,
    pub e_content_bytes: Vec<String>,
    pub signature: Vec<String>,
    pub pubkey: Vec<String>,
    pub address: String,
}

/// The order of the scalar field over which the circuit is stated.
pub open spec fn scalar_field_order() -> nat {
    21888242871839275222246405745257275088548364400416034343698204186575808495617nat
}

/// The entries of a raw field as plain texts.
pub open spec fn texts(raw: Seq<String>) -> Seq<Seq<char>> {
    Seq::new(raw.len(), |i: int| raw[i]@)
}

/// The values of the entries of `raw` that are numerals within 128 bits, in
/// the order of the entries.
pub open spec fn parsed_values(raw: Seq<Seq<char>>) -> Seq<u128>
    decreases raw.len(),
{
    if raw.len() == 0 {
        Seq::empty()
    } else {
        match parse_decimal(raw.last()) {
            Some(value) => parsed_values(raw.drop_last()).push(value),
            None => parsed_values(raw.drop_last()),
        }
    }
}

/// The raw field from which the signal called `name` is filled, if `name` is
/// one of the six input signals.
pub open spec fn field_of(inputs: CircuitInputs, name: Seq<char>) -> Option<Seq<Seq<char>>> {
    if name == "mrz"@ {
        Some(texts(inputs.mrz@))
    } else if name == "revealBitmap"@ {
        Some(texts(inputs.reveal_bitmap@))
    } else if name == "dataHashes"@ {
        Some(texts(inputs.data_hashes@))
    } else if name == "eContentBytes"@ {
        Some(texts(inputs.e_content_bytes@))
    } else if name == "signature"@ {
        Some(texts(inputs.signature@))
    } else if name == "pubkey"@ {
        Some(texts(inputs.pubkey@))
    } else {
        None
    }
}

/// The list `signals` with the signal that the raw field `raw` gives under
/// `name` at its end, if the field gives one.
pub open spec fn with_field(signals: Seq<Signal>, name: Seq<char>, raw: Seq<String>) -> Seq<
    Signal,
> {
    if parsed_values(texts(raw)).len() == 0 {
        signals
    } else {
        signals.push((name, parsed_values(texts(raw))))
    }
}

/// The signals that `inputs` gives, in the order of the fields.
pub open spec fn normalized_signals(inputs: CircuitInputs) -> Seq<Signal> {
    let s0 = Seq::<Signal>::empty();
    let s1 = with_field(s0, "mrz"@, inputs.mrz@);
    let s2 = with_field(s1, "revealBitmap"@, inputs.reveal_bitmap@);
    let s3 = with_field(s2, "dataHashes"@, inputs.data_hashes@);
    let s4 = with_field(s3, "eContentBytes"@, inputs.e_content_bytes@);
    let s5 = with_field(s4, "signature"@, inputs.signature@);
    with_field(s5, "pubkey"@, inputs.pubkey@)
}

/// The assignment that `inputs` stands for. A signal is present exactly when
/// its field has an entry that can be read, and then holds the values of all
/// such entries in order.
pub open spec fn normalized(inputs: CircuitInputs) -> Map<Seq<char>, Seq<u128>> {
    Map::new(
        |name: Seq<char>|
            field_of(inputs, name) is Some && parsed_values(field_of(inputs, name).unwrap()).len()
                > 0,
        |name: Seq<char>| parsed_values(field_of(inputs, name).unwrap()),
    )
}

/// Every value of an assignment is below the order of the scalar field, so
/// it stands for itself there.
pub proof fn lemma_value_fits_field(value: u128)
    ensures
        (value as nat) < scalar_field_order(),
{
}

/// Reading a field yields at most one value for each entry.
pub proof fn lemma_parsed_values_len(raw: Seq<Seq<char>>)
    ensures
        parsed_values(raw).len() <= raw.len(),
    decreases raw.len(),
{
    if raw.len() > 0 {
        lemma_parsed_values_len(raw.drop_last());
    }
}

/// Reading two lists one behind the other yields the values of the first
/// followed by the values of the second.
pub proof fn lemma_parsed_values_concat(a: Seq<Seq<char>>, b: Seq<Seq<char>>)
    ensures
        parsed_values(a + b) == parsed_values(a) + parsed_values(b),
    decreases b.len(),
{
    if b.len() == 0 {
        assert(a + b =~= a);
        assert(parsed_values(a) + parsed_values(b) =~= parsed_values(a));
    } else {
        lemma_parsed_values_concat(a, b.drop_last());
        assert((a + b).drop_last() =~= a + b.drop_last());
        assert((a + b).last() == b.last());
        match parse_decimal(b.last()) {
            Some(value) => {
                assert((parsed_values(a) + parsed_values(b.drop_last())).push(value)
                    =~= parsed_values(a) + parsed_values(b.drop_last()).push(value));
            },
            None => {},
        }
    }
}

/// Where every entry of a field is a numeral within 128 bits, the field
/// yields one value for each entry, equal to what the entry denotes.
pub proof fn lemma_numerals_are_kept(raw: Seq<Seq<char>>)
    requires
        forall|i: int| 0 <= i < raw.len() ==> parse_decimal(#[trigger] raw[i]) is Some,
    ensures
        parsed_values(raw).len() == raw.len(),
        forall|i: int|
            0 <= i < raw.len() ==> parse_decimal(raw[i]) == Some(#[trigger] parsed_values(raw)[i]),
    decreases raw.len(),
{
    if raw.len() > 0 {
        let init = raw.drop_last();
        assert forall|i: int| 0 <= i < init.len() implies parse_decimal(#[trigger] init[i])
            is Some by {
            assert(init[i] == raw[i]);
        }
        lemma_numerals_are_kept(init);
        assert(parse_decimal(raw[raw.len() - 1]) is Some);
        assert forall|i: int| 0 <= i < raw.len() implies parse_decimal(raw[i]) == Some(
            #[trigger] parsed_values(raw)[i],
        ) by {
            if i < raw.len() - 1 {
                assert(init[i] == raw[i]);
                assert(parsed_values(raw)[i] == parsed_values(init)[i]);
            }
        }
    }
}

/// An entry that cannot be read leaves no trace: the field yields what the
/// entries before it and the entries behind it yield.
pub proof fn lemma_unreadable_entry_is_dropped(
    before: Seq<Seq<char>>,
    entry: Seq<char>,
    behind: Seq<Seq<char>>,
)
    requires
        parse_decimal(entry) is None,
    ensures
        parsed_values(before.push(entry) + behind) == parsed_values(before) + parsed_values(
            behind,
        ),
{
    assert(before.push(entry).drop_last() =~= before);
    lemma_parsed_values_concat(before.push(entry), behind);
}

/// Reads the entries of one raw field and pushes each value onto the signal
/// called `name`. Entries that are no numeral within 128 bits are passed
/// over.
pub fn push_field(assignment: &mut Assignment, name: &str, raw: &Vec<String>)
    ensures
        final(assignment)@ == map_with_values(
            old(assignment)@,
            name@,
            parsed_values(texts(raw@)),
        ),
        final(assignment).signals() == signals_with_values(
            old(assignment).signals(),
            name@,
            parsed_values(texts(raw@)),
        ),
{
    let ghost start = assignment@;
    let ghost listed = assignment.signals();
    let ghost all = texts(raw@);
    let _ = assignment.signal_count();
    let mut i: usize = 0;
    assert(all.subrange(0, 0) =~= Seq::<Seq<char>>::empty());
    while i < raw.len()
        invariant
            i <= raw@.len(),
            all == texts(raw@),
            names_distinct(listed),
            assignment@ == map_with_values(start, name@, parsed_values(all.subrange(0, i as int))),
            assignment.signals() == signals_with_values(
                listed,
                name@,
                parsed_values(all.subrange(0, i as int)),
            ),
        decreases raw@.len() - i,
    {
        let ghost seen = all.subrange(0, i as int);
        proof {
            assert(all.subrange(0, i + 1).drop_last() =~= seen);
            assert(all.subrange(0, i + 1).last() == raw@[i as int]@);
        }
        match parse_u128(raw[i].as_str()) {
            Some(value) => {
                assignment.push_input(name, value);
                proof {
                    lemma_map_with_values_step(start, name@, parsed_values(seen), value);
                    lemma_signals_with_values_step(listed, name@, parsed_values(seen), value);
                }
            },
            None => {},
        }
        i = i + 1;
    }
    assert(all.subrange(0, raw@.len() as int) =~= all);
}

/// Normalises the raw inputs of one request.
///
/// The result holds, for each of the six fields, the values of its readable
/// entries under the field's signal name; a field without a readable entry
/// gives no signal.
pub fn normalize(inputs: &CircuitInputs) -> (assignment: Assignment)
    ensures
        assignment@ == normalized(*inputs),
        assignment.signals() == normalized_signals(*inputs),
{
    proof {
        lemma_signal_names_differ();
    }
    let ghost s0 = Seq::<Signal>::empty();
    let ghost s1 = with_field(s0, "mrz"@, inputs.mrz@);
    let ghost s2 = with_field(s1, "revealBitmap"@, inputs.reveal_bitmap@);
    let ghost s3 = with_field(s2, "dataHashes"@, inputs.data_hashes@);
    let ghost s4 = with_field(s3, "eContentBytes"@, inputs.e_content_bytes@);
    let ghost s5 = with_field(s4, "signature"@, inputs.signature@);
    let mut assignment = Assignment::new();
    push_field(&mut assignment, "mrz", &inputs.mrz);
    assert(assignment.signals() == s1);
    push_field(&mut assignment, "revealBitmap", &inputs.reveal_bitmap);
    assert(assignment.signals() == s2) by {
        lemma_names_before(s1, 1, "revealBitmap"@);
    }
    push_field(&mut assignment, "dataHashes", &inputs.data_hashes);
    assert(assignment.signals() == s3) by {
        lemma_names_before(s2, 2, "dataHashes"@);
    }
    push_field(&mut assignment, "eContentBytes", &inputs.e_content_bytes);
    assert(assignment.signals() == s4) by {
        lemma_names_before(s3, 3, "eContentBytes"@);
    }
    push_field(&mut assignment, "signature", &inputs.signature);
    assert(assignment.signals() == s5) by {
        lemma_names_before(s4, 4, "signature"@);
    }
    push_field(&mut assignment, "pubkey", &inputs.pubkey);
    assert(assignment.signals() == normalized_signals(*inputs)) by {
        lemma_names_before(s5, 5, "pubkey"@);
    }
    proof {
        assert(assignment@ =~= normalized(*inputs));
    }
    assignment
}

/// The first `count` of the six signal names, in the order of the fields.
spec fn first_names(count: int) -> Set<Seq<char>> {
    Set::new(
        |name: Seq<char>|
            (count > 0 && name == "mrz"@) || (count > 1 && name == "revealBitmap"@) || (count > 2
                && name == "dataHashes"@) || (count > 3 && name == "eContentBytes"@) || (count > 4
                && name == "signature"@),
    )
}

/// Every name of `signals` is among the first `count` signal names.
spec fn named_within(signals: Seq<Signal>, count: int) -> bool {
    forall|i: int| 0 <= i < signals.len() ==> first_names(count).contains((#[trigger] signals[i]).0)
}

/// A list that holds only earlier names holds no signal called `name`, where
/// `name` is the signal name that follows them.
proof fn lemma_names_before(signals: Seq<Signal>, count: int, name: Seq<char>)
    requires
        named_within(signals, count),
        !first_names(count).contains(name),
    ensures
        !has_name(signals, name),
{
}

/// The six signal names are pairwise different.
pub proof fn lemma_signal_names_differ()
    ensures
        "mrz"@ != "revealBitmap"@,
        "mrz"@ != "dataHashes"@,
        "mrz"@ != "eContentBytes"@,
        "mrz"@ != "signature"@,
        "mrz"@ != "pubkey"@,
        "revealBitmap"@ != "dataHashes"@,
        "revealBitmap"@ != "eContentBytes"@,
        "revealBitmap"@ != "signature"@,
        "revealBitmap"@ != "pubkey"@,
        "dataHashes"@ != "eContentBytes"@,
        "dataHashes"@ != "signature"@,
        "dataHashes"@ != "pubkey"@,
        "eContentBytes"@ != "signature"@,
        "eContentBytes"@ != "pubkey"@,
        "signature"@ != "pubkey"@,
{
    reveal_strlit("mrz");
    reveal_strlit("revealBitmap");
    reveal_strlit("dataHashes");
    reveal_strlit("eContentBytes");
    reveal_strlit("signature");
    reveal_strlit("pubkey");
    assert("mrz"@.len() == 3);
    assert("revealBitmap"@.len() == 12);
    assert("dataHashes"@.len() == 10);
    assert("eContentBytes"@.len() == 13);
    assert("signature"@.len() == 9);
    assert("pubkey"@.len() == 6);
}

} // verus!
