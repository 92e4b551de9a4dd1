//! The assignment: the values given to each named input signal of a circuit.
//!
//! An assignment maps a signal's name to the values pushed onto it, in the
//! order in which they were pushed. A signal enters the assignment with its
//! first value, so every signal that is present has at least one.

use vstd::prelude::*;

verus! {

/// A signal as a pair of its name and its values.
pub type Signal = (Seq<char>, Seq<u128>);

/// The mapping that a list of signals stands for. Where a name occurs more
/// than once the last occurrence counts.
pub open spec fn signals_map(signals: Seq<Signal>) -> Map<Seq<char>, Seq<u128>>
    decreases signals.len(),
{
    if signals.len() == 0 {
        Map::empty()
    } else {
        signals_map(signals.drop_last()).insert(signals.last().0, signals.last().1)
    }
}

/// No two signals of the list bear the same name.
pub open spec fn names_distinct(signals: Seq<Signal>) -> bool {
    forall|i: int, j: int| 0 <= i < j < signals.len() ==> signals[i].0 != signals[j].0
}

/// Every signal of the list has at least one value.
pub open spec fn values_present(signals: Seq<Signal>) -> bool {
    forall|i: int| 0 <= i < signals.len() ==> (#[trigger] signals[i]).1.len() > 0
}

/// What one more value on signal `name` makes of the mapping `m`.
pub open spec fn map_with_value(
    m: Map<Seq<char>, Seq<u128>>,
    name: Seq<char>,
    value: u128,
) -> Map<Seq<char>, Seq<u128>> {
    if m.dom().contains(name) {
        m.insert(name, m[name].push(value))
    } else {
        m.insert(name, seq![value])
    }
}

/// What pushing `values` onto signal `name`, one after the other, makes of
/// the mapping `m`.
pub open spec fn map_with_values(
    m: Map<Seq<char>, Seq<u128>>,
    name: Seq<char>,
    values: Seq<u128>,
) -> Map<Seq<char>, Seq<u128>> {
    if values.len() == 0 {
        m
    } else if m.dom().contains(name) {
        m.insert(name, m[name] + values)
    } else {
        m.insert(name, values)
    }
}

/// Pushing values one by one amounts to pushing them together.
pub proof fn lemma_map_with_values_step(
    m: Map<Seq<char>, Seq<u128>>,
    name: Seq<char>,
    values: Seq<u128>,
    value: u128,
)
    ensures
        map_with_value(map_with_values(m, name, values), name, value) == map_with_values(
            m,
            name,
            values.push(value),
        ),
{
    let pushed = values.push(value);
    if values.len() == 0 {
        assert(pushed =~= seq![value]);
        if m.dom().contains(name) {
            assert(m[name].push(value) =~= m[name] + pushed);
        }
    } else if m.dom().contains(name) {
        assert((m[name] + values).push(value) =~= m[name] + pushed);
        assert(m.insert(name, m[name] + values).insert(name, m[name] + pushed) =~= m.insert(
            name,
            m[name] + pushed,
        ));
    } else {
        assert(m.insert(name, values).insert(name, pushed) =~= m.insert(name, pushed));
    }
}

/// Whether a signal of the list is called `name`.
pub open spec fn has_name(signals: Seq<Signal>, name: Seq<char>) -> bool {
    exists|i: int| 0 <= i < signals.len() && (#[trigger] signals[i]).0 == name
}

/// Where the signal called `name` stands in the list, if one is called so.
pub open spec fn index_of(signals: Seq<Signal>, name: Seq<char>) -> int
    recommends
        has_name(signals, name),
{
    choose|i: int| 0 <= i < signals.len() && (#[trigger] signals[i]).0 == name
}

/// What pushing `values` onto signal `name` makes of the list: a signal
/// that is there keeps its place and gets the values behind its own; one
/// that is not goes to the end of the list.
pub open spec fn signals_with_values(
    signals: Seq<Signal>,
    name: Seq<char>,
    values: Seq<u128>,
) -> Seq<Signal> {
    if values.len() == 0 {
        signals
    } else if has_name(signals, name) {
        let i = index_of(signals, name);
        signals.update(i, (name, signals[i].1 + values))
    } else {
        signals.push((name, values))
    }
}

/// With distinct names, the place of a name is the one place where it
/// stands.
pub proof fn lemma_index_of(signals: Seq<Signal>, i: int)
    requires
        names_distinct(signals),
        0 <= i < signals.len(),
    ensures
        has_name(signals, signals[i].0),
        index_of(signals, signals[i].0) == i,
{
    let name = signals[i].0;
    assert(has_name(signals, name));
    let j = index_of(signals, name);
    if j < i {
        assert(signals[j].0 != signals[i].0);
    } else if i < j {
        assert(signals[i].0 != signals[j].0);
    }
}

/// Pushing values one by one makes the same list as pushing them together.
pub proof fn lemma_signals_with_values_step(
    signals: Seq<Signal>,
    name: Seq<char>,
    values: Seq<u128>,
    value: u128,
)
    requires
        names_distinct(signals),
    ensures
        signals_with_values(signals_with_values(signals, name, values), name, seq![value])
            == signals_with_values(signals, name, values.push(value)),
        names_distinct(signals_with_values(signals, name, values)),
{
    let pushed = values.push(value);
    let mid = signals_with_values(signals, name, values);
    if values.len() == 0 {
        assert(pushed =~= seq![value]);
    } else if has_name(signals, name) {
        let i = index_of(signals, name);
        assert forall|a: int, b: int| 0 <= a < b < mid.len() implies mid[a].0 != mid[b].0 by {
            assert(signals[a].0 != signals[b].0);
        }
        assert(mid[i].0 == name);
        lemma_index_of(mid, i);
        assert((signals[i].1 + values) + seq![value] =~= signals[i].1 + pushed);
        assert(mid.update(i, (name, mid[i].1 + seq![value])) =~= signals.update(
            i,
            (name, signals[i].1 + pushed),
        ));
    } else {
        let n = signals.len() as int;
        assert forall|a: int, b: int| 0 <= a < b < mid.len() implies mid[a].0 != mid[b].0 by {
            if b < n {
                assert(signals[a].0 != signals[b].0);
            } else {
                assert(signals[a].0 != name);
            }
        }
        assert(mid[n].0 == name);
        lemma_index_of(mid, n);
        assert(values + seq![value] =~= pushed);
        assert(mid.update(n, (name, mid[n].1 + seq![value])) =~= signals.push((name, pushed)));
    }
}

/// The names bound by `signals_map` are exactly the names in the list.
pub proof fn lemma_signals_map_dom(signals: Seq<Signal>, name: Seq<char>)
    ensures
        signals_map(signals).dom().contains(name) <==> exists|i: int|
            0 <= i < signals.len() && (#[trigger] signals[i]).0 == name,
    decreases signals.len(),
{
    if signals.len() > 0 {
        let init = signals.drop_last();
        lemma_signals_map_dom(init, name);
        if signals_map(signals).dom().contains(name) {
            if signals.last().0 == name {
                assert(signals[signals.len() - 1].0 == name);
            } else {
                let i = choose|i: int| 0 <= i < init.len() && (#[trigger] init[i]).0 == name;
                assert(signals[i].0 == name);
            }
        }
        if exists|i: int| 0 <= i < signals.len() && (#[trigger] signals[i]).0 == name {
            let i = choose|i: int| 0 <= i < signals.len() && (#[trigger] signals[i]).0 == name;
            if i < signals.len() - 1 {
                assert(init[i].0 == name);
            }
        }
    }
}

/// With distinct names, each signal of the list is bound to its own values.
pub proof fn lemma_signals_map_at(signals: Seq<Signal>, i: int)
    requires
        names_distinct(signals),
        0 <= i < signals.len(),
    ensures
        signals_map(signals).dom().contains(signals[i].0),
        signals_map(signals)[signals[i].0] == signals[i].1,
    decreases signals.len(),
{
    let init = signals.drop_last();
    if i < signals.len() - 1 {
        assert(names_distinct(init)) by {
            assert forall|a: int, b: int| 0 <= a < b < init.len() implies init[a].0 != init[b].0 by {
                assert(signals[a].0 != signals[b].0);
            }
        }
        lemma_signals_map_at(init, i);
        assert(init[i] == signals[i]);
        assert(signals[i].0 != signals[signals.len() - 1].0);
    }
}

/// With distinct names, replacing the values of one signal rebinds that name
/// and leaves the others as they were.
pub proof fn lemma_signals_map_update(signals: Seq<Signal>, i: int, values: Seq<u128>)
    requires
        names_distinct(signals),
        0 <= i < signals.len(),
    ensures
        signals_map(signals.update(i, (signals[i].0, values))) == signals_map(signals).insert(
            signals[i].0,
            values,
        ),
    decreases signals.len(),
{
    let name = signals[i].0;
    let updated = signals.update(i, (name, values));
    let init = signals.drop_last();
    if i == signals.len() - 1 {
        assert(updated.drop_last() =~= init);
        assert(signals_map(updated) =~= signals_map(signals).insert(name, values));
    } else {
        assert(names_distinct(init)) by {
            assert forall|a: int, b: int| 0 <= a < b < init.len() implies init[a].0 != init[b].0 by {
                assert(signals[a].0 != signals[b].0);
            }
        }
        lemma_signals_map_update(init, i, values);
        assert(updated.drop_last() =~= init.update(i, (init[i].0, values)));
        assert(updated.last() == signals.last());
        assert(signals[i].0 != signals[signals.len() - 1].0);
        assert(signals_map(updated) =~= signals_map(signals).insert(name, values));
    }
}

/// One named input signal with its values in order.
pub struct SignalValues {
    pub name: String,
    pub values: Vec<u128>,
}

impl SignalValues {
    /// The signal as a pair of plain sequences.
    pub open spec fn signal(&self) -> Signal {
        (self.name@, self.values@)
    }
}

/// The signals that a list of entries holds, in the same order.
pub open spec fn entry_signals(entries: Seq<SignalValues>) -> Seq<Signal> {
    Seq::new(entries.len(), |i: int| entries[i].signal())
}

/// The input signals of one proof, each with the values pushed onto it.
pub struct Assignment {
    entries: Vec<SignalValues>,
}

impl View for Assignment {
    type V = Map<Seq<char>, Seq<u128>>;

    /// The mapping from each signal's name to its values.
    open spec fn view(&self) -> Map<Seq<char>, Seq<u128>> {
        signals_map(self.signals())
    }
}

impl Assignment {
    /// The signals in the order in which each received its first value.
    pub closed spec fn signals(&self) -> Seq<Signal> {
        entry_signals(self.entries@)
    }

    #[verifier::type_invariant]
    spec fn well_formed(&self) -> bool {
        names_distinct(self.signals()) && values_present(self.signals())
    }

    /// An assignment with no signal.
    pub fn new() -> (r: Assignment)
        ensures
            r@ == Map::<Seq<char>, Seq<u128>>::empty(),
            r.signals() == Seq::<Signal>::empty(),
    {
        let r = Assignment { entries: Vec::new() };
        assert(r.signals() =~= Seq::<Signal>::empty());
        r
    }

    /// The number of signals that have a value. Their names are distinct.
    pub fn signal_count(&self) -> (n: usize)
        ensures
            n == self.signals().len(),
            names_distinct(self.signals()),
            values_present(self.signals()),
    {
        proof {
            use_type_invariant(self);
        }
        self.entries.len()
    }

    /// The name of the `i`-th signal.
    pub fn signal_name(&self, i: usize) -> (name: &String)
        requires
            i < self.signals().len(),
        ensures
            name@ == self.signals()[i as int].0,
    {
        &self.entries[i].name
    }

    /// The values of the `i`-th signal, in the order in which they were pushed.
    pub fn signal_values(&self, i: usize) -> (values: &Vec<u128>)
        requires
            i < self.signals().len(),
        ensures
            values@ == self.signals()[i as int].1,
            values@.len() > 0,
    {
        proof {
            use_type_invariant(self);
            assert(self.signals()[i as int].1.len() > 0);
        }
        &self.entries[i].values
    }

    /// Where the signal called `name` stands among the signals, if it is there.
    pub fn position(&self, name: &str) -> (r: Option<usize>)
        ensures
            r matches Some(i) ==> i < self.signals().len() && self.signals()[i as int].0 == name@,
            r is None ==> forall|i: int|
                0 <= i < self.signals().len() ==> (#[trigger] self.signals()[i]).0 != name@,
            r is Some <==> self@.dom().contains(name@),
    {
        let wanted: String = name.to_owned();
        let mut i: usize = 0;
        while i < self.entries.len()
            invariant
                i <= self.entries@.len(),
                wanted@ == name@,
                forall|k: int| 0 <= k < i ==> (#[trigger] self.signals()[k]).0 != name@,
            decreases self.entries@.len() - i,
        {
            if self.entries[i].name == wanted {
                proof {
                    assert(self.signals()[i as int].0 == name@);
                    lemma_signals_map_dom(self.signals(), name@);
                }
                return Some(i);
            }
            i = i + 1;
        }
        proof {
            lemma_signals_map_dom(self.signals(), name@);
        }
        None
    }

    /// The values of the signal called `name`, or `None` where no value was
    /// pushed onto it.
    pub fn get(&self, name: &str) -> (r: Option<&Vec<u128>>)
        ensures
            r is Some <==> self@.dom().contains(name@),
            r matches Some(values) ==> values@ == self@[name@],
    {
        match self.position(name) {
            Some(i) => {
                proof {
                    use_type_invariant(self);
                    lemma_signals_map_at(self.signals(), i as int);
                }
                Some(&self.entries[i].values)
            },
            None => None,
        }
    }

    /// Pushes `value` onto the signal called `name`, behind the values it
    /// already has. A signal that had none enters the assignment, behind the
    /// signals that are there.
    pub fn push_input(&mut self, name: &str, value: u128)
        ensures
            final(self)@ == map_with_value(old(self)@, name@, value),
            final(self).signals() == signals_with_values(old(self).signals(), name@, seq![value]),
    {
        proof {
            use_type_invariant(&*self);
        }
        let found = self.position(name);
        let ghost before = self.signals();
        let mut entries: Vec<SignalValues> = Vec::new();
        std::mem::swap(&mut entries, &mut self.entries);
        assert(entry_signals(entries@) == before);
        match found {
            Some(i) => {
                let ghost grown = before[i as int].1.push(value);
                entries[i].values.push(value);
                proof {
                    assert(entry_signals(entries@) =~= before.update(
                        i as int,
                        (before[i as int].0, grown),
                    ));
                    lemma_signals_map_at(before, i as int);
                    lemma_signals_map_update(before, i as int, grown);
                    lemma_index_of(before, i as int);
                    assert(before[i as int].1 + seq![value] =~= grown);
                }
            },
            None => {
                let mut values: Vec<u128> = Vec::new();
                values.push(value);
                entries.push(SignalValues { name: name.to_owned(), values });
                proof {
                    let after = entry_signals(entries@);
                    assert(after[after.len() - 1].1 =~= seq![value]);
                    assert(after =~= before.push((name@, seq![value])));
                    assert(after.drop_last() =~= before);
                    assert(!has_name(before, name@));
                }
            },
        }
        self.entries = entries;
    }
}

} // verus!
