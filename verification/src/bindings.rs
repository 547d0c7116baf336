//! The parameters bound to a statement, kept so that a copy of the statement
//! can be given the same ones.

use vstd::prelude::*;
use crate::value::{SQLiteValue, ValueView};

verus! {

/// One bound parameter, by content: its one-based position and its value.
pub type Entry = (usize, ValueView);

/// No position occurs twice.
pub open spec fn distinct_positions(entries: Seq<Entry>) -> bool {
    forall|i: int, j: int|
        0 <= i < entries.len() && 0 <= j < entries.len() && i != j ==> entries[i].0
            != entries[j].0
}

/// The parameters that an engine holds after it was given `binds` in order:
/// a later value for a position replaces an earlier one.
pub open spec fn assignment(binds: Seq<Entry>) -> Map<usize, ValueView>
    decreases binds.len(),
{
    if binds.len() == 0 {
        Map::empty()
    } else {
        assignment(binds.drop_last()).insert(binds.last().0, binds.last().1)
    }
}

/// The index at which `position` is recorded, if it is.
pub open spec fn index_of(entries: Seq<Entry>, position: usize) -> Option<int> {
    if exists|i: int| 0 <= i < entries.len() && entries[i].0 == position {
        Some(choose|i: int| 0 <= i < entries.len() && entries[i].0 == position)
    } else {
        None
    }
}

/// Recording a bind: the value takes the place of an earlier one for the
/// same position, or joins at the end.
pub open spec fn record(entries: Seq<Entry>, position: usize, value: ValueView) -> Seq<Entry> {
    match index_of(entries, position) {
        Some(i) => entries.update(i, (position, value)),
        None => entries.push((position, value)),
    }
}

/// What is recorded after a sequence of binds.
pub open spec fn recorded(binds: Seq<Entry>) -> Seq<Entry>
    decreases binds.len(),
{
    if binds.len() == 0 {
        Seq::empty()
    } else {
        record(recorded(binds.drop_last()), binds.last().0, binds.last().1)
    }
}

/// The bound parameters of a statement, in the order in which their
/// positions were first bound.
#[derive(Debug)]
pub struct Bindings {
    entries: Vec<(usize, SQLiteValue)>,
}

impl View for Bindings {
    type V = Seq<Entry>;

    closed spec fn view(&self) -> Seq<Entry> {
        self.entries@.map_values(|e: (usize, SQLiteValue)| (e.0, e.1@))
    }
}

impl Bindings {
    /// No position is recorded twice.
    #[verifier::type_invariant]
    closed spec fn distinct(self) -> bool {
        distinct_positions(self@)
    }

    /// No position is recorded twice: this holds of every value of the type.
    pub open spec fn wf(self) -> bool {
        distinct_positions(self@)
    }

    /// No parameter bound.
    pub fn new() -> (bindings: Bindings)
        ensures
            bindings@ == Seq::<Entry>::empty(),
            bindings.wf(),
    {
        let bindings = Bindings { entries: Vec::new() };
        assert(bindings@ =~= Seq::<Entry>::empty());
        bindings
    }

    /// How many positions are bound.
    pub fn len(&self) -> (n: usize)
        ensures
            n == self@.len(),
    {
        self.entries.len()
    }

    /// The position of the `i`-th entry.
    pub fn position(&self, i: usize) -> (position: usize)
        requires
            i < self@.len(),
        ensures
            position == self@[i as int].0,
    {
        self.entries[i].0
    }

    /// The value of the `i`-th entry.
    pub fn value(&self, i: usize) -> (value: &SQLiteValue)
        requires
            i < self@.len(),
        ensures
            value@ == self@[i as int].1,
    {
        &self.entries[i].1
    }

    /// The value bound at `position`, if any.
    pub fn get(&self, position: usize) -> (found: Option<&SQLiteValue>)
        ensures
            match found {
                Some(value) => assignment(self@).contains_key(position) && assignment(
                    self@,
                )[position] == value@,
                None => !assignment(self@).contains_key(position),
            },
    {
        proof {
            use_type_invariant(self);
        }
        let mut i: usize = 0;
        while i < self.entries.len()
            invariant
                i <= self.entries.len(),
                self.wf(),
                forall|k: int| 0 <= k < i ==> self@[k].0 != position,
            decreases self.entries.len() - i,
        {
            if self.entries[i].0 == position {
                proof {
                    lemma_assignment_of_distinct(self@);
                    assert(self@[i as int].0 == position);
                }
                return Some(&self.entries[i].1);
            }
            i = i + 1;
        }
        proof {
            lemma_assignment_of_distinct(self@);
        }
        None
    }

    /// Records that `value` was bound at `position`.
    pub fn insert(&mut self, position: usize, value: SQLiteValue)
        ensures
            final(self).wf(),
            final(self)@ == record(old(self)@, position, value@),
            assignment(final(self)@) == assignment(old(self)@).insert(position, value@),
    {
        proof {
            use_type_invariant(&*self);
        }
        let ghost before = self@;
        let mut entries: Vec<(usize, SQLiteValue)> = Vec::new();
        core::mem::swap(&mut entries, &mut self.entries);
        assert(entries@.map_values(|e: (usize, SQLiteValue)| (e.0, e.1@)) == before);
        let found = Self::find(&entries, position);
        proof {
            lemma_record(before, position, value@);
        }
        match found {
            Some(i) => {
                assert(index_of(before, position) == Some(i as int)) by {
                    assert(before[i as int].0 == position);
                };
                entries.set(i, (position, value));
                assert(entries@.map_values(|e: (usize, SQLiteValue)| (e.0, e.1@)) =~= before.update(
                    i as int,
                    (position, value@),
                ));
            },
            None => {
                entries.push((position, value));
                assert(entries@.map_values(|e: (usize, SQLiteValue)| (e.0, e.1@)) =~= before.push(
                    (position, value@),
                ));
            },
        }
        core::mem::swap(&mut entries, &mut self.entries);
    }

    /// The index of the entry for `position`, if there is one.
    fn find(entries: &Vec<(usize, SQLiteValue)>, position: usize) -> (found: Option<usize>)
        ensures
            match found {
                Some(i) => i < entries@.len() && entries@[i as int].0 == position,
                None => forall|k: int| 0 <= k < entries@.len() ==> entries@[k].0 != position,
            },
    {
        let mut i: usize = 0;
        while i < entries.len()
            invariant
                i <= entries.len(),
                forall|k: int| 0 <= k < i ==> entries@[k].0 != position,
            decreases entries.len() - i,
        {
            if entries[i].0 == position {
                return Some(i);
            }
            i = i + 1;
        }
        None
    }

    /// A copy with the same entries in the same order.
    pub fn duplicate(&self) -> (copy: Bindings)
        ensures
            copy@ == self@,
            copy.wf(),
    {
        proof {
            use_type_invariant(self);
        }
        let mut entries: Vec<(usize, SQLiteValue)> = Vec::new();
        let mut i: usize = 0;
        while i < self.entries.len()
            invariant
                i <= self.entries.len(),
                entries@.len() == i,
                forall|k: int|
                    0 <= k < i ==> entries@[k].0 == self.entries@[k].0 && entries@[k].1@
                        == self.entries@[k].1@,
            decreases self.entries.len() - i,
        {
            entries.push((self.entries[i].0, self.entries[i].1.clone()));
            i = i + 1;
        }
        assert(entries@.map_values(|e: (usize, SQLiteValue)| (e.0, e.1@)) =~= self@);
        Bindings { entries }
    }
}

/// Where no position occurs twice, each entry is what the engine holds for
/// its position, and the engine holds nothing else.
pub proof fn lemma_assignment_of_distinct(entries: Seq<Entry>)
    requires
        distinct_positions(entries),
    ensures
        forall|i: int|
            0 <= i < entries.len() ==> assignment(entries).contains_key(#[trigger] entries[i].0)
                && assignment(entries)[entries[i].0] == entries[i].1,
        forall|p: usize| #[trigger]
            assignment(entries).contains_key(p) ==> exists|i: int|
                0 <= i < entries.len() && entries[i].0 == p,
    decreases entries.len(),
{
    if entries.len() > 0 {
        let front = entries.drop_last();
        lemma_assignment_of_distinct(front);
        assert forall|i: int| 0 <= i < entries.len() implies assignment(entries).contains_key(
            #[trigger] entries[i].0,
        ) && assignment(entries)[entries[i].0] == entries[i].1 by {
            if i < entries.len() - 1 {
                assert(front[i] == entries[i]);
                assert(entries[i].0 != entries.last().0);
            }
        }
        assert forall|p: usize| #[trigger] assignment(entries).contains_key(p) implies exists|
            i: int,
        |
            0 <= i < entries.len() && entries[i].0 == p by {
            if p == entries.last().0 {
                assert(entries[entries.len() - 1].0 == p);
            } else {
                assert(assignment(front).contains_key(p));
                let i = choose|i: int| 0 <= i < front.len() && front[i].0 == p;
                assert(entries[i].0 == p);
            }
        }
    }
}

/// Recording a bind keeps the positions distinct and changes what the engine
/// would hold exactly as the bind itself does.
pub proof fn lemma_record(entries: Seq<Entry>, position: usize, value: ValueView)
    requires
        distinct_positions(entries),
    ensures
        distinct_positions(record(entries, position, value)),
        assignment(record(entries, position, value)) == assignment(entries).insert(
            position,
            value,
        ),
{
    let after = record(entries, position, value);
    match index_of(entries, position) {
        Some(i) => {
            assert(0 <= i < entries.len() && entries[i].0 == position);
            assert(distinct_positions(after));
            lemma_assignment_of_distinct(entries);
            lemma_assignment_of_distinct(after);
            let expected = assignment(entries).insert(position, value);
            assert forall|p: usize| assignment(after).contains_key(p) == expected.contains_key(
                p,
            ) by {
                if assignment(after).contains_key(p) {
                    let k = choose|k: int| 0 <= k < after.len() && after[k].0 == p;
                    assert(entries[k].0 == p);
                }
                if expected.contains_key(p) && p != position {
                    let k = choose|k: int| 0 <= k < entries.len() && entries[k].0 == p;
                    assert(after[k].0 == p);
                }
                if p == position {
                    assert(after[i].0 == p);
                }
            }
            assert forall|p: usize| assignment(after).contains_key(p) implies assignment(
                after,
            )[p] == expected[p] by {
                let k = choose|k: int| 0 <= k < after.len() && after[k].0 == p;
                assert(assignment(after)[after[k].0] == after[k].1);
                if k != i {
                    assert(entries[k].0 == p);
                    assert(assignment(entries)[entries[k].0] == entries[k].1);
                }
            }
            assert(assignment(after) =~= expected);
        },
        None => {
            assert(after.drop_last() =~= entries);
            assert forall|a: int, b: int|
                0 <= a < after.len() && 0 <= b < after.len() && a != b implies after[a].0
                != after[b].0 by {
                if a == entries.len() {
                    assert(entries[b].0 != position);
                }
                if b == entries.len() {
                    assert(entries[a].0 != position);
                }
            }
        },
    }
}

/// Whatever binds a statement was given, in whatever order and however often
/// for one position, giving the recorded entries to a fresh statement leaves
/// its engine with the same parameters.
pub proof fn lemma_replay_gives_the_same_parameters(binds: Seq<Entry>)
    ensures
        distinct_positions(recorded(binds)),
        assignment(recorded(binds)) == assignment(binds),
    decreases binds.len(),
{
    if binds.len() > 0 {
        lemma_replay_gives_the_same_parameters(binds.drop_last());
        lemma_record(recorded(binds.drop_last()), binds.last().0, binds.last().1);
    }
}

} // verus!
