//! The coefficients that the participants of a document key retrieval have
//! each contributed, by participant.

use vstd::prelude::*;
use crate::primitives::{lemma_addresses_ordered, lemma_addresses_transitive, Address};

verus! {

/// One participant with its coefficient.
pub type Entry = (Address, Vec<u8>);

/// Whether the participants of the entries come in strictly ascending order.
pub open spec fn ascending(entries: Seq<Entry>) -> bool {
    forall|lower: int, upper: int|
        0 <= lower < upper < entries.len() ==> (#[trigger] entries[lower]).0.precedes(
            &(#[trigger] entries[upper]).0,
        )
}

/// Whether the addresses come in strictly ascending order.
pub open spec fn strictly_ascending(addresses: Seq<Address>) -> bool {
    forall|lower: int, upper: int|
        #![trigger addresses[lower], addresses[upper]]
        0 <= lower < upper < addresses.len() ==> addresses[lower].precedes(&addresses[upper])
}

/// Addresses in strictly ascending order are listed in one way only: two
/// such sequences that hold the same addresses are the same sequence.
pub proof fn lemma_ascending_unique(first: Seq<Address>, second: Seq<Address>)
    requires
        strictly_ascending(first),
        strictly_ascending(second),
        forall|address: Address| first.contains(address) <==> second.contains(address),
    ensures
        first == second,
    decreases first.len(),
{
    if first.len() == 0 {
        if second.len() > 0 {
            assert(second.contains(second[0]));
        }
        assert(first =~= second);
    } else {
        assert(first.contains(first[0]));
        assert(second.contains(first[0]));
        assert(second.contains(second[0]));
        assert(first.contains(second[0]));
        let in_second = choose|index: int| 0 <= index < second.len() && second[index] == first[0];
        let in_first = choose|index: int| 0 <= index < first.len() && first[index] == second[0];
        lemma_addresses_ordered(first[0], second[0]);
        assert(first[0] == second[0]) by {
            if in_second > 0 && in_first > 0 {
                assert(second[0].precedes(&second[in_second]));
                assert(first[0].precedes(&first[in_first]));
            }
        }
        let first_rest = first.drop_first();
        let second_rest = second.drop_first();
        assert(strictly_ascending(first_rest)) by {
            assert forall|lower: int, upper: int|
                #![trigger first_rest[lower], first_rest[upper]]
                0 <= lower < upper < first_rest.len() implies first_rest[lower].precedes(
                &first_rest[upper],
            ) by {
                assert(first[lower + 1].precedes(&first[upper + 1]));
            }
        }
        assert(strictly_ascending(second_rest)) by {
            assert forall|lower: int, upper: int|
                #![trigger second_rest[lower], second_rest[upper]]
                0 <= lower < upper < second_rest.len() implies second_rest[lower].precedes(
                &second_rest[upper],
            ) by {
                assert(second[lower + 1].precedes(&second[upper + 1]));
            }
        }
        assert forall|address: Address| first_rest.contains(address) <==> second_rest.contains(
            address,
        ) by {
            if first_rest.contains(address) {
                let at = choose|at: int| 0 <= at < first_rest.len() && first_rest[at] == address;
                assert(first[at + 1] == address);
                assert(first[0].precedes(&first[at + 1]));
                lemma_addresses_ordered(first[0], address);
                assert(first.contains(address));
                let other = choose|other: int| 0 <= other < second.len() && second[other] == address;
                assert(other > 0);
                assert(second_rest[other - 1] == address);
            }
            if second_rest.contains(address) {
                let at = choose|at: int| 0 <= at < second_rest.len() && second_rest[at] == address;
                assert(second[at + 1] == address);
                assert(second[0].precedes(&second[at + 1]));
                lemma_addresses_ordered(second[0], address);
                assert(second.contains(address));
                let other = choose|other: int| 0 <= other < first.len() && first[other] == address;
                assert(other > 0);
                assert(first_rest[other - 1] == address);
            }
        }
        lemma_ascending_unique(first_rest, second_rest);
        assert(first =~= seq![first[0]] + first_rest);
        assert(second =~= seq![second[0]] + second_rest);
    }
}

/// Whether the entry at `index` belongs to `participant`.
pub open spec fn entry_of(entries: Seq<Entry>, index: int, participant: Address) -> bool {
    0 <= index < entries.len() && entries[index].0 == participant
}

/// The map that the entries stand for.
pub open spec fn contents(entries: Seq<Entry>) -> Map<Address, Seq<u8>> {
    Map::new(
        |participant: Address| exists|index: int| entry_of(entries, index, participant),
        |participant: Address|
            entries[choose|index: int| entry_of(entries, index, participant)].1@,
    )
}

/// In ascending entries a participant has one entry, and the map holds its coefficient.
pub proof fn lemma_entry_found(entries: Seq<Entry>, index: int, participant: Address)
    requires
        ascending(entries),
        entry_of(entries, index, participant),
    ensures
        contents(entries).dom().contains(participant),
        contents(entries)[participant] == entries[index].1@,
{
    let chosen = choose|other: int| entry_of(entries, other, participant);
    if chosen != index {
        lemma_addresses_ordered(entries[chosen].0, entries[index].0);
    }
}

/// Putting an entry between the participants before it and those after it
/// keeps the order and adds the entry to the map.
proof fn lemma_insert_between(entries: Seq<Entry>, index: int, entry: Entry)
    requires
        ascending(entries),
        0 <= index <= entries.len(),
        forall|before: int| 0 <= before < index ==> (#[trigger] entries[before]).0.precedes(&entry.0),
        index < entries.len() ==> entry.0.precedes(&entries[index].0),
    ensures
        ascending(entries.insert(index, entry)),
        contents(entries.insert(index, entry)) == contents(entries).insert(entry.0, entry.1@),
{
    let joined = entries.insert(index, entry);
    assert forall|after: int| index <= after < entries.len() implies entry.0.precedes(
        &(#[trigger] entries[after]).0,
    ) by {
        if index < after {
            lemma_addresses_transitive(entry.0, entries[index].0, entries[after].0);
        }
    }
    assert(ascending(joined)) by {
        assert forall|lower: int, upper: int| 0 <= lower < upper < joined.len() implies (
        #[trigger] joined[lower]).0.precedes(&(#[trigger] joined[upper]).0) by {
            if lower < index && upper > index {
                assert(joined[lower] == entries[lower]);
                assert(joined[upper] == entries[upper - 1]);
            } else if lower < index && upper < index {
                assert(joined[lower] == entries[lower]);
                assert(joined[upper] == entries[upper]);
            } else if lower > index {
                assert(joined[lower] == entries[lower - 1]);
                assert(joined[upper] == entries[upper - 1]);
            } else if lower == index {
                assert(joined[upper] == entries[upper - 1]);
            } else {
                assert(joined[lower] == entries[lower]);
            }
        }
    }
    assert forall|participant: Address| #[trigger]
        contents(joined).dom().contains(participant) == contents(entries).insert(
            entry.0,
            entry.1@,
        ).dom().contains(participant) && (contents(joined).dom().contains(participant)
            ==> contents(joined)[participant] == contents(entries).insert(
            entry.0,
            entry.1@,
        )[participant]) by {
        if participant == entry.0 {
            assert(entry_of(joined, index, participant));
            lemma_entry_found(joined, index, participant);
        } else if contents(entries).dom().contains(participant) {
            let at = choose|at: int| entry_of(entries, at, participant);
            lemma_entry_found(entries, at, participant);
            let moved = if at < index {
                at
            } else {
                at + 1
            };
            assert(joined[moved] == entries[at]);
            assert(entry_of(joined, moved, participant));
            lemma_entry_found(joined, moved, participant);
        } else if contents(joined).dom().contains(participant) {
            let at = choose|at: int| entry_of(joined, at, participant);
            let origin = if at < index {
                at
            } else {
                at - 1
            };
            assert(joined[at] == entries[origin]);
            assert(entry_of(entries, origin, participant));
        }
    }
    assert(contents(joined) =~= contents(entries).insert(entry.0, entry.1@));
}

/// Giving a participant's entry a new coefficient keeps the order and
/// changes the map for that participant alone.
proof fn lemma_replace_at(entries: Seq<Entry>, index: int, entry: Entry)
    requires
        ascending(entries),
        entry_of(entries, index, entry.0),
    ensures
        ascending(entries.update(index, entry)),
        contents(entries.update(index, entry)) == contents(entries).insert(entry.0, entry.1@),
{
    let changed = entries.update(index, entry);
    assert(ascending(changed)) by {
        assert forall|lower: int, upper: int| 0 <= lower < upper < changed.len() implies (
        #[trigger] changed[lower]).0.precedes(&(#[trigger] changed[upper]).0) by {
            assert(changed[lower].0 == entries[lower].0);
            assert(changed[upper].0 == entries[upper].0);
        }
    }
    assert forall|participant: Address| #[trigger]
        contents(changed).dom().contains(participant) == contents(entries).insert(
            entry.0,
            entry.1@,
        ).dom().contains(participant) && (contents(changed).dom().contains(participant)
            ==> contents(changed)[participant] == contents(entries).insert(
            entry.0,
            entry.1@,
        )[participant]) by {
        if participant == entry.0 {
            assert(entry_of(changed, index, participant));
            lemma_entry_found(changed, index, participant);
        } else if contents(entries).dom().contains(participant) {
            let at = choose|at: int| entry_of(entries, at, participant);
            lemma_entry_found(entries, at, participant);
            assert(changed[at] == entries[at]);
            assert(entry_of(changed, at, participant));
            lemma_entry_found(changed, at, participant);
        } else if contents(changed).dom().contains(participant) {
            let at = choose|at: int| entry_of(changed, at, participant);
            assert(changed[at].0 == entries[at].0);
            assert(entry_of(entries, at, participant));
        }
    }
    assert(contents(changed) =~= contents(entries).insert(entry.0, entry.1@));
}

/// A map from participants to their coefficients that hands its participants
/// out in ascending order.
#[derive(Debug, PartialEq, Eq)]
pub struct ParticipantCoefficients {
    entries: Vec<Entry>,
}

impl View for ParticipantCoefficients {
    type V = Map<Address, Seq<u8>>;

    closed spec fn view(&self) -> Map<Address, Seq<u8>> {
        contents(self.entries@)
    }
}

impl ParticipantCoefficients {
    /// Whether the map is in order within: true of every map that this module hands out.
    #[verifier::type_invariant]
    pub closed spec fn well_formed(&self) -> bool {
        ascending(self.entries@)
    }

    /// The participants of the map, each once, in ascending order.
    pub closed spec fn participants(&self) -> Seq<Address> {
        Seq::new(self.entries@.len(), |index: int| self.entries@[index].0)
    }

    /// A map without participants.
    pub fn new() -> (coefficients: ParticipantCoefficients)
        ensures
            coefficients@ == Map::<Address, Seq<u8>>::empty(),
            coefficients.participants() == Seq::<Address>::empty(),
    {
        let coefficients = ParticipantCoefficients { entries: Vec::new() };
        assert(coefficients@ =~= Map::<Address, Seq<u8>>::empty());
        assert(coefficients.participants() =~= Seq::<Address>::empty());
        coefficients
    }

    /// Gives a participant its coefficient, and returns the one that it had before.
    pub fn insert(&mut self, participant: Address, coefficient: Vec<u8>) -> (previous: Option<
        Vec<u8>,
    >)
        ensures
            final(self)@ == old(self)@.insert(participant, coefficient@),
            match previous {
                Some(replaced) => old(self)@.dom().contains(participant) && replaced@ == old(
                    self,
                )@[participant],
                None => !old(self)@.dom().contains(participant),
            },
    {
        proof {
            use_type_invariant(&*self);
        }
        let ghost before = self.entries@;
        let mut entries: Vec<Entry> = Vec::new();
        core::mem::swap(&mut self.entries, &mut entries);
        let mut index: usize = 0;
        while index < entries.len() && entries[index].0.precedes(&participant)
            invariant
                index <= entries@.len(),
                forall|earlier: int|
                    0 <= earlier < index ==> (#[trigger] entries@[earlier]).0.precedes(
                        &participant,
                    ),
            decreases entries@.len() - index,
        {
            index += 1;
        }
        let previous = if index < entries.len() && entries[index].0.same_as(&participant) {
            let mut entry = (participant, coefficient);
            proof {
                lemma_entry_found(before, index as int, participant);
                lemma_replace_at(before, index as int, entry);
            }
            entries.set_and_swap(index, &mut entry);
            Some(entry.1)
        } else {
            proof {
                if index < before.len() {
                    lemma_addresses_ordered(before[index as int].0, participant);
                }
                assert(!contents(before).dom().contains(participant)) by {
                    if contents(before).dom().contains(participant) {
                        let at = choose|at: int| entry_of(before, at, participant);
                        if at < index {
                            lemma_addresses_ordered(before[at].0, participant);
                        } else if at > index {
                            lemma_addresses_transitive(
                                participant,
                                before[index as int].0,
                                before[at].0,
                            );
                            lemma_addresses_ordered(before[at].0, participant);
                        }
                    }
                }
                lemma_insert_between(before, index as int, (participant, coefficient));
            }
            entries.insert(index, (participant, coefficient));
            None
        };
        self.entries = entries;
        previous
    }

    /// The coefficient of a participant, if the map holds one for it.
    pub fn get(&self, participant: &Address) -> (coefficient: Option<&Vec<u8>>)
        ensures
            match coefficient {
                Some(found) => self@.dom().contains(*participant) && found@ == self@[*participant],
                None => !self@.dom().contains(*participant),
            },
    {
        proof {
            use_type_invariant(self);
        }
        let mut index: usize = 0;
        while index < self.entries.len()
            invariant
                index <= self.entries@.len(),
                ascending(self.entries@),
                forall|before: int|
                    0 <= before < index ==> (#[trigger] self.entries@[before]).0 != *participant,
            decreases self.entries@.len() - index,
        {
            if self.entries[index].0.same_as(participant) {
                proof {
                    lemma_entry_found(self.entries@, index as int, *participant);
                }
                return Some(&self.entries[index].1);
            }
            index += 1;
        }
        None
    }

    /// The participants of the map, each once, in ascending order.
    pub fn keys(&self) -> (participants: Vec<Address>)
        ensures
            participants@ == self.participants(),
    {
        let mut participants: Vec<Address> = Vec::new();
        let mut index: usize = 0;
        while index < self.entries.len()
            invariant
                index <= self.entries@.len(),
                participants@.len() == index,
                forall|before: int|
                    0 <= before < index ==> participants@[before] == self.entries@[before].0,
            decreases self.entries@.len() - index,
        {
            participants.push(self.entries[index].0);
            index += 1;
        }
        assert(participants@ =~= self.participants());
        participants
    }

    /// The participants come in strictly ascending order, and they are those
    /// for which the map holds a coefficient. They are the only sequence of
    /// which both can be said.
    pub proof fn lemma_participants(&self)
        requires
            self.well_formed(),
        ensures
            strictly_ascending(self.participants()),
            forall|participant: Address|
                self.participants().contains(participant) <==> self@.dom().contains(participant),
            forall|other: Seq<Address>|
                strictly_ascending(other) && (forall|participant: Address|
                    other.contains(participant) <==> self@.dom().contains(participant))
                    ==> other == self.participants(),
    {
        let entries = self.entries@;
        assert forall|participant: Address|
            self.participants().contains(participant) <==> self@.dom().contains(
                participant,
            ) by {
            if self.participants().contains(participant) {
                let at = choose|at: int|
                    0 <= at < self.participants().len() && self.participants()[at] == participant;
                assert(entry_of(entries, at, participant));
            }
            if self@.dom().contains(participant) {
                let at = choose|at: int| entry_of(entries, at, participant);
                assert(self.participants()[at] == participant);
            }
        }
        assert forall|other: Seq<Address>|
            strictly_ascending(other) && (forall|participant: Address|
                other.contains(participant) <==> self@.dom().contains(participant)) implies other
            == self.participants() by {
            lemma_ascending_unique(other, self.participants());
        }
    }
}

} // verus!
