//! The identifiers that responses carry: operations, accounts and public keys.

use vstd::prelude::*;
use vstd::string::*;
use crate::text::{prefixed_hex_text, push_prefixed_hex};

verus! {

/// Identifies one key operation on every node that takes part in it.
#[derive(Clone, Copy, Debug, PartialEq, Eq, Hash)]
pub struct ServerKeyId {
    pub bytes: [u8; 32],
}

/// An account on the ledger: a key server or a requester.
#[derive(Clone, Copy, Debug, PartialEq, Eq, Hash)]
pub struct Address {
    pub bytes: [u8; 20],
}

/// A public key, or another point of the curve.
#[derive(Clone, Copy, Debug, PartialEq, Eq, Hash)]
pub struct Public {
    pub bytes: [u8; 64],
}

/// Whether the first of two byte strings of one length comes before the second
/// when only the bytes from `from` on are looked at, the earlier byte deciding.
pub open spec fn bytes_precede(first: Seq<u8>, second: Seq<u8>, from: int) -> bool
    decreases first.len() - from,
{
    if from < 0 || from >= first.len() {
        false
    } else if first[from] != second[from] {
        first[from] < second[from]
    } else {
        bytes_precede(first, second, from + 1)
    }
}

/// No byte string comes before itself.
pub proof fn lemma_precede_irreflexive(bytes: Seq<u8>, from: int)
    ensures
        !bytes_precede(bytes, bytes, from),
    decreases bytes.len() - from,
{
    if 0 <= from < bytes.len() {
        lemma_precede_irreflexive(bytes, from + 1);
    }
}

/// If a first byte string comes before a second and the second before a third,
/// the first comes before the third.
pub proof fn lemma_precede_transitive(first: Seq<u8>, second: Seq<u8>, third: Seq<u8>, from: int)
    requires
        first.len() == second.len(),
        second.len() == third.len(),
        bytes_precede(first, second, from),
        bytes_precede(second, third, from),
    ensures
        bytes_precede(first, third, from),
    decreases first.len() - from,
{
    if 0 <= from < first.len() {
        if first[from] == second[from] && second[from] == third[from] {
            lemma_precede_transitive(first, second, third, from + 1);
        }
    }
}

/// Of two byte strings of one length, neither of which comes before the other,
/// each byte from `from` on is the same.
pub proof fn lemma_precede_total(first: Seq<u8>, second: Seq<u8>, from: int)
    requires
        first.len() == second.len(),
        0 <= from,
        !bytes_precede(first, second, from),
        !bytes_precede(second, first, from),
    ensures
        forall|index: int| from <= index < first.len() ==> first[index] == second[index],
    decreases first.len() - from,
{
    if from < first.len() {
        lemma_precede_total(first, second, from + 1);
    }
}

impl ServerKeyId {
    /// The identifier as text: `0x` and 64 hexadecimal digits.
    pub fn to_text(&self) -> (text: String)
        ensures
            text@ == prefixed_hex_text(self.bytes@),
    {
        let mut text = String::new();
        push_prefixed_hex(&mut text, self.bytes.as_slice());
        assert(text@ =~= prefixed_hex_text(self.bytes@));
        text
    }
}

impl Address {
    /// The order of addresses: that of their bytes, the first byte deciding first.
    pub open spec fn precedes_spec(&self, other: &Address) -> bool {
        bytes_precede(self.bytes@, other.bytes@, 0)
    }

    /// Whether this address comes before the other.
    #[verifier::when_used_as_spec(precedes_spec)]
    pub fn precedes(&self, other: &Address) -> (before: bool)
        ensures
            before == self.precedes_spec(other),
    {
        let mut index: usize = 0;
        while index < 20
            invariant
                index <= 20,
                forall|earlier: int| 0 <= earlier < index ==> self.bytes[earlier] == other.bytes[earlier],
                bytes_precede(self.bytes@, other.bytes@, 0) == bytes_precede(
                    self.bytes@,
                    other.bytes@,
                    index as int,
                ),
            decreases 20 - index,
        {
            if self.bytes[index] != other.bytes[index] {
                return self.bytes[index] < other.bytes[index];
            }
            index += 1;
        }
        false
    }

    /// Whether the two addresses are the same.
    pub fn same_as(&self, other: &Address) -> (same: bool)
        ensures
            same == (*self == *other),
    {
        let mut index: usize = 0;
        while index < 20
            invariant
                index <= 20,
                forall|earlier: int| 0 <= earlier < index ==> self.bytes[earlier] == other.bytes[earlier],
            decreases 20 - index,
        {
            if self.bytes[index] != other.bytes[index] {
                return false;
            }
            index += 1;
        }
        assert(self.bytes =~= other.bytes);
        true
    }
}

/// Two addresses are the same, or one of them comes before the other.
pub proof fn lemma_addresses_ordered(first: Address, second: Address)
    ensures
        first == second || first.precedes(&second) || second.precedes(&first),
        !(first.precedes(&second) && second.precedes(&first)),
        first == second ==> !first.precedes(&second),
{
    if !first.precedes(&second) && !second.precedes(&first) {
        lemma_precede_total(first.bytes@, second.bytes@, 0);
        assert(first.bytes =~= second.bytes);
    }
    if first.precedes(&second) && second.precedes(&first) {
        lemma_precede_transitive(first.bytes@, second.bytes@, first.bytes@, 0);
        lemma_precede_irreflexive(first.bytes@, 0);
    }
    lemma_precede_irreflexive(first.bytes@, 0);
}

/// The order of addresses is transitive.
pub proof fn lemma_addresses_transitive(first: Address, second: Address, third: Address)
    requires
        first.precedes(&second),
        second.precedes(&third),
    ensures
        first.precedes(&third),
{
    lemma_precede_transitive(first.bytes@, second.bytes@, third.bytes@, 0);
}

} // verus!
