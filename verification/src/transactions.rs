//! Transactions, and what is kept for each of their operations.

use std::collections::HashMap;

use vstd::prelude::*;

verus! {

broadcast use vstd::std_specs::hash::group_hash_axioms;

/// A type-safe identifier for transactions to avoid confusion with other IDs
#[derive(Debug, Clone, Copy, PartialEq, Eq, Hash, Structural)]
pub struct TransactionId(pub usize);

impl TransactionId {
    pub fn new(id: usize) -> (r: Self)
        ensures
            r == TransactionId(id),
    {
        TransactionId(id)
    }
}

/// A number for each operation of each transaction that has one.
#[derive(Debug)]
pub struct OperationTable {
    numbers: HashMap<u128, usize>,
}

/// How many operations a transaction can have.
const OPERATIONS: u128 = 0x1_0000_0000_0000_0000;

/// The key that `numbers` has for an operation.
spec fn key_of(id: TransactionId, operation: usize) -> u128 {
    (id.0 * OPERATIONS + operation) as u128
}

impl View for OperationTable {
    type V = Map<(TransactionId, usize), usize>;

    closed spec fn view(&self) -> Map<(TransactionId, usize), usize> {
        Map::new(
            |k: (TransactionId, usize)| self.numbers@.contains_key(key_of(k.0, k.1)),
            |k: (TransactionId, usize)| self.numbers@[key_of(k.0, k.1)],
        )
    }
}

proof fn keys_differ(a: (TransactionId, usize), b: (TransactionId, usize))
    ensures
        key_of(a.0, a.1) == key_of(b.0, b.1) ==> a == b,
{
    assert(a.0.0 * OPERATIONS + a.1 <= u128::MAX);
    assert(b.0.0 * OPERATIONS + b.1 <= u128::MAX);
}

/// The key for an operation.
fn key(id: TransactionId, operation: usize) -> (r: u128)
    ensures
        r == key_of(id, operation),
{
    id.0 as u128 * OPERATIONS + operation as u128
}

impl OperationTable {
    /// A table without numbers.
    pub fn new() -> (r: OperationTable)
        ensures
            r@ == Map::<(TransactionId, usize), usize>::empty(),
    {
        let r = OperationTable { numbers: HashMap::new() };
        assert(r@ =~= Map::<(TransactionId, usize), usize>::empty());
        r
    }

    /// The number of an operation.
    pub fn get(&self, id: TransactionId, operation: usize) -> (r: Option<usize>)
        ensures
            r == if self@.contains_key((id, operation)) {
                Some(self@[(id, operation)])
            } else {
                None
            },
    {
        match self.numbers.get(&key(id, operation)) {
            Some(number) => Some(*number),
            None => None,
        }
    }

    /// Gives an operation the number `number`.
    pub fn insert(&mut self, id: TransactionId, operation: usize, number: usize)
        ensures
            final(self)@ == old(self)@.insert((id, operation), number),
    {
        let ghost before = self@;
        self.numbers.insert(key(id, operation), number);
        proof {
            assert forall|k: (TransactionId, usize)|
                #[trigger] key_of(k.0, k.1) == key_of(id, operation) implies k == (
                id,
                operation,
            ) by {
                keys_differ(k, (id, operation));
            }
            assert(self@ =~= before.insert((id, operation), number));
        }
    }

    /// Takes the number of an operation away.
    pub fn remove(&mut self, id: TransactionId, operation: usize) -> (r: Option<usize>)
        ensures
            final(self)@ == old(self)@.remove((id, operation)),
            r == if old(self)@.contains_key((id, operation)) {
                Some(old(self)@[(id, operation)])
            } else {
                None
            },
    {
        let ghost before = self@;
        let r = self.numbers.remove(&key(id, operation));
        proof {
            assert forall|k: (TransactionId, usize)|
                #[trigger] key_of(k.0, k.1) == key_of(id, operation) implies k == (
                id,
                operation,
            ) by {
                keys_differ(k, (id, operation));
            }
            assert(self@ =~= before.remove((id, operation)));
        }
        r
    }
}

} // verus!
