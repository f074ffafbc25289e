//! A deterministic in-memory storage backend: contract code, state
//! slots and a state root, with a configurable set of faulty keys that
//! deterministically fail, standing in for backend errors.

use vstd::prelude::*;

verus! {

/// A backend-specific storage error. The interpreter treats any such
/// error as fatal to the current transaction.
#[derive(Clone, Copy, PartialEq, Eq, Structural, Debug)]
pub struct DataError;

/// The value of a state slot: the first binding of the key, or zero if
/// the key was never written.
pub open spec fn slot_value(s: Seq<(u64, u64)>, k: u64) -> u64
    decreases s.len(),
{
    if s.len() == 0 {
        0
    } else if s[0].0 == k {
        s[0].1
    } else {
        slot_value(s.drop_first(), k)
    }
}

/// Whether contract code is deployed under an identifier.
pub open spec fn code_contains(c: Seq<(u64, Vec<u8>)>, id: u64) -> bool {
    exists|i: int| 0 <= i < c.len() && c[i].0 == id
}

/// Key-value storage held entirely in memory. Reads and writes are
/// deterministic functions of the snapshot; keys listed in `faults`
/// fail with [`DataError`] instead.
#[derive(Debug)]
pub struct MemoryStorage {
    /// State slot bindings, newest first; the first binding of a key is
    /// its current value.
    pub slots: Vec<(u64, u64)>,
    /// Deployed contract code by identifier, newest first.
    pub code: Vec<(u64, Vec<u8>)>,
    /// The current state root, replaced by upgrade transactions.
    pub state_root: u64,
    /// Slot keys on which the backend deterministically fails.
    pub faults: Vec<u64>,
}

impl MemoryStorage {
    /// An empty storage with no deployed code, no written slots and no
    /// faulty keys.
    pub fn new() -> (r: Self)
        ensures
            r.slots@ == Seq::<(u64, u64)>::empty(),
            r.code@ == Seq::<(u64, Vec<u8>)>::empty(),
            r.state_root == 0,
            r.faults@ == Seq::<u64>::empty(),
    {
        MemoryStorage { slots: Vec::new(), code: Vec::new(), state_root: 0, faults: Vec::new() }
    }

    /// Whether the backend fails on this slot key.
    pub fn is_faulted(&self, k: u64) -> (b: bool)
        ensures
            b == self.faults@.contains(k),
    {
        let mut i: usize = 0;
        while i < self.faults.len()
            invariant
                i <= self.faults@.len(),
                forall|j: int| 0 <= j < i ==> self.faults@[j] != k,
            decreases self.faults@.len() - i,
        {
            if self.faults[i] == k {
                return true;
            }
            i = i + 1;
        }
        false
    }

    /// Reads a state slot, or fails if the key is faulty.
    pub fn read_slot(&self, k: u64) -> (r: Result<u64, DataError>)
        ensures
            self.faults@.contains(k) ==> r == Err::<u64, DataError>(DataError),
            !self.faults@.contains(k) ==> r == Ok::<u64, DataError>(slot_value(self.slots@, k)),
    {
        if self.is_faulted(k) {
            return Err(DataError);
        }
        let mut i: usize = 0;
        proof {
            assert(self.slots@.skip(0) =~= self.slots@);
        }
        while i < self.slots.len()
            invariant
                !self.faults@.contains(k),
                i <= self.slots@.len(),
                slot_value(self.slots@, k) == slot_value(self.slots@.skip(i as int), k),
            decreases self.slots@.len() - i,
        {
            if self.slots[i].0 == k {
                proof {
                    assert(self.slots@.skip(i as int)[0] == self.slots@[i as int]);
                }
                return Ok(self.slots[i].1);
            }
            proof {
                assert(self.slots@.skip(i as int).drop_first() =~= self.slots@.skip(i + 1));
                assert(self.slots@.skip(i as int)[0] == self.slots@[i as int]);
            }
            i = i + 1;
        }
        proof {
            assert(self.slots@.skip(i as int).len() == 0);
        }
        Ok(0)
    }

    /// Writes a state slot, or fails (leaving the storage unchanged) if
    /// the key is faulty.
    pub fn write_slot(&mut self, k: u64, v: u64) -> (r: Result<(), DataError>)
        ensures
            old(self).faults@.contains(k) ==> r == Err::<(), DataError>(DataError) && *final (self)
                == *old(self),
            !old(self).faults@.contains(k) ==> r == Ok::<(), DataError>(()) && final (self).slots@
                == seq![(k, v)] + old(self).slots@,
            final (self).code@ == old(self).code@,
            final (self).state_root == old(self).state_root,
            final (self).faults@ == old(self).faults@,
    {
        if self.is_faulted(k) {
            return Err(DataError);
        }
        self.slots.insert(0, (k, v));
        proof {
            assert(self.slots@ =~= seq![(k, v)] + old(self).slots@);
        }
        Ok(())
    }

    /// Whether contract code is deployed under this identifier.
    pub fn contains_code(&self, id: u64) -> (b: bool)
        ensures
            b == code_contains(self.code@, id),
    {
        let mut i: usize = 0;
        while i < self.code.len()
            invariant
                i <= self.code@.len(),
                forall|j: int| 0 <= j < i ==> self.code@[j].0 != id,
            decreases self.code@.len() - i,
        {
            if self.code[i].0 == id {
                return true;
            }
            i = i + 1;
        }
        false
    }

    /// Deploys contract code under an identifier.
    pub fn insert_code(&mut self, id: u64, bytecode: Vec<u8>)
        ensures
            final (self).code@ == seq![(id, bytecode)] + old(self).code@,
            final (self).slots@ == old(self).slots@,
            final (self).state_root == old(self).state_root,
            final (self).faults@ == old(self).faults@,
    {
        self.code.insert(0, (id, bytecode));
        proof {
            assert(self.code@ =~= seq![(id, bytecode)] + old(self).code@);
        }
    }

    /// Replaces the state root.
    pub fn set_state_root(&mut self, root: u64)
        ensures
            final (self).state_root == root,
            final (self).slots@ == old(self).slots@,
            final (self).code@ == old(self).code@,
            final (self).faults@ == old(self).faults@,
    {
        self.state_root = root;
    }
}

} // verus!
