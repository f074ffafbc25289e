//! Predicate bytecode attached to a transaction input.

use vstd::prelude::*;

verus! {

/// An owned predicate bytecode buffer.
///
/// Behaves as a plain byte sequence; equality and hashing are value-based.
/// Compression into a registry-keyed compact form is an external
/// collaborator's concern and is not modelled here.
#[derive(Clone, PartialEq, Eq, Hash, Debug, Default)]
pub struct PredicateCode {
    /// The raw predicate bytecode.
    pub bytes: Vec<u8>,
}

impl From<Vec<u8>> for PredicateCode {
    fn from(bytes: Vec<u8>) -> Self {
        PredicateCode { bytes }
    }
}

impl vstd::std_specs::convert::FromSpecImpl<Vec<u8>> for PredicateCode {
    open spec fn obeys_from_spec() -> bool {
        true
    }

    open spec fn from_spec(bytes: Vec<u8>) -> Self {
        PredicateCode { bytes }
    }
}

impl PredicateCode {
    /// Number of bytes of predicate code.
    pub fn len(&self) -> (n: usize)
        ensures
            n == self.bytes@.len(),
    {
        self.bytes.len()
    }
}

} // verus!
