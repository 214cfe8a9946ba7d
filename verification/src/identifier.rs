//! The 128-bit unique identifier that is encoded.

use vstd::prelude::*;

verus! {

/// A 128-bit unique identifier, held as its sixteen bytes.
#[derive(Clone, Copy, Debug, PartialEq, Eq)]
pub struct Identifier {
    bytes: [u8; 16],
}

impl View for Identifier {
    type V = Seq<u8>;

    closed spec fn view(&self) -> Seq<u8> {
        self.bytes@
    }
}

impl Identifier {
    /// The identifier with the given byte representation.
    pub fn from_bytes(bytes: [u8; 16]) -> (id: Identifier)
        ensures
            id@ == bytes@,
    {
        Identifier { bytes }
    }

    /// The byte representation of the identifier.
    pub fn as_bytes(&self) -> (bytes: &[u8; 16])
        ensures
            bytes@ == self@,
    {
        &self.bytes
    }

    /// An identifier always has sixteen bytes.
    pub proof fn lemma_sixteen_bytes(self)
        ensures
            self@.len() == 16,
    {
    }
}

} // verus!
