//! The secret handed to at most one requestor.

use vstd::prelude::*;

verus! {

/// The secret payload: an immutable byte sequence, loaded once before the
/// selection is claimed.
pub struct Pass(Vec<u8>);

impl View for Pass {
    type V = Seq<u8>;

    closed spec fn view(&self) -> Seq<u8> {
        self.0@
    }
}

impl Pass {
    /// Wraps the bytes read from the caller.
    pub fn new(bytes: Vec<u8>) -> (pass: Pass)
        ensures
            pass@ == bytes@,
    {
        Pass(bytes)
    }

    /// Read-only access to the secret's bytes.
    pub fn unlock(&self) -> (bytes: &[u8])
        ensures
            bytes@ == self@,
    {
        self.0.as_slice()
    }
}

} // verus!
