//! The content store: the bytes of the one file that is served.

use vstd::prelude::*;

verus! {

/// The bytes of the served file. They are set when the store is made and
/// never change: the type has no operation that writes them.
#[derive(Debug)]
pub struct ContentStore {
    bytes: Vec<u8>,
}

impl View for ContentStore {
    type V = Seq<u8>;

    closed spec fn view(&self) -> Seq<u8> {
        self.bytes@
    }
}

impl ContentStore {
    /// A store that holds `bytes`.
    pub fn new(bytes: Vec<u8>) -> (store: ContentStore)
        ensures
            store@ == bytes@,
    {
        ContentStore { bytes }
    }

    /// The stored bytes.
    pub fn bytes(&self) -> (bytes: &Vec<u8>)
        ensures
            bytes@ == self@,
    {
        &self.bytes
    }
}

} // verus!
