//! Random bytes for key handles, from the `rand` crate. A draw hands back
//! the record of the bytes it gave; only a draw can make such a record.
use vstd::prelude::*;

verus! {

/// Record of a draw of random bytes: the bytes it gave.
#[derive(Clone, Copy)]
pub struct HandleDraw {
    drawn: Ghost<Seq<u8>>,
}

impl HandleDraw {
    /// The bytes the draw gave.
    pub closed spec fn bytes(&self) -> Seq<u8> {
        self.drawn@
    }
}

/// Calls `rand::random::<[u8; 32]>()`. Claimed: the record holds the bytes
/// returned. Not stated: which bytes (they are random).
#[verifier::external_body]
pub(crate) fn random_bytes_32() -> (r: ([u8; 32], HandleDraw))
    ensures
        r.1.bytes() == r.0@,
{
    let bytes = rand::random::<[u8; 32]>();
    (bytes, HandleDraw { drawn: Ghost(bytes@) })
}

} // verus!
