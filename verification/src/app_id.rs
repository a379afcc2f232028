//! The application identifier of U2F: the SHA-256 digest of the
//! application's facet URL.
use crate::encoding::{base64_encode, base64_standard};
use vstd::prelude::*;

verus! {

/// The 32-byte hash that names a U2F application.
#[derive(Clone, Copy, Debug, PartialEq, Eq, Hash)]
pub struct AppId(pub [u8; 32]);

impl View for AppId {
    type V = Seq<u8>;

    open spec fn view(&self) -> Seq<u8> {
        self.0@
    }
}

impl AppId {
    /// The identifier made of the 32 bytes of `bytes` (the slice must hold
    /// exactly 32 bytes, else copying it into the array panics).
    pub fn from_bytes(bytes: &[u8]) -> (r: AppId)
        requires
            bytes@.len() == 32,
        ensures
            r@ == bytes@,
    {
        let mut array: [u8; 32] = [0u8; 32];
        let mut i: usize = 0;
        while i < 32
            invariant
                bytes@.len() == 32,
                i <= 32,
                array@.len() == 32,
                forall|j: int| 0 <= j < i ==> array@[j] == bytes@[j],
            decreases 32 - i,
        {
            array[i] = bytes[i];
            i = i + 1;
        }
        let r = AppId(array);
        assert(r@ =~= bytes@);
        r
    }

    /// The 32 bytes of the identifier.
    pub fn as_bytes(&self) -> (r: &[u8])
        ensures
            r@ == self@,
    {
        self.0.as_slice()
    }

    /// The identifier's standard Base64 text.
    pub fn to_base64(&self) -> (r: String)
        ensures
            r@ == base64_standard(self@),
    {
        base64_encode(self.0.as_slice())
    }

    /// Whether two identifiers hold the same bytes.
    pub fn same_as(&self, other: &AppId) -> (r: bool)
        ensures
            r == (self@ == other@),
    {
        let mut i: usize = 0;
        while i < 32
            invariant
                i <= 32,
                self@.len() == 32,
                other@.len() == 32,
                forall|j: int| 0 <= j < i ==> self@[j] == other@[j],
            decreases 32 - i,
        {
            if self.0[i] != other.0[i] {
                return false;
            }
            i = i + 1;
        }
        assert(self@ =~= other@);
        true
    }
}

} // verus!
