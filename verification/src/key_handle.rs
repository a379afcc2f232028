//! The key handle that a U2F token hands out at registration and gets back
//! at authentication.
use crate::encoding::{base64_encode, base64_len_fits, base64_standard};
use vstd::prelude::*;

verus! {

/// Length of the handles this token generates.
pub const KEY_HANDLE_LEN: usize = 32;

/// An opaque key handle.
#[derive(Clone, Debug, PartialEq, Eq, Hash)]
pub struct KeyHandle(pub Vec<u8>);

impl View for KeyHandle {
    type V = Seq<u8>;

    open spec fn view(&self) -> Seq<u8> {
        self.0@
    }
}

impl KeyHandle {
    /// The handle made of `bytes`.
    pub fn from_bytes(bytes: &[u8]) -> (r: KeyHandle)
        ensures
            r@ == bytes@,
    {
        KeyHandle(vstd::slice::slice_to_vec(bytes))
    }

    /// The bytes of the handle.
    pub fn as_bytes(&self) -> (r: &[u8])
        ensures
            r@ == self@,
    {
        self.0.as_slice()
    }

    /// Whether the handle is short enough for its Base64 text to be sized.
    pub fn fits_base64(&self) -> (r: bool)
        ensures
            r == base64_len_fits(self@.len()),
    {
        let n = self.0.len();
        let q = n / 3;
        if n % 3 == 0 {
            q <= usize::MAX / 4
        } else {
            q <= (usize::MAX - 4) / 4
        }
    }

    /// The handle's standard Base64 text.
    pub fn to_base64(&self) -> (r: String)
        requires
            base64_len_fits(self@.len()),
        ensures
            r@ == base64_standard(self@),
    {
        base64_encode(self.0.as_slice())
    }
}

} // verus!
