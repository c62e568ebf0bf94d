//! Fixed-size byte containers for note components.

use vstd::prelude::*;

verus! {

/// A unified interface for the fixed-size byte buffers used in note
/// encryption. Every value of an implementing type holds exactly
/// `Self::spec_len()` bytes.
pub trait NoteBytes: Sized {
    /// The bytes held by this buffer.
    spec fn bytes(&self) -> Seq<u8>;

    /// The fixed width of this buffer type.
    spec fn spec_len() -> nat;

    /// Exposes the bytes of the buffer.
    fn as_slice(&self) -> (r: &[u8])
        ensures
            r@ == self.bytes(),
            self.bytes().len() == Self::spec_len(),
    ;

    /// Builds a buffer from a byte slice, enforcing the exact width.
    fn from_slice(bytes: &[u8]) -> (r: Option<Self>)
        ensures
            r is Some <==> bytes@.len() == Self::spec_len(),
            r matches Some(b) ==> b.bytes() == bytes@,
    ;

    /// Builds a buffer from a ciphertext body followed by an authentication
    /// tag, enforcing that together they fill the exact width.
    fn from_slice_with_tag(output: &[u8], tag: &[u8; 16]) -> (r: Option<Self>)
        ensures
            r is Some <==> output@.len() + 16 == Self::spec_len(),
            r matches Some(b) ==> b.bytes() == output@ + tag@,
    ;
}

/// A fixed-size byte buffer backed by an `N`-byte array.
#[derive(Clone, Copy)]
pub struct NoteBytesData<const N: usize>(pub [u8; N]);

impl<const N: usize> NoteBytes for NoteBytesData<N> {
    open spec fn bytes(&self) -> Seq<u8> {
        self.0@
    }

    open spec fn spec_len() -> nat {
        N as nat
    }

    fn as_slice(&self) -> (r: &[u8])
        ensures
            r@ == self.bytes(),
            self.bytes().len() == Self::spec_len(),
    {
        self.0.as_slice()
    }

    fn from_slice(bytes: &[u8]) -> (r: Option<NoteBytesData<N>>)
        ensures
            r is Some <==> bytes@.len() == Self::spec_len(),
            r matches Some(b) ==> b.bytes() == bytes@,
    {
        if bytes.len() == N {
            let mut data = [0u8; N];
            for i in 0..N
                invariant
                    bytes@.len() == N,
                    data@.len() == N,
                    forall|j: int| 0 <= j < i ==> data@[j] == bytes@[j],
            {
                data[i] = *vstd::slice::slice_index_get(bytes, i);
            }
            proof {
                assert(data@ =~= bytes@);
            }
            Some(NoteBytesData(data))
        } else {
            None
        }
    }

    fn from_slice_with_tag(output: &[u8], tag: &[u8; 16]) -> (r: Option<NoteBytesData<N>>)
        ensures
            r is Some <==> output@.len() + 16 == Self::spec_len(),
            r matches Some(b) ==> b.bytes() == output@ + tag@,
    {
        if N >= 16 && output.len() == N - 16 {
            let body_len = N - 16;
            let mut data = [0u8; N];
            for i in 0..body_len
                invariant
                    body_len == N - 16,
                    output@.len() == body_len,
                    data@.len() == N,
                    forall|j: int| 0 <= j < i ==> data@[j] == output@[j],
            {
                data[i] = *vstd::slice::slice_index_get(output, i);
            }
            for i in 0..16
                invariant
                    body_len == N - 16,
                    output@.len() == body_len,
                    data@.len() == N,
                    forall|j: int| 0 <= j < body_len ==> data@[j] == output@[j],
                    forall|j: int| 0 <= j < i ==> data@[body_len + j] == tag@[j],
            {
                data[body_len + i] = tag[i];
            }
            proof {
                assert(data@ =~= output@ + tag@);
            }
            Some(NoteBytesData(data))
        } else {
            None
        }
    }
}

} // verus!
