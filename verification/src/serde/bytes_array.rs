//! Byte strings of a fixed length.

use vstd::prelude::*;

verus! {

/// A byte string had another length than the array it was meant for.
#[derive(Clone, Copy, Debug, PartialEq, Eq, Structural)]
pub struct InvalidLength {
    /// The length of the byte string.
    pub found: usize,
    /// The length of the array.
    pub expected: usize,
}

/// Copies a byte string into an array of `N` bytes, which succeeds if and
/// only if the byte string holds exactly `N` bytes.
pub fn deserialize<const N: usize>(bytes: &[u8]) -> (result: Result<[u8; N], InvalidLength>)
    ensures
        result is Ok <==> bytes@.len() == N,
        match result {
            Ok(array) => array@ == bytes@,
            Err(error) => bytes@.len() != N && error == (InvalidLength {
                found: bytes@.len() as usize,
                expected: N,
            }),
        },
{
    if bytes.len() != N {
        return Err(InvalidLength { found: bytes.len(), expected: N });
    }
    let mut array: [u8; N] = [0u8; N];
    let mut i: usize = 0;
    while i < N
        invariant
            i <= N,
            bytes@.len() == N,
            forall|j: int| 0 <= j < i ==> array@[j] == bytes@[j],
        decreases N - i,
    {
        array[i] = bytes[i];
        i += 1;
    }
    Ok(array)
}

} // verus!
