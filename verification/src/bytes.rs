//! Small verified helpers on byte strings.

use vstd::prelude::*;

verus! {

/// Copies a slice into an array of `N` bytes; `None` when the slice has
/// any other length.
pub fn to_array<const N: usize>(bytes: &[u8]) -> (out: Option<[u8; N]>)
    ensures
        bytes@.len() == N ==> (out matches Some(a) && a@ == bytes@),
        bytes@.len() != N ==> out is None,
{
    if bytes.len() != N {
        return None;
    }
    let mut a: [u8; N] = vstd::array::array_fill_for_copy_types::<u8, N>(0u8);
    let mut i: usize = 0;
    while i < N
        invariant
            i <= N,
            bytes@.len() == N,
            forall|j: int| 0 <= j < i ==> a@[j] == bytes@[j],
        decreases N - i,
    {
        a[i] = bytes[i];
        i += 1;
    }
    assert(a@ =~= bytes@);
    Some(a)
}

/// Whether two byte strings hold the same bytes.
pub fn same_bytes(a: &[u8], b: &[u8]) -> (same: bool)
    ensures
        same == (a@ == b@),
{
    if a.len() != b.len() {
        return false;
    }
    let mut i: usize = 0;
    while i < a.len()
        invariant
            i <= a@.len(),
            a@.len() == b@.len(),
            forall|j: int| 0 <= j < i ==> a@[j] == b@[j],
        decreases a@.len() - i,
    {
        if a[i] != b[i] {
            return false;
        }
        i += 1;
    }
    assert(a@ =~= b@);
    true
}

/// The eight bytes of `value`, most significant first.
pub open spec fn be_bytes(value: u64) -> Seq<u8> {
    seq![
        ((value >> 56) & 0xff) as u8,
        ((value >> 48) & 0xff) as u8,
        ((value >> 40) & 0xff) as u8,
        ((value >> 32) & 0xff) as u8,
        ((value >> 24) & 0xff) as u8,
        ((value >> 16) & 0xff) as u8,
        ((value >> 8) & 0xff) as u8,
        (value & 0xff) as u8,
    ]
}

/// The number that eight bytes spell, most significant first.
pub open spec fn be_value(bytes: Seq<u8>) -> u64
    recommends
        bytes.len() == 8,
{
    (bytes[0] as u64) << 56 | (bytes[1] as u64) << 48 | (bytes[2] as u64) << 40
        | (bytes[3] as u64) << 32 | (bytes[4] as u64) << 24 | (bytes[5] as u64) << 16
        | (bytes[6] as u64) << 8 | (bytes[7] as u64)
}

/// Reading back the big-endian bytes of a number gives the number.
pub proof fn be_bytes_round_trip(value: u64)
    ensures
        be_bytes(value).len() == 8,
        be_value(be_bytes(value)) == value,
{
    assert(((((value >> 56) & 0xff) as u8) as u64) << 56
        | ((((value >> 48) & 0xff) as u8) as u64) << 48
        | ((((value >> 40) & 0xff) as u8) as u64) << 40
        | ((((value >> 32) & 0xff) as u8) as u64) << 32
        | ((((value >> 24) & 0xff) as u8) as u64) << 24
        | ((((value >> 16) & 0xff) as u8) as u64) << 16
        | ((((value >> 8) & 0xff) as u8) as u64) << 8
        | (((value & 0xff) as u8) as u64) == value) by (bit_vector);
}

} // verus!
