//! Account addresses and 32-byte digests.
//!
//! An address is an opaque 32-byte public key. The ledger never interprets
//! the bytes; it only compares addresses and recognises the all-zero value,
//! which stands for "nobody".

use vstd::prelude::*;
use vstd::std_specs::cmp::PartialEqSpecImpl;

verus! {

/// A 256-bit digest, or a 32-byte public key, as stored in a record.
pub type Bytes32 = [u8; 32];

/// True when every byte of `b` is zero.
pub open spec fn all_zero(b: Bytes32) -> bool {
    forall|i: int| 0 <= i < 32 ==> b[i] == 0u8
}

/// The value whose 32 bytes are all zero.
pub open spec fn zeroed() -> Bytes32 {
    vstd::array::spec_array_fill_for_copy_type::<u8, 32>(0u8)
}

/// Reports whether every byte of `b` is zero.
pub fn is_all_zero(b: &Bytes32) -> (r: bool)
    ensures
        r == all_zero(*b),
{
    let mut i: usize = 0;
    while i < 32
        invariant
            0 <= i <= 32,
            forall|j: int| 0 <= j < i ==> b[j] == 0u8,
        decreases 32 - i,
    {
        if b[i] != 0 {
            return false;
        }
        i += 1;
    }
    true
}

/// Reports whether `a` and `b` hold the same 32 bytes.
pub fn bytes32_eq(a: &Bytes32, b: &Bytes32) -> (r: bool)
    ensures
        r == (*a == *b),
{
    let mut i: usize = 0;
    while i < 32
        invariant
            0 <= i <= 32,
            forall|j: int| 0 <= j < i ==> a[j] == b[j],
        decreases 32 - i,
    {
        if a[i] != b[i] {
            return false;
        }
        i += 1;
    }
    assert(*a =~= *b);
    true
}

/// The address of a wallet or of a record owner.
#[derive(Clone, Copy, Debug, Eq, Hash)]
pub struct Address {
    pub bytes: Bytes32,
}

impl PartialEq for Address {
    fn eq(&self, other: &Self) -> (r: bool) {
        bytes32_eq(&self.bytes, &other.bytes)
    }
}

impl PartialEqSpecImpl for Address {
    open spec fn obeys_eq_spec() -> bool {
        true
    }

    open spec fn eq_spec(&self, other: &Self) -> bool {
        *self == *other
    }
}

impl Default for Address {
    /// The all-zero address, which no wallet owns.
    fn default() -> (r: Self)
        ensures
            r == Address::nobody(),
    {
        Address { bytes: [0u8; 32] }
    }
}

impl Address {
    /// The all-zero address.
    pub open spec fn nobody() -> Address {
        Address { bytes: zeroed() }
    }

    /// True for the all-zero address.
    pub open spec fn is_default(self) -> bool {
        all_zero(self.bytes)
    }

    /// Wraps 32 raw bytes.
    pub fn new(bytes: Bytes32) -> (r: Self)
        ensures
            r.bytes == bytes,
    {
        Address { bytes }
    }

    /// The raw bytes of the address.
    pub fn to_bytes(&self) -> (r: Bytes32)
        ensures
            r == self.bytes,
    {
        self.bytes
    }
}

} // verus!
