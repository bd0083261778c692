//! Fixed-width account addresses.

use vstd::prelude::*;

verus! {

/// Number of bytes in an address.
pub const ADDRESS_LEN: usize = 32;

/// A 32-byte account or program identifier.
///
/// Its view is the sequence of its bytes. Two addresses are equal exactly
/// when their views are (`address_ext`).
#[derive(Clone, Copy, Debug, Eq)]
pub struct Address {
    pub bytes: [u8; 32],
}

impl View for Address {
    type V = Seq<u8>;

    open spec fn view(&self) -> Seq<u8> {
        self.bytes@
    }
}

impl Address {
    /// The address with the given bytes.
    pub fn new(bytes: [u8; 32]) -> (res: Address)
        ensures
            res.bytes == bytes,
            res@ == bytes@,
    {
        Address { bytes }
    }

    /// Whether this is the owner of every account that no program has been
    /// assigned yet: thirty-two zero bytes.
    pub open spec fn is_unassigned(&self) -> bool {
        self@ == Seq::new(32, |i: int| 0u8)
    }

    /// The owner of every account that no program has been assigned yet.
    pub fn unassigned() -> (res: Address)
        ensures
            res.is_unassigned(),
    {
        let res = Address { bytes: [0u8; 32] };
        assert(res@ =~= Seq::new(32, |i: int| 0u8));
        res
    }

    /// The bytes of the address.
    pub fn to_bytes(&self) -> (res: [u8; 32])
        ensures
            res == self.bytes,
    {
        self.bytes
    }

    /// The bytes of the address, as a vector of length 32.
    pub fn to_vec(&self) -> (res: Vec<u8>)
        ensures
            res@ == self@,
    {
        let mut out: Vec<u8> = Vec::new();
        let mut i: usize = 0;
        while i < 32
            invariant
                i <= 32,
                out@.len() == i,
                forall|j: int| 0 <= j < i ==> out@[j] == self.bytes[j],
            decreases 32 - i,
        {
            out.push(self.bytes[i]);
            i += 1;
        }
        assert(out@ =~= self@);
        out
    }

    /// The address held in the 32 bytes of `bytes` that start at `offset`,
    /// or nothing where `bytes` ends before them.
    pub fn from_slice(bytes: &[u8], offset: usize) -> (res: Option<Address>)
        ensures
            offset + 32 <= bytes@.len() ==> (res matches Some(a) && a@ == bytes@.subrange(
                offset as int,
                offset + 32,
            )),
            offset + 32 > bytes@.len() ==> res is None,
    {
        let len: usize = bytes.len();
        if len < 32 || offset > len - 32 {
            return None;
        }
        let mut out: [u8; 32] = [0u8; 32];
        let mut i: usize = 0;
        while i < 32
            invariant
                i <= 32,
                len == bytes@.len(),
                offset + 32 <= len,
                forall|j: int| 0 <= j < i ==> out[j] == bytes@[offset + j],
            decreases 32 - i,
        {
            out[i] = bytes[offset + i];
            i += 1;
        }
        assert(out@ =~= bytes@.subrange(offset as int, offset + 32));
        Some(Address { bytes: out })
    }

    /// Whether two addresses hold the same bytes.
    pub fn same(&self, other: &Address) -> (res: bool)
        ensures
            res == (*self == *other),
            res == (self@ == other@),
    {
        let mut i: usize = 0;
        while i < 32
            invariant
                i <= 32,
                forall|j: int| 0 <= j < i ==> self.bytes[j] == other.bytes[j],
            decreases 32 - i,
        {
            if self.bytes[i] != other.bytes[i] {
                assert(self@[i as int] != other@[i as int]);
                return false;
            }
            i += 1;
        }
        assert(self.bytes =~= other.bytes);
        true
    }
}

impl PartialEq for Address {
    fn eq(&self, other: &Address) -> (res: bool) {
        self.same(other)
    }
}

impl vstd::std_specs::cmp::PartialEqSpecImpl for Address {
    open spec fn obeys_eq_spec() -> bool {
        true
    }

    open spec fn eq_spec(&self, other: &Address) -> bool {
        *self == *other
    }
}

/// The address whose bytes are `bytes`. Only sequences of 32 bytes are
/// the bytes of an address; for any other the result is arbitrary.
pub open spec fn address_of(bytes: Seq<u8>) -> Address
    recommends
        bytes.len() == 32,
{
    choose|a: Address| a@ == bytes
}

/// `address_of` gives every address back from its bytes.
pub proof fn address_of_view(a: Address)
    ensures
        address_of(a@) == a,
{
    address_ext(address_of(a@), a);
}

/// Two addresses with the same bytes are the same address, and every
/// address has 32 bytes.
pub proof fn address_ext(a: Address, b: Address)
    ensures
        (a@ == b@) <==> (a == b),
        a@.len() == 32,
{
    if a@ == b@ {
        assert forall|i: int| 0 <= i < 32 implies a.bytes[i] == b.bytes[i] by {
            assert(a@[i] == b@[i]);
        }
        assert(a.bytes =~= b.bytes);
    }
}

} // verus!
