use vstd::prelude::*;
use vstd::slice::slice_to_vec;

verus! {

/// The identity of an actor or a record: 32 bytes.
#[derive(Clone, Copy, Debug, PartialEq, Eq, Hash)]
pub struct Address {
    pub bytes: [u8; 32],
}

impl View for Address {
    type V = Seq<u8>;

    open spec fn view(&self) -> Seq<u8> {
        self.bytes@
    }
}

impl Address {
    /// The address that `bytes` stands for: the only one, since an address
    /// is its bytes.
    pub open spec fn from_seq(bytes: Seq<u8>) -> Address {
        choose|a: Address| a@ == bytes
    }

    /// The address made of `bytes`.
    pub fn new(bytes: [u8; 32]) -> (a: Address)
        ensures
            a.bytes == bytes,
    {
        Address { bytes }
    }

    /// Whether two addresses are the same address.
    pub fn same(&self, other: &Address) -> (r: bool)
        ensures
            r == (*self == *other),
    {
        let mut i: usize = 0;
        while i < 32
            invariant
                0 <= i <= 32,
                forall|j: int| 0 <= j < i ==> self.bytes[j] == other.bytes[j],
            decreases 32 - i,
        {
            if self.bytes[i] != other.bytes[i] {
                return false;
            }
            i = i + 1;
        }
        assert(self.bytes =~= other.bytes);
        true
    }

    /// The address as a seed for deriving other addresses.
    pub fn to_vec(&self) -> (v: Vec<u8>)
        ensures
            v@ == self@,
    {
        slice_to_vec(self.bytes.as_slice())
    }
}

/// Two addresses with the same bytes are the same address.
pub proof fn lemma_address_by_bytes(a: Address, b: Address)
    requires
        a@ == b@,
    ensures
        a == b,
{
    assert forall|i: int| 0 <= i < 32 implies a.bytes[i] == b.bytes[i] by {
        assert(a.bytes[i] == a@[i]);
        assert(b.bytes[i] == b@[i]);
    }
    assert(a.bytes =~= b.bytes);
}

/// Reading an address's bytes back gives the address.
pub proof fn lemma_from_seq(a: Address)
    ensures
        Address::from_seq(a@) == a,
        a@.len() == 32,
{
    lemma_address_by_bytes(Address::from_seq(a@), a);
}

} // verus!
