use vstd::prelude::*;

verus! {

/// A 32-byte account key (a participant, an authority, a program).
#[derive(Clone, Copy, Debug)]
pub struct Address {
    pub bytes: [u8; 32],
}

/// The all-zero key, which marks a record that was never claimed by an owner.
pub open spec fn is_unset(a: Address) -> bool {
    forall|i: int| 0 <= i < 32 ==> #[trigger] a.bytes@[i] == 0u8
}

impl Address {
    pub fn new(bytes: [u8; 32]) -> (r: Address)
        ensures
            r.bytes@ == bytes@,
    {
        Address { bytes }
    }

    /// The all-zero key.
    pub fn unset() -> (r: Address)
        ensures
            is_unset(r),
    {
        let r = Address { bytes: [0u8; 32] };
        r
    }

    /// Whether two keys hold the same bytes.
    pub fn same_as(&self, other: &Address) -> (r: bool)
        ensures
            r == (self.bytes@ == other.bytes@),
    {
        let mut i: usize = 0;
        while i < 32
            invariant
                0 <= i <= 32,
                self.bytes@.len() == 32,
                other.bytes@.len() == 32,
                forall|j: int| 0 <= j < i ==> self.bytes@[j] == other.bytes@[j],
            decreases 32 - i,
        {
            if self.bytes[i] != other.bytes[i] {
                return false;
            }
            i += 1;
        }
        assert(self.bytes@ =~= other.bytes@);
        true
    }

    /// Whether this is the all-zero key.
    pub fn is_unset(&self) -> (r: bool)
        ensures
            r == is_unset(*self),
    {
        let mut i: usize = 0;
        while i < 32
            invariant
                0 <= i <= 32,
                self.bytes@.len() == 32,
                forall|j: int| 0 <= j < i ==> self.bytes@[j] == 0u8,
            decreases 32 - i,
        {
            if self.bytes[i] != 0 {
                return false;
            }
            i += 1;
        }
        true
    }
}

} // verus!
