use vstd::prelude::*;

verus! {

/// An opaque fixed-size identity value: a caller, a collection, an asset, the
/// hosting program, or a derived authority. Nothing of its internal structure
/// is interpreted by this crate beyond equality of the raw bytes.
#[derive(Clone, Copy, PartialEq, Eq, Hash, Debug)]
pub struct Principal {
    pub bytes: [u8; 32],
}

impl View for Principal {
    type V = Seq<u8>;

    open spec fn view(&self) -> Seq<u8> {
        self.bytes@
    }
}

impl Principal {
    /// Byte-for-byte equality of two identities.
    pub fn equals(&self, other: &Principal) -> (r: bool)
        ensures
            r == (*self == *other),
    {
        let mut i: usize = 0;
        while i < 32
            invariant
                i <= 32,
                forall|j: int| 0 <= j < i ==> self.bytes@[j] == other.bytes@[j],
            decreases 32 - i,
        {
            if self.bytes[i] != other.bytes[i] {
                return false;
            }
            i = i + 1;
        }
        proof {
            assert(self.bytes@ =~= other.bytes@);
            assert(self.bytes =~= other.bytes);
        }
        true
    }
}

} // verus!
