use vstd::prelude::*;

verus! {

/// One component of a real-valued quantity (a matrix entry, a translation
/// coordinate, a depth), carried through the pipeline as the 32-bit encoding
/// the host hands over. The pipeline never does arithmetic on components; it
/// only copies them and orders depths, so the encoding is held as plain bits.
#[derive(Clone, Copy, PartialEq, Eq, Structural, Debug, Hash)]
pub struct Scalar {
    pub bits: u32,
}

impl Scalar {
    /// Total order on encoded depths: encodings with the top bit clear sort
    /// above those with it set, each half ordered by the remaining bits, the
    /// lower half reversed. For the host's encoding of real numbers this
    /// agrees with the numeric order wherever that order is defined.
    pub open spec fn sort_key_spec(self) -> int {
        if self.bits < 0x8000_0000 {
            self.bits as int
        } else {
            0x8000_0000 - self.bits as int
        }
    }

    /// The same order key, computed.
    pub fn sort_key(self) -> (k: i64)
        ensures
            k as int == self.sort_key_spec(),
    {
        if self.bits < 0x8000_0000u32 {
            self.bits as i64
        } else {
            0x8000_0000i64 - (self.bits as i64)
        }
    }
}

} // verus!
