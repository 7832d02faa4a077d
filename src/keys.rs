use vstd::prelude::*;

verus! {

/// A 32-byte account identity.
#[derive(Debug, Clone, Copy, PartialEq, Eq)]
pub struct Pubkey {
    pub bytes: [u8; 32],
}

impl View for Pubkey {
    type V = Seq<u8>;

    open spec fn view(&self) -> Seq<u8> {
        self.bytes@
    }
}

impl Pubkey {
    /// The all-zero identity, used as the "absent" sentinel for an optional feed.
    pub fn zero() -> (r: Pubkey)
        ensures
            r@ == Seq::new(32, |i: int| 0u8),
    {
        let r = Pubkey { bytes: [0u8; 32] };
        assert(r@ =~= Seq::new(32, |i: int| 0u8));
        r
    }

    pub fn new(bytes: [u8; 32]) -> (r: Pubkey)
        ensures
            r@ == bytes@,
    {
        Pubkey { bytes }
    }

    /// Whether this is the all-zero sentinel.
    pub fn is_zero(&self) -> (r: bool)
        ensures
            r == (self@ == Seq::new(32, |i: int| 0u8)),
    {
        let mut i: usize = 0;
        while i < 32
            invariant
                i <= 32,
                self@.len() == 32,
                forall|j: int| 0 <= j < i ==> self@[j] == 0u8,
            decreases 32 - i,
        {
            if self.bytes[i] != 0 {
                assert(self@[i as int] != Seq::new(32, |i: int| 0u8)[i as int]);
                return false;
            }
            i = i + 1;
        }
        assert(self@ =~= Seq::new(32, |i: int| 0u8));
        true
    }

    /// Whether two identities hold the same bytes.
    pub fn same(&self, other: &Pubkey) -> (r: bool)
        ensures
            r == (self@ == other@),
    {
        let mut i: usize = 0;
        while i < 32
            invariant
                i <= 32,
                self@.len() == 32,
                other@.len() == 32,
                forall|j: int| 0 <= j < i ==> self@[j] == other@[j],
            decreases 32 - i,
        {
            if self.bytes[i] != other.bytes[i] {
                return false;
            }
            i = i + 1;
        }
        assert(self@ =~= other@);
        true
    }
}

} // verus!
