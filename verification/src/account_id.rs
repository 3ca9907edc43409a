use vstd::prelude::*;

verus! {

broadcast use vstd::array::array_len_matches_n;

/// A 32-byte identity: an owner's signing identity, a token mint, a derived
/// custody authority, or the address of a stored record.
#[derive(Clone, Copy, Debug, PartialEq, Eq)]
pub struct AccountId {
    pub bytes: [u8; 32],
}

/// The all-zero identity. A lock record whose `owner` is this value has never
/// been written: it marks an unprovisioned record, since no party can sign for
/// the all-zero identity.
pub open spec fn unset_id() -> Seq<u8> {
    Seq::new(32, |i: int| 0u8)
}

impl View for AccountId {
    type V = Seq<u8>;

    open spec fn view(&self) -> Seq<u8> {
        self.bytes@
    }
}

impl AccountId {
    pub fn new(bytes: [u8; 32]) -> (r: AccountId)
        ensures
            r@ == bytes@,
    {
        AccountId { bytes }
    }

    /// Byte-for-byte equality of two identities.
    pub fn eq_id(&self, other: &AccountId) -> (r: bool)
        ensures
            r == (self@ == other@),
    {
        let mut i: usize = 0;
        while i < 32
            invariant
                0 <= i <= 32,
                forall|j: int| 0 <= j < i ==> self.bytes@[j] == other.bytes@[j],
            decreases 32 - i,
        {
            if self.bytes[i] != other.bytes[i] {
                return false;
            }
            i = i + 1;
        }
        proof {
            assert(self@ =~= other@);
        }
        true
    }

    /// Whether this is the all-zero identity that marks an unprovisioned record.
    pub fn is_unset(&self) -> (r: bool)
        ensures
            r == (self@ == unset_id()),
    {
        let mut i: usize = 0;
        while i < 32
            invariant
                0 <= i <= 32,
                forall|j: int| 0 <= j < i ==> self.bytes@[j] == 0u8,
            decreases 32 - i,
        {
            if self.bytes[i] != 0 {
                proof {
                    assert(self@[i as int] != unset_id()[i as int]);
                }
                return false;
            }
            i = i + 1;
        }
        proof {
            assert(self@ =~= unset_id());
        }
        true
    }
}

} // verus!
