use vstd::prelude::*;

verus! {

/// The 32-byte identity of an account (a participant, a realm or a signer).
#[derive(Clone, Copy, Debug)]
pub struct AccountKey {
    pub bytes: [u8; 32],
}

impl View for AccountKey {
    type V = Seq<u8>;

    open spec fn view(&self) -> Seq<u8> {
        self.bytes@
    }
}

/// The key whose bytes are all zero: the mark of an empty slot.
pub open spec fn zero_key() -> Seq<u8> {
    Seq::new(32, |i: int| 0u8)
}

impl AccountKey {
    /// The all-zero key, which marks an empty slot.
    pub fn zero() -> (r: AccountKey)
        ensures
            r@ == zero_key(),
    {
        let r = AccountKey { bytes: [0u8; 32] };
        assert(r@ =~= zero_key());
        r
    }

    pub fn new(bytes: [u8; 32]) -> (r: AccountKey)
        ensures
            r@ == bytes@,
    {
        AccountKey { bytes }
    }

    /// Whether two keys name the same account.
    pub fn same_as(&self, other: &AccountKey) -> (r: bool)
        ensures
            r == (self@ == other@),
    {
        let mut i: usize = 0;
        while i < 32
            invariant
                0 <= i <= 32,
                forall|j: int| 0 <= j < i ==> self@[j] == other@[j],
            decreases 32 - i,
        {
            if self.bytes[i] != other.bytes[i] {
                return false;
            }
            i = i + 1;
        }
        assert(self@ =~= other@);
        true
    }
}

impl PartialEq for AccountKey {
    fn eq(&self, other: &AccountKey) -> (r: bool) {
        self.same_as(other)
    }
}

impl vstd::std_specs::cmp::PartialEqSpecImpl for AccountKey {
    open spec fn obeys_eq_spec() -> bool {
        true
    }

    open spec fn eq_spec(&self, other: &AccountKey) -> bool {
        self@ == other@
    }
}

impl Eq for AccountKey {
}

} // verus!
