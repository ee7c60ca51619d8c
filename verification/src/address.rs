//! Ledger addresses.
//!
//! An address is known here by its key in text form, which names one
//! account or one contract. Nothing is read from the text: two addresses are
//! the same when their texts are.

use vstd::prelude::*;

verus! {

/// A ledger address: its key in text form, 56 characters long.
#[derive(Clone, Copy, Debug, Eq, Hash)]
pub struct Address {
    pub strkey: [u8; 56],
}

impl Address {
    /// The address with the given key.
    pub fn from_strkey(strkey: [u8; 56]) -> (a: Address)
        ensures
            a.strkey == strkey,
    {
        Address { strkey }
    }
}

impl PartialEq for Address {
    fn eq(&self, other: &Self) -> (r: bool) {
        let mut i: usize = 0;
        while i < 56
            invariant
                0 <= i <= 56,
                forall|j: int| 0 <= j < i ==> self.strkey[j] == other.strkey[j],
            decreases 56 - i,
        {
            if self.strkey[i] != other.strkey[i] {
                return false;
            }
            i += 1;
        }
        assert(self.strkey =~= other.strkey);
        true
    }
}

impl vstd::std_specs::cmp::PartialEqSpecImpl for Address {
    open spec fn obeys_eq_spec() -> bool {
        true
    }

    open spec fn eq_spec(&self, other: &Self) -> bool {
        *self == *other
    }
}

} // verus!
