//! The identity of a caller or of a certificate's subject.

use vstd::prelude::*;

verus! {

/// An account: thirty-two bytes. Two accounts are the same exactly when
/// their bytes are.
#[derive(Clone, Copy, Debug)]
pub struct AccountId(pub [u8; 32]);

impl PartialEq for AccountId {
    fn eq(&self, other: &AccountId) -> (same: bool) {
        let mut at: usize = 0;
        while at < 32
            invariant
                at <= 32,
                forall|k: int| 0 <= k < at ==> self.0[k] == other.0[k],
            decreases 32 - at,
        {
            if self.0[at] != other.0[at] {
                return false;
            }
            at += 1;
        }
        assert(self.0 =~= other.0);
        true
    }
}

impl Eq for AccountId {

}

impl vstd::std_specs::cmp::PartialEqSpecImpl for AccountId {
    open spec fn obeys_eq_spec() -> bool {
        true
    }

    open spec fn eq_spec(&self, other: &AccountId) -> bool {
        *self == *other
    }
}

impl From<[u8; 32]> for AccountId {
    fn from(bytes: [u8; 32]) -> (account: AccountId) {
        AccountId(bytes)
    }
}

impl vstd::std_specs::convert::FromSpecImpl<[u8; 32]> for AccountId {
    open spec fn obeys_from_spec() -> bool {
        true
    }

    open spec fn from_spec(bytes: [u8; 32]) -> AccountId {
        AccountId(bytes)
    }
}

} // verus!
