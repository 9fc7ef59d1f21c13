//! Owner and caller identities, and the ownership gate.

use vstd::prelude::*;

verus! {

/// The identity of a program or of an account's owner: an opaque byte
/// key, read only for equality. The ledger's keys are thirty-two bytes
/// wide, but nothing here depends on the width.
#[derive(Clone, Debug)]
pub struct Identity {
    pub bytes: Vec<u8>,
}

/// Whether the account's declared owner is the caller: the two keys hold
/// the same bytes.
pub open spec fn owns(account_owner: Identity, caller_identity: Identity) -> bool {
    account_owner.bytes@ == caller_identity.bytes@
}

impl PartialEq for Identity {
    fn eq(&self, other: &Identity) -> (r: bool) {
        let r = self.bytes == other.bytes;
        proof {
            if r {
                assert(self.bytes@ =~= other.bytes@);
            }
        }
        r
    }
}

impl vstd::std_specs::cmp::PartialEqSpecImpl for Identity {
    open spec fn obeys_eq_spec() -> bool {
        true
    }

    open spec fn eq_spec(&self, other: &Identity) -> bool {
        self.bytes@ == other.bytes@
    }
}

impl Default for Identity {
    /// The zero identity: thirty-two zero bytes, the value an unset key
    /// holds on the ledger.
    fn default() -> (r: Identity)
        ensures
            r.bytes@ == Seq::new(32, |i: int| 0u8),
    {
        let mut bytes: Vec<u8> = Vec::new();
        let mut i: usize = 0;
        while i < 32
            invariant
                i <= 32,
                bytes@.len() == i,
                forall|k: int| 0 <= k < i ==> bytes@[k] == 0u8,
            decreases 32 - i,
        {
            bytes.push(0u8);
            i = i + 1;
        }
        proof {
            assert(bytes@ =~= Seq::new(32, |j: int| 0u8));
        }
        Identity { bytes }
    }
}

/// Why access was denied.
#[derive(Clone, Copy, Debug, PartialEq, Eq, Structural)]
pub enum OwnershipError {
    NotOwner,
}

/// The sole access-control gate: succeeds exactly when the account's
/// declared owner is the caller, and fails with `NotOwner` otherwise.
/// It reads nothing else and changes nothing.
pub fn validate(account_owner: &Identity, caller_identity: &Identity) -> (r: Result<
    (),
    OwnershipError,
>)
    ensures
        owns(*account_owner, *caller_identity) ==> r == Ok::<(), OwnershipError>(()),
        !owns(*account_owner, *caller_identity) ==> r == Err::<(), OwnershipError>(
            OwnershipError::NotOwner,
        ),
{
    if account_owner == caller_identity {
        Ok(())
    } else {
        Err(OwnershipError::NotOwner)
    }
}

} // verus!
