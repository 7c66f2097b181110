//! The registry: signer set, quorum threshold and admin identity.

use vstd::prelude::*;
use crate::bytes::eq_bytes;
use crate::constants::MAX_ORACLES;

verus! {

/// Whether `addr` is one of the registered signer addresses.
pub open spec fn is_registered(oracles: Seq<[u8; 20]>, addr: Seq<u8>) -> bool {
    exists|j: int| 0 <= j < oracles.len() && oracles[j]@ == addr
}

/// Whether `addr` occurs in the signer list.
pub fn contains_address(oracles: &Vec<[u8; 20]>, addr: &[u8; 20]) -> (r: bool)
    ensures
        r == is_registered(oracles@, addr@),
{
    let mut j: usize = 0;
    while j < oracles.len()
        invariant
            j <= oracles@.len(),
            forall|k: int| 0 <= k < j ==> oracles@[k]@ != addr@,
        decreases oracles@.len() - j,
    {
        if eq_bytes(&oracles[j], addr) {
            return true;
        }
        j = j + 1;
    }
    false
}

/// One registry deployment: the authorized signer set, the quorum threshold
/// and the admin allowed to mutate it. Identities are 32-byte account keys;
/// signers are 20-byte derived addresses.
pub struct OracleState {
    pub id: u64,
    pub required_signatures: u64,
    pub total_oracles: u64,
    pub admin: [u8; 32],
    pub oracles: Vec<[u8; 20]>,
    pub expiration_period: i64,
}

impl OracleState {
    /// The registry's standing invariant: the counter mirrors the list, no
    /// address appears twice, and the capacity is respected. The quorum
    /// threshold is deliberately not related to the signer count: a registry
    /// may demand more signatures than it has signers.
    pub open spec fn wf(self) -> bool {
        &&& self.total_oracles == self.oracles@.len()
        &&& self.oracles@.len() <= MAX_ORACLES
        &&& forall|i: int, j: int|
            0 <= i < j < self.oracles@.len() ==> self.oracles@[i]@ != self.oracles@[j]@
    }

    /// Resets every field, giving a registry with an empty signer set.
    pub fn initialize(
        &mut self,
        id: u64,
        required_signatures: u64,
        admin: [u8; 32],
        expiration_period: i64,
    )
        ensures
            final(self).id == id,
            final(self).required_signatures == required_signatures,
            final(self).total_oracles == 0,
            final(self).admin == admin,
            final(self).expiration_period == expiration_period,
            final(self).oracles@ =~= Seq::<[u8; 20]>::empty(),
            final(self).wf(),
    {
        self.id = id;
        self.required_signatures = required_signatures;
        self.total_oracles = 0;
        self.admin = admin;
        self.expiration_period = expiration_period;
        self.oracles = Vec::new();
    }

    /// Appends a signer address and bumps the counter. The authority,
    /// capacity and duplicate gates are the caller's; this method only
    /// demands what keeps the invariant.
    pub fn add_oracle(&mut self, oracle: [u8; 20])
        requires
            old(self).wf(),
            old(self).oracles@.len() < MAX_ORACLES,
            !is_registered(old(self).oracles@, oracle@),
        ensures
            final(self).oracles@ == old(self).oracles@.push(oracle),
            final(self).total_oracles == old(self).total_oracles + 1,
            final(self).id == old(self).id,
            final(self).required_signatures == old(self).required_signatures,
            final(self).admin == old(self).admin,
            final(self).expiration_period == old(self).expiration_period,
            final(self).wf(),
    {
        self.oracles.push(oracle);
        self.total_oracles = self.total_oracles + 1;
        proof {
            assert forall|i: int, j: int|
                0 <= i < j < self.oracles@.len() implies self.oracles@[i]@ != self.oracles@[j]@ by {
                if j == self.oracles@.len() - 1 {
                    assert(self.oracles@[j] == oracle);
                    assert(!is_registered(old(self).oracles@, oracle@));
                    assert(old(self).oracles@[i]@ != oracle@);
                }
            }
        }
    }

    /// Replaces the admin unconditionally; the authority gate is the
    /// caller's.
    pub fn update_admin(&mut self, new_admin: [u8; 32])
        ensures
            *final(self) == (OracleState { admin: new_admin, ..*old(self) }),
    {
        self.admin = new_admin;
    }
}

} // verus!
