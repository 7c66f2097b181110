//! Registry bootstrap: one empty registry per id.

use vstd::prelude::*;
use crate::oracle_state::OracleState;

verus! {

/// Emitted when a registry is created.
pub struct OracleInitialized {
    pub id: u64,
    pub required_signatures: u64,
    pub admin: [u8; 32],
    pub expiration_period: i64,
}

/// Fills a freshly allocated registry: the given parameters, an empty
/// signer set. That this runs at most once per id is the storage
/// substrate's guarantee, not checked here.
pub fn handler(
    oracle_state: &mut OracleState,
    id: u64,
    required_signatures: u64,
    admin: [u8; 32],
    expiration_period: i64,
) -> (ev: OracleInitialized)
    ensures
        final(oracle_state).id == id,
        final(oracle_state).required_signatures == required_signatures,
        final(oracle_state).total_oracles == 0,
        final(oracle_state).admin == admin,
        final(oracle_state).expiration_period == expiration_period,
        final(oracle_state).oracles@ == Seq::<[u8; 20]>::empty(),
        final(oracle_state).wf(),
        ev == (OracleInitialized { id, required_signatures, admin, expiration_period }),
{
    oracle_state.initialize(id, required_signatures, admin, expiration_period);
    OracleInitialized { id, required_signatures, admin, expiration_period }
}

} // verus!
