//! Admin transfer: gated on the current admin, otherwise unconditional.

use vstd::prelude::*;
use crate::add_oracle::{add_oracle_outcome, OracleAdded};
use crate::bytes::eq_bytes;
use crate::errors::ErrorCode;
use crate::oracle_state::OracleState;

verus! {

/// Emitted when the registry's admin changes hands.
pub struct AdminUpdated {
    pub old_admin: [u8; 32],
    pub new_admin: [u8; 32],
}

/// What one `update_admin` call returns: only the current admin may
/// transfer, and a permitted transfer always goes through.
pub open spec fn update_admin_outcome(
    st: OracleState,
    admin: [u8; 32],
    new_admin: [u8; 32],
) -> Result<AdminUpdated, ErrorCode> {
    if admin@ != st.admin@ {
        Err(ErrorCode::UnauthorizedAdmin)
    } else {
        Ok(AdminUpdated { old_admin: st.admin, new_admin })
    }
}

/// Replaces the registry's admin if `admin` is the current one; otherwise
/// leaves the registry untouched.
pub fn handler(oracle_state: &mut OracleState, admin: [u8; 32], new_admin: [u8; 32]) -> (r: Result<
    AdminUpdated,
    ErrorCode,
>)
    ensures
        r == update_admin_outcome(*old(oracle_state), admin, new_admin),
        r is Ok ==> *final(oracle_state) == (OracleState {
            admin: new_admin,
            ..*old(oracle_state)
        }),
        r is Err ==> *final(oracle_state) == *old(oracle_state),
        old(oracle_state).wf() ==> final(oracle_state).wf(),
{
    if !eq_bytes(&admin, &oracle_state.admin) {
        return Err(ErrorCode::UnauthorizedAdmin);
    }
    let old_admin = oracle_state.admin;
    oracle_state.update_admin(new_admin);
    Ok(AdminUpdated { old_admin, new_admin })
}

/// Admin transfer demands the current admin's authority and succeeds
/// exactly for it; after a transfer, admin-only calls (another transfer, a
/// signer enrollment) fail for every identity but the new admin.
pub proof fn lemma_update_admin_authority(
    st: OracleState,
    admin: [u8; 32],
    new_admin: [u8; 32],
    later: [u8; 32],
    another: [u8; 32],
    oracle: [u8; 20],
)
    ensures
        admin@ != st.admin@ ==> update_admin_outcome(st, admin, new_admin) == Err::<
            AdminUpdated,
            ErrorCode,
        >(ErrorCode::UnauthorizedAdmin),
        admin@ == st.admin@ ==> update_admin_outcome(st, admin, new_admin) == Ok::<
            AdminUpdated,
            ErrorCode,
        >(AdminUpdated { old_admin: st.admin, new_admin }),
        later@ != new_admin@ ==> update_admin_outcome(
            OracleState { admin: new_admin, ..st },
            later,
            another,
        ) == Err::<AdminUpdated, ErrorCode>(ErrorCode::UnauthorizedAdmin),
        later@ != new_admin@ ==> add_oracle_outcome(
            OracleState { admin: new_admin, ..st },
            later,
            oracle,
        ) == Err::<OracleAdded, ErrorCode>(ErrorCode::UnauthorizedAdmin),
{
}

} // verus!
