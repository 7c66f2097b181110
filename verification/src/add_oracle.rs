//! Signer enrollment: admin-gated, capacity-bounded, duplicate-free.

use vstd::prelude::*;
use crate::bytes::eq_bytes;
use crate::constants::MAX_ORACLES;
use crate::errors::ErrorCode;
use crate::oracle_state::{contains_address, is_registered, OracleState};

verus! {

/// Emitted when a signer address is enrolled.
pub struct OracleAdded {
    pub oracle: [u8; 20],
    pub total_oracles: u64,
}

/// What one `add_oracle` call returns: the gates in order — authority,
/// capacity, duplicate — and on success the event carrying the new count.
pub open spec fn add_oracle_outcome(st: OracleState, admin: [u8; 32], oracle: [u8; 20]) -> Result<
    OracleAdded,
    ErrorCode,
> {
    if admin@ != st.admin@ {
        Err(ErrorCode::UnauthorizedAdmin)
    } else if st.total_oracles >= MAX_ORACLES {
        Err(ErrorCode::MaxOraclesReached)
    } else if is_registered(st.oracles@, oracle@) {
        Err(ErrorCode::OracleAlreadyExists)
    } else {
        Ok(OracleAdded { oracle, total_oracles: (st.total_oracles + 1) as u64 })
    }
}

/// Enrolls `oracle` if `admin` is the registry's admin, capacity is left and
/// the address is new; otherwise leaves the registry untouched.
pub fn handler(oracle_state: &mut OracleState, admin: [u8; 32], oracle: [u8; 20]) -> (r: Result<
    OracleAdded,
    ErrorCode,
>)
    requires
        old(oracle_state).wf(),
    ensures
        final(oracle_state).wf(),
        r == add_oracle_outcome(*old(oracle_state), admin, oracle),
        r is Ok ==> final(oracle_state).oracles@ == old(oracle_state).oracles@.push(oracle)
            && final(oracle_state).total_oracles == old(oracle_state).total_oracles + 1
            && final(oracle_state).admin == old(oracle_state).admin
            && final(oracle_state).required_signatures == old(oracle_state).required_signatures
            && final(oracle_state).id == old(oracle_state).id
            && final(oracle_state).expiration_period == old(oracle_state).expiration_period,
        r is Err ==> *final(oracle_state) == *old(oracle_state),
{
    if !eq_bytes(&admin, &oracle_state.admin) {
        return Err(ErrorCode::UnauthorizedAdmin);
    }
    if oracle_state.total_oracles >= MAX_ORACLES as u64 {
        return Err(ErrorCode::MaxOraclesReached);
    }
    if contains_address(&oracle_state.oracles, &oracle) {
        return Err(ErrorCode::OracleAlreadyExists);
    }
    oracle_state.add_oracle(oracle);
    Ok(OracleAdded { oracle, total_oracles: oracle_state.total_oracles })
}

/// Enrollment is not idempotent: after a successful add of `oracle` that
/// leaves the capacity unexhausted, adding `oracle` again under the same
/// admin fails with `OracleAlreadyExists`; each success grows the counter by
/// exactly one, and the invariant keeps the signer count within capacity.
pub proof fn lemma_add_oracle_not_idempotent(
    st1: OracleState,
    st2: OracleState,
    admin: [u8; 32],
    oracle: [u8; 20],
)
    requires
        add_oracle_outcome(st1, admin, oracle) is Ok,
        st2.oracles@ == st1.oracles@.push(oracle),
        st2.total_oracles == st1.total_oracles + 1,
        st2.admin@ == st1.admin@,
        st2.total_oracles < MAX_ORACLES,
    ensures
        add_oracle_outcome(st2, admin, oracle) == Err::<OracleAdded, ErrorCode>(
            ErrorCode::OracleAlreadyExists,
        ),
        (add_oracle_outcome(st1, admin, oracle)->Ok_0).total_oracles == st1.total_oracles + 1,
{
    let j = st1.oracles@.len() as int;
    assert(st2.oracles@[j]@ == oracle@);
    assert(is_registered(st2.oracles@, oracle@));
}

} // verus!
