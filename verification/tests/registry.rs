//! Registry management: bootstrap, enrollment gates, admin transfer.

use apro_svm::add_oracle;
use apro_svm::constants::MAX_ORACLES;
use apro_svm::errors::ErrorCode;
use apro_svm::oracle_state::OracleState;
use apro_svm::update_admin;

fn empty_state() -> OracleState {
    OracleState {
        id: 0,
        required_signatures: 0,
        total_oracles: 0,
        admin: [0u8; 32],
        oracles: Vec::new(),
        expiration_period: 0,
    }
}

fn fresh_registry(admin: [u8; 32]) -> OracleState {
    let mut st = empty_state();
    let event = apro_svm::initialize_oracle(&mut st, 7, 2, admin, 3600);
    assert_eq!(event.id, 7);
    assert_eq!(event.required_signatures, 2);
    assert_eq!(event.admin, admin);
    assert_eq!(event.expiration_period, 3600);
    st
}

#[test]
fn initialize_gives_an_empty_registry() {
    let st = fresh_registry([0xAAu8; 32]);
    assert_eq!(st.id, 7);
    assert_eq!(st.required_signatures, 2);
    assert_eq!(st.total_oracles, 0);
    assert_eq!(st.admin, [0xAAu8; 32]);
    assert_eq!(st.expiration_period, 3600);
    assert!(st.oracles.is_empty());
}

#[test]
fn add_oracle_is_not_idempotent() {
    let admin = [0xAAu8; 32];
    let mut st = fresh_registry(admin);
    let addr = [0x01u8; 20];
    let event = add_oracle::handler(&mut st, admin, addr).unwrap();
    assert_eq!(event.oracle, addr);
    assert_eq!(event.total_oracles, 1);
    assert_eq!(st.total_oracles, 1);
    let again = add_oracle::handler(&mut st, admin, addr);
    assert!(matches!(again, Err(ErrorCode::OracleAlreadyExists)));
    assert_eq!(st.total_oracles, 1);
}

#[test]
fn add_oracle_rejects_non_admin() {
    let admin = [0xAAu8; 32];
    let mut st = fresh_registry(admin);
    let result = add_oracle::handler(&mut st, [0xBBu8; 32], [0x01u8; 20]);
    assert!(matches!(result, Err(ErrorCode::UnauthorizedAdmin)));
    assert_eq!(st.total_oracles, 0);
}

#[test]
fn add_oracle_stops_at_capacity() {
    let admin = [0xAAu8; 32];
    let mut st = fresh_registry(admin);
    for i in 0..MAX_ORACLES {
        let addr = [i as u8; 20];
        add_oracle::handler(&mut st, admin, addr).unwrap();
    }
    assert_eq!(st.total_oracles, MAX_ORACLES as u64);
    let result = add_oracle::handler(&mut st, admin, [0xFFu8; 20]);
    assert!(matches!(result, Err(ErrorCode::MaxOraclesReached)));
    assert_eq!(st.total_oracles, MAX_ORACLES as u64);
}

#[test]
fn update_admin_hands_the_gate_over() {
    let admin = [0xAAu8; 32];
    let new_admin = [0xBBu8; 32];
    let mut st = fresh_registry(admin);

    let denied = update_admin::handler(&mut st, [0xCCu8; 32], new_admin);
    assert!(matches!(denied, Err(ErrorCode::UnauthorizedAdmin)));
    assert_eq!(st.admin, admin);

    let event = update_admin::handler(&mut st, admin, new_admin).unwrap();
    assert_eq!(event.old_admin, admin);
    assert_eq!(event.new_admin, new_admin);
    assert_eq!(st.admin, new_admin);

    let stale = add_oracle::handler(&mut st, admin, [0x01u8; 20]);
    assert!(matches!(stale, Err(ErrorCode::UnauthorizedAdmin)));
    let fresh = add_oracle::handler(&mut st, new_admin, [0x01u8; 20]);
    assert!(fresh.is_ok());
}
