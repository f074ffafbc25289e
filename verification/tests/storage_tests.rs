//! Tests of the in-memory storage backend and the outcome types.

use txvm::state::{Receipt, ScriptExecutionResult, StateTransition, StateTransitionRef};
use txvm::state::ProgramState;
use txvm::storage::{DataError, MemoryStorage};
use txvm::tx::Transaction;

#[test]
fn unwritten_slot_reads_zero() {
    let s = MemoryStorage::new();
    assert_eq!(s.read_slot(5), Ok(0));
}

#[test]
fn written_slot_reads_back() {
    let mut s = MemoryStorage::new();
    s.write_slot(5, 9).unwrap();
    s.write_slot(6, 10).unwrap();
    s.write_slot(5, 11).unwrap();
    assert_eq!(s.read_slot(5), Ok(11));
    assert_eq!(s.read_slot(6), Ok(10));
}

#[test]
fn faulty_key_fails_both_ways() {
    let mut s = MemoryStorage::new();
    s.faults = vec![5];
    assert_eq!(s.read_slot(5), Err(DataError));
    assert_eq!(s.write_slot(5, 1), Err(DataError));
    assert_eq!(s.read_slot(6), Ok(0));
}

#[test]
fn code_insert_and_lookup() {
    let mut s = MemoryStorage::new();
    assert!(!s.contains_code(1));
    s.insert_code(1, vec![9, 9]);
    assert!(s.contains_code(1));
    assert!(!s.contains_code(2));
}

#[test]
fn receipt_result_only_on_script_result() {
    let r = Receipt::ScriptResult { result: ScriptExecutionResult::Revert, gas_used: 3 };
    assert_eq!(r.result(), Some(ScriptExecutionResult::Revert));
    assert_eq!(Receipt::Log { ra: 1, rb: 2 }.result(), None);
}

#[test]
fn state_transition_bundles() {
    let tx = Transaction::Upgrade { purpose: 1, funds: 0 };
    let receipts = vec![Receipt::Return { val: 4 }];
    let owned = StateTransition::new(ProgramState::Return(4), tx, receipts);
    assert_eq!(owned.state, ProgramState::Return(4));
    let view = StateTransitionRef::new(ProgramState::Return(4), &owned.tx, &owned.receipts);
    assert_eq!(view.state, owned.state);
    assert_eq!(view.receipts, &owned.receipts);
}
