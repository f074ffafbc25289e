//! Tests of the transactor facade: outcome latching, execution,
//! deployment, upgrade and backtraces.

use txvm::interpreter::{GasCosts, InterpreterParams};
use txvm::state::{
    InterpreterError, PanicReason, ProgramState, Receipt, ScriptExecutionResult,
};
use txvm::storage::MemoryStorage;
use txvm::tx::{CheckError, Checked, FeeParameters, Transaction};
use txvm::Transactor;

const MAX_SIZE: u64 = 10_000;
const MAX_GAS: u64 = 1_000_000;

fn params() -> InterpreterParams {
    InterpreterParams {
        gas_price: 0,
        gas_costs: GasCosts::unit(),
        fee_params: FeeParameters { base_fee: 0, gas_price_factor: 1 },
        tx_offset: 0,
    }
}

fn transactor() -> Transactor {
    Transactor::new(MemoryStorage::new(), params())
}

fn checked_script(script: Vec<u8>, gas_limit: u64, funds: u64) -> Checked {
    Transaction::Script { script, script_gas_limit: gas_limit, funds }
        .into_checked(MAX_SIZE, MAX_GAS)
        .unwrap()
}

/// A script that immediately returns the value of register zero.
fn ret_zero() -> Vec<u8> {
    vec![0, 0, 0, 0]
}

#[test]
fn script_return_zero_succeeds() {
    let mut t = transactor();
    t.transact(checked_script(ret_zero(), 10, 100));
    assert!(t.is_success());
    assert!(!t.is_reverted());
    assert!(t.error().is_none());
    let st = t.state_transition().unwrap();
    assert_eq!(st.state, ProgramState::Return(0));
    let owned = t.to_owned_state_transition().unwrap();
    assert_eq!(owned.state, ProgramState::Return(0));
    assert_eq!(
        owned.receipts,
        vec![
            Receipt::Return { val: 0 },
            Receipt::ScriptResult { result: ScriptExecutionResult::Success, gas_used: 1 },
        ]
    );
}

#[test]
fn zero_gas_limit_reverts_at_runtime() {
    // Policy: a zero gas budget passes Ready conversion and the first
    // instruction's charge fails, producing a runtime out-of-gas
    // revert, not a check error.
    let mut t = transactor();
    t.transact(checked_script(ret_zero(), 0, 100));
    assert!(t.is_reverted());
    assert!(t.error().is_none());
    let st = t.state_transition().unwrap();
    assert_eq!(st.state, ProgramState::Revert(1));
    assert!(st
        .receipts
        .contains(&Receipt::Panic { reason: PanicReason::OutOfGas }));
}

#[test]
fn error_cleared_by_next_success() {
    let mut t = Transactor::new(
        MemoryStorage::new(),
        InterpreterParams {
            gas_price: 1,
            gas_costs: GasCosts::unit(),
            fee_params: FeeParameters { base_fee: 10, gas_price_factor: 1 },
            tx_offset: 0,
        },
    );
    // Underfunded: fee is 10 + 10 * 1 = 20, funds only 5.
    t.transact(checked_script(ret_zero(), 10, 5));
    assert!(t.is_reverted());
    assert!(t.error().is_some());
    assert!(t.state_transition().is_none());
    // A funded transaction clears the prior error.
    t.transact(checked_script(ret_zero(), 10, 100));
    assert!(t.error().is_none());
    assert!(t.state_transition().is_some());
}

#[test]
fn exactly_one_outcome_after_each_call() {
    let mut t = transactor();
    let calls: Vec<Checked> = vec![
        checked_script(ret_zero(), 10, 100),
        checked_script(vec![255, 0, 0, 0], 10, 100),
        Transaction::Create { bytecode: vec![1], salt: 4, funds: 100 }
            .into_checked(MAX_SIZE, MAX_GAS)
            .unwrap(),
        Transaction::Create { bytecode: vec![1], salt: 4, funds: 100 }
            .into_checked(MAX_SIZE, MAX_GAS)
            .unwrap(),
        Transaction::Upgrade { purpose: 3, funds: 100 }
            .into_checked(MAX_SIZE, MAX_GAS)
            .unwrap(),
    ];
    for c in calls {
        let kind = match c.tx() {
            Transaction::Script { .. } => 0,
            Transaction::Create { .. } => 1,
            Transaction::Upgrade { .. } => 2,
        };
        match kind {
            0 => t.transact(c),
            1 => {
                let _ = t.deploy(c);
            }
            _ => {
                let _ = t.upgrade(c);
            }
        }
        let state_some = t.state_transition().is_some();
        let error_some = t.error().is_some();
        assert!(state_some != error_some);
    }
}

#[test]
fn identical_inputs_give_identical_outcomes() {
    // MOVI r1 <- 3; SRW r2 <- slot keyed by r1; LOG r2 r1; RET r2.
    let script = vec![3, 1, 0, 3, 9, 2, 1, 0, 5, 2, 1, 0, 0, 2, 0, 0];
    let run = || {
        let mut storage = MemoryStorage::new();
        storage.slots = vec![(3, 42)];
        let mut t = Transactor::new(storage, params());
        t.transact(checked_script(script.clone(), 100, 100));
        let st = t.to_owned_state_transition().unwrap();
        (st.state, st.receipts)
    };
    let (s1, r1) = run();
    let (s2, r2) = run();
    assert_eq!(s1, s2);
    assert_eq!(r1, r2);
    assert_eq!(s1, ProgramState::Return(42));
}

#[test]
fn failed_conversion_leaves_no_trace() {
    // First a successful run, so the interpreter holds receipts; then
    // an underfunded transaction: its check error must leave the
    // storage and the receipt log exactly as they were.
    let mut t = Transactor::new(
        MemoryStorage::new(),
        InterpreterParams {
            gas_price: 1,
            gas_costs: GasCosts::unit(),
            fee_params: FeeParameters { base_fee: 0, gas_price_factor: 1 },
            tx_offset: 0,
        },
    );
    // MOVI r1 <- 9; MOVI r2 <- 5; SWW slot r1 <- r2; RET r0.
    let script = vec![3, 1, 0, 9, 3, 2, 0, 5, 8, 1, 2, 0, 0, 0, 0, 0];
    t.transact(checked_script(script, 100, 200));
    assert!(t.is_success());
    let receipts_before = t.interpreter().receipts().clone();
    let slots_before = t.interpreter().storage.slots.clone();
    t.transact(checked_script(ret_zero(), 10, 0));
    assert!(matches!(
        t.error(),
        Some(InterpreterError::CheckError(CheckError::InsufficientFeeAmount { .. }))
    ));
    assert_eq!(t.interpreter().receipts(), &receipts_before);
    assert_eq!(t.interpreter().storage.slots, slots_before);
    // And no receipts are reported while an error is latched.
    assert!(t.receipts().is_none());
}

#[test]
fn backtrace_present_exactly_on_failure() {
    let mut t = transactor();
    // Success: no failing receipt, no backtrace.
    t.transact(checked_script(ret_zero(), 10, 100));
    assert!(t.backtrace().is_none());
    // MOVI r1 <- 7; RVRT r1: a failing receipt, so a backtrace.
    t.transact(checked_script(vec![3, 1, 0, 7, 1, 1, 0, 0], 10, 100));
    assert!(t.is_reverted());
    let bt = t.backtrace().unwrap();
    assert_eq!(bt.result, ScriptExecutionResult::Revert);
    assert_eq!(bt.registers, t.interpreter().registers);
    // A latched error exposes no receipts, hence no backtrace.
    let mut t2 = Transactor::new(
        MemoryStorage::new(),
        InterpreterParams {
            gas_price: 1,
            gas_costs: GasCosts::unit(),
            fee_params: FeeParameters { base_fee: 10, gas_price_factor: 1 },
            tx_offset: 0,
        },
    );
    t2.transact(checked_script(ret_zero(), 10, 0));
    assert!(t2.error().is_some());
    assert!(t2.backtrace().is_none());
}

#[test]
fn deploy_stores_code_and_latches_stop() {
    let mut t = transactor();
    let c = Transaction::Create { bytecode: vec![7, 7], salt: 9, funds: 100 }
        .into_checked(MAX_SIZE, MAX_GAS)
        .unwrap();
    let out = t.deploy(c).unwrap();
    assert_eq!(out, Transaction::Create { bytecode: vec![7, 7], salt: 9, funds: 100 });
    assert!(t.is_success());
    assert_eq!(t.state_transition().unwrap().state, ProgramState::Stop);
    assert!(t.interpreter().storage.contains_code(9));
}

#[test]
fn deploy_duplicate_id_fails() {
    let mut t = transactor();
    let mk = || {
        Transaction::Create { bytecode: vec![7], salt: 9, funds: 100 }
            .into_checked(MAX_SIZE, MAX_GAS)
            .unwrap()
    };
    t.deploy(mk()).unwrap();
    let r = t.deploy(mk());
    assert_eq!(
        r.unwrap_err(),
        InterpreterError::Panic(PanicReason::ContractIdAlreadyDeployed)
    );
    assert!(t.is_reverted());
    assert!(t.error().is_some());
    assert!(t.state_transition().is_none());
}

#[test]
fn deploy_wrong_kind_fails() {
    let mut t = transactor();
    let r = t.deploy(checked_script(ret_zero(), 10, 100));
    assert_eq!(
        r.unwrap_err(),
        InterpreterError::CheckError(CheckError::WrongTransactionKind)
    );
}

#[test]
fn upgrade_replaces_state_root() {
    let mut t = transactor();
    let c = Transaction::Upgrade { purpose: 77, funds: 100 }
        .into_checked(MAX_SIZE, MAX_GAS)
        .unwrap();
    let out = t.upgrade(c).unwrap();
    assert_eq!(out, Transaction::Upgrade { purpose: 77, funds: 100 });
    assert!(t.is_success());
    assert_eq!(t.interpreter().storage.state_root, 77);
}

#[test]
fn upgrade_wrong_kind_fails() {
    let mut t = transactor();
    let c = Transaction::Create { bytecode: vec![1], salt: 2, funds: 100 }
        .into_checked(MAX_SIZE, MAX_GAS)
        .unwrap();
    let r = t.upgrade(c);
    assert_eq!(
        r.unwrap_err(),
        InterpreterError::CheckError(CheckError::WrongTransactionKind)
    );
}

#[test]
fn result_before_any_call() {
    let t = transactor();
    let r = t.result();
    assert_eq!(r.unwrap_err(), InterpreterError::NoTransactionInitialized);
}

#[test]
fn transact_ready_tx_directly() {
    let mut t = transactor();
    let ready = checked_script(ret_zero(), 10, 100)
        .into_ready(0, &FeeParameters { base_fee: 0, gas_price_factor: 1 })
        .unwrap();
    t.transact_ready_tx(ready);
    assert!(t.is_success());
    assert_eq!(t.state_transition().unwrap().state, ProgramState::Return(0));
}

#[test]
fn storage_fault_panics_execution() {
    let mut storage = MemoryStorage::new();
    storage.faults = vec![3];
    let mut t = Transactor::new(storage, params());
    // MOVI r1 <- 3; SRW r2 <- slot keyed by r1.
    let script = vec![3, 1, 0, 3, 9, 2, 1, 0];
    t.transact(checked_script(script, 100, 100));
    assert!(t.is_reverted());
    assert!(t.error().is_none());
    assert_eq!(t.state_transition().unwrap().state, ProgramState::Revert(6));
    assert!(t
        .receipts()
        .unwrap()
        .contains(&Receipt::Panic { reason: PanicReason::StorageError }));
}

#[test]
fn memory_roundtrip() {
    // MOVI r1 <- 200; MOVI r2 <- 77; SB mem[r1] <- r2; LB r3 <- mem[r1];
    // RET r3.
    let script = vec![3, 1, 0, 200, 3, 2, 0, 77, 6, 1, 2, 0, 7, 3, 1, 0, 0, 3, 0, 0];
    let mut t = transactor();
    t.transact(checked_script(script, 100, 100));
    assert_eq!(t.state_transition().unwrap().state, ProgramState::Return(77));
}

#[test]
fn memory_out_of_bounds_reverts() {
    // MOVI r1 <- 300 (beyond the 256 bytes of memory); SB mem[r1] <- r0.
    let script = vec![3, 1, 1, 44, 6, 1, 0, 0];
    let mut t = transactor();
    t.transact(checked_script(script, 100, 100));
    assert_eq!(t.state_transition().unwrap().state, ProgramState::Revert(5));
}

#[test]
fn add_overflow_reverts() {
    // MOVI r1 <- 2, then double r1 sixty-four times: the sum leaves the
    // machine word range and panics.
    let mut script = vec![3, 1, 0, 2];
    for _ in 0..64 {
        script.extend_from_slice(&[4, 1, 1, 1]);
    }
    let mut t = transactor();
    t.transact(checked_script(script, 1000, 1000));
    assert_eq!(t.state_transition().unwrap().state, ProgramState::Revert(4));
    assert!(t
        .receipts()
        .unwrap()
        .contains(&Receipt::Panic { reason: PanicReason::ArithmeticOverflow }));
}

#[test]
fn invalid_opcode_reverts() {
    let mut t = transactor();
    t.transact(checked_script(vec![255, 0, 0, 0], 10, 100));
    assert_eq!(t.state_transition().unwrap().state, ProgramState::Revert(3));
}

#[test]
fn empty_script_reverts() {
    let mut t = transactor();
    t.transact(checked_script(vec![], 10, 100));
    assert_eq!(t.state_transition().unwrap().state, ProgramState::Revert(2));
    assert!(t
        .receipts()
        .unwrap()
        .contains(&Receipt::Panic { reason: PanicReason::InstructionPointerOverflow }));
}

#[test]
fn receipts_accumulate_in_order() {
    // MOVI r1 <- 5; LOG r1 r0; MOVI r1 <- 6; LOG r1 r0; RET r0.
    let script = vec![3, 1, 0, 5, 5, 1, 0, 0, 3, 1, 0, 6, 5, 1, 0, 0, 0, 0, 0, 0];
    let mut t = transactor();
    t.transact(checked_script(script, 100, 100));
    assert_eq!(
        t.receipts().unwrap(),
        &vec![
            Receipt::Log { ra: 5, rb: 0 },
            Receipt::Log { ra: 6, rb: 0 },
            Receipt::Return { val: 0 },
            Receipt::ScriptResult { result: ScriptExecutionResult::Success, gas_used: 5 },
        ]
    );
}

#[test]
fn gas_charges_stay_within_budget() {
    // Two instructions at one gas unit each.
    let script = vec![3, 1, 0, 5, 0, 1, 0, 0];
    let mut t = transactor();
    t.transact(checked_script(script, 10, 100));
    assert_eq!(t.state_transition().unwrap().state, ProgramState::Return(5));
    let i = t.interpreter();
    assert_eq!(i.gas_limit, 10);
    assert_eq!(i.gas_remaining, 8);
    assert!(i.gas_limit - i.gas_remaining <= i.gas_limit);
    // And the final receipt agrees.
    assert!(t.receipts().unwrap().contains(&Receipt::ScriptResult {
        result: ScriptExecutionResult::Success,
        gas_used: 2,
    }));
}

#[test]
fn storage_write_persists() {
    // MOVI r1 <- 9; MOVI r2 <- 42; SWW slot r1 <- r2; RET r0.
    let script = vec![3, 1, 0, 9, 3, 2, 0, 42, 8, 1, 2, 0, 0, 0, 0, 0];
    let mut t = transactor();
    t.transact(checked_script(script, 100, 100));
    assert!(t.is_success());
    assert_eq!(t.interpreter().storage.read_slot(9), Ok(42));
}

#[test]
fn set_gas_price_changes_conversion() {
    let mut t = transactor();
    t.transact(checked_script(ret_zero(), 10, 0));
    assert!(t.is_success(), "a zero gas price charges no fee");
    t.set_gas_price(10);
    t.transact(checked_script(ret_zero(), 10, 0));
    assert!(matches!(
        t.error(),
        Some(InterpreterError::CheckError(CheckError::InsufficientFeeAmount { .. }))
    ));
}

#[test]
fn owned_and_borrowed_views_agree() {
    let mut t = transactor();
    t.transact(checked_script(ret_zero(), 10, 100));
    let owned = t.to_owned_state_transition().unwrap();
    let view = t.state_transition().unwrap();
    assert_eq!(owned.state, view.state);
    assert_eq!(&owned.tx, view.tx);
    assert_eq!(&owned.receipts, view.receipts);
}

#[test]
fn deploy_ready_tx_directly() {
    let mut t = transactor();
    let ready = Transaction::Create { bytecode: vec![5], salt: 3, funds: 100 }
        .into_checked(MAX_SIZE, MAX_GAS)
        .unwrap()
        .into_ready(0, &FeeParameters { base_fee: 0, gas_price_factor: 1 })
        .unwrap();
    assert_eq!(ready.max_gas(), 1, "one gas unit per bytecode byte");
    let out = t.deploy_ready_tx(ready).unwrap();
    assert_eq!(out, Transaction::Create { bytecode: vec![5], salt: 3, funds: 100 });
    assert!(t.interpreter().storage.contains_code(3));
}

#[test]
fn execute_ready_upgrade_tx_directly() {
    let mut t = transactor();
    let ready = Transaction::Upgrade { purpose: 12, funds: 100 }
        .into_checked(MAX_SIZE, MAX_GAS)
        .unwrap()
        .into_ready(0, &FeeParameters { base_fee: 0, gas_price_factor: 1 })
        .unwrap();
    t.execute_ready_upgrade_tx(ready).unwrap();
    assert_eq!(t.interpreter().storage.state_root, 12);
    assert_eq!(t.state_transition().unwrap().state, ProgramState::Stop);
}

#[test]
fn configuration_accessors() {
    let t = transactor();
    assert_eq!(t.gas_costs().ret, 1);
    assert_eq!(t.fee_params().gas_price_factor, 1);
    assert_eq!(t.tx_offset(), 0);
    assert_eq!(t.interpreter().gas_price(), 0);
}
