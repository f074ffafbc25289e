//! Tests of the Checked/Ready validation pipeline and predicate code.

use txvm::tx::{CheckError, FeeParameters, Transaction};
use txvm::PredicateCode;

fn script_tx(script: Vec<u8>, gas_limit: u64, funds: u64) -> Transaction {
    Transaction::Script { script, script_gas_limit: gas_limit, funds }
}

#[test]
fn into_checked_size_exceeded() {
    let tx = script_tx(vec![0u8; 100], 5, 0);
    let r = tx.into_checked(50, 1000);
    assert_eq!(r.unwrap_err(), CheckError::TransactionSizeExceeded);
}

#[test]
fn into_checked_max_gas_exceeded() {
    let tx = script_tx(vec![0u8; 4], 1000, 0);
    let r = tx.into_checked(100, 10);
    assert_eq!(r.unwrap_err(), CheckError::TransactionMaxGasExceeded);
}

#[test]
fn into_checked_metadata() {
    let tx = script_tx(vec![0u8; 8], 7, 0);
    let c = tx.into_checked(100, 100).unwrap();
    let m = c.metadata();
    assert_eq!(m.total_bytes, 32 + 8);
    assert_eq!(m.max_gas, 7);
}

#[test]
fn into_checked_create_gas_from_bytecode() {
    let tx = Transaction::Create { bytecode: vec![1, 2, 3], salt: 1, funds: 0 };
    let c = tx.into_checked(100, 100).unwrap();
    assert_eq!(c.metadata().max_gas, 3);
}

#[test]
fn fee_exact_value() {
    // raw gas cost 7 * 3 = 21; divided by 4 rounding up gives 6; plus
    // base fee 10 gives 16.
    let fp = FeeParameters { base_fee: 10, gas_price_factor: 4 };
    let tx = script_tx(vec![], 7, 16);
    let c = tx.into_checked(100, 100).unwrap();
    let ready = c.into_ready(3, &fp).unwrap();
    assert_eq!(ready.fee(), 16);
}

#[test]
fn fee_insufficient_funds() {
    let fp = FeeParameters { base_fee: 10, gas_price_factor: 4 };
    let tx = script_tx(vec![], 7, 15);
    let c = tx.into_checked(100, 100).unwrap();
    let r = c.into_ready(3, &fp);
    assert_eq!(
        r.unwrap_err(),
        CheckError::InsufficientFeeAmount { expected: 16, provided: 15 }
    );
}

#[test]
fn fee_zero_gas_price_factor() {
    let fp = FeeParameters { base_fee: 0, gas_price_factor: 0 };
    let tx = script_tx(vec![], 7, 100);
    let c = tx.into_checked(100, 100).unwrap();
    assert_eq!(c.into_ready(3, &fp).unwrap_err(), CheckError::ZeroGasPriceFactor);
}

#[test]
fn fee_arithmetic_overflow() {
    let fp = FeeParameters { base_fee: 0, gas_price_factor: 1 };
    let tx = script_tx(vec![], u64::MAX, u64::MAX);
    let c = tx.into_checked(100, u64::MAX).unwrap();
    assert_eq!(c.into_ready(2, &fp).unwrap_err(), CheckError::ArithmeticOverflow);
}

#[test]
fn fee_conversion_idempotent() {
    // Two equal checked values convert to the same fee.
    let fp = FeeParameters { base_fee: 3, gas_price_factor: 7 };
    let mk = || script_tx(vec![9, 9], 13, 1000).into_checked(100, 100).unwrap();
    let f1 = mk().into_ready(5, &fp).unwrap().fee();
    let f2 = mk().into_ready(5, &fp).unwrap().fee();
    assert_eq!(f1, f2);
}

#[test]
fn predicate_code_from_bytes() {
    let p = PredicateCode::from(vec![1u8, 2, 3]);
    assert_eq!(p.bytes, vec![1u8, 2, 3]);
    assert_eq!(p.len(), 3);
}

#[test]
fn predicate_code_value_equality() {
    let a = PredicateCode::from(vec![1u8, 2]);
    let b = PredicateCode::from(vec![1u8, 2]);
    let c = PredicateCode::from(vec![1u8]);
    assert_eq!(a, b);
    assert_ne!(a, c);
    assert_eq!(PredicateCode::default(), PredicateCode::from(vec![]));
}
