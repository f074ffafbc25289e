//! Execution outcomes: program states, receipts, errors, state
//! transitions and backtraces.

use crate::tx::{CheckError, Transaction};
use vstd::prelude::*;

verus! {

/// A runtime fault that terminates the current execution immediately.
#[derive(Clone, Copy, PartialEq, Eq, Structural, Debug, Hash)]
pub enum PanicReason {
    /// The remaining gas budget cannot pay for the next instruction.
    OutOfGas,
    /// The instruction pointer left the bytecode without reaching a
    /// terminating instruction.
    InstructionPointerOverflow,
    /// The next four bytes do not decode to a valid instruction.
    InvalidInstruction,
    /// An arithmetic operation overflowed a machine word.
    ArithmeticOverflow,
    /// A memory access fell outside the linear memory.
    MemoryOverflow,
    /// The storage backend reported an error for the accessed key.
    StorageError,
    /// A contract with the same identifier is already deployed.
    ContractIdAlreadyDeployed,
}

/// The reason code carried by the `Revert` program state of a panicked
/// execution.
pub open spec fn spec_reason_code(r: PanicReason) -> u64 {
    match r {
        PanicReason::OutOfGas => 1,
        PanicReason::InstructionPointerOverflow => 2,
        PanicReason::InvalidInstruction => 3,
        PanicReason::ArithmeticOverflow => 4,
        PanicReason::MemoryOverflow => 5,
        PanicReason::StorageError => 6,
        PanicReason::ContractIdAlreadyDeployed => 7,
    }
}

/// Executable form of [`spec_reason_code`].
pub fn reason_code(r: PanicReason) -> (c: u64)
    ensures
        c == spec_reason_code(r),
{
    match r {
        PanicReason::OutOfGas => 1,
        PanicReason::InstructionPointerOverflow => 2,
        PanicReason::InvalidInstruction => 3,
        PanicReason::ArithmeticOverflow => 4,
        PanicReason::MemoryOverflow => 5,
        PanicReason::StorageError => 6,
        PanicReason::ContractIdAlreadyDeployed => 7,
    }
}

/// Tagged outcome of one execution. Exactly one variant holds per
/// execution.
#[derive(Clone, Copy, PartialEq, Eq, Structural, Debug)]
pub enum ProgramState {
    /// Normal completion with a return value.
    Return(u64),
    /// Explicit abort with a reason code.
    Revert(u64),
    /// Implementation-defined halt with no return value.
    Stop,
}

/// Summary result recorded by the final receipt of a script execution.
#[derive(Clone, Copy, PartialEq, Eq, Structural, Debug)]
pub enum ScriptExecutionResult {
    /// The script returned or stopped normally.
    Success,
    /// The script executed an explicit revert instruction.
    Revert,
    /// The script was terminated by a runtime panic.
    Panic,
}

/// One immutable, ordered log entry describing an observable execution
/// event. Receipts accumulate in execution order.
#[derive(Clone, Copy, PartialEq, Eq, Structural, Debug)]
pub enum Receipt {
    /// A terminating return instruction was executed.
    Return {
        /// The returned value.
        val: u64,
    },
    /// A terminating revert instruction was executed.
    Revert {
        /// The revert reason code.
        code: u64,
    },
    /// A log instruction recorded two register values.
    Log {
        /// First logged value.
        ra: u64,
        /// Second logged value.
        rb: u64,
    },
    /// A runtime panic terminated the execution.
    Panic {
        /// The cause of the panic.
        reason: PanicReason,
    },
    /// Final summary of a script execution.
    ScriptResult {
        /// How the script ended.
        result: ScriptExecutionResult,
        /// Total gas charged for the execution.
        gas_used: u64,
    },
}

/// The script result carried by a receipt, if it carries one.
pub open spec fn spec_receipt_result(r: Receipt) -> Option<ScriptExecutionResult> {
    match r {
        Receipt::ScriptResult { result, .. } => Some(result),
        _ => None,
    }
}

/// Whether a receipt records a failing script result.
pub open spec fn spec_is_failing(r: Receipt) -> bool {
    match r {
        Receipt::ScriptResult { result, .. } => result != ScriptExecutionResult::Success,
        _ => false,
    }
}

impl Receipt {
    /// The script result carried by this receipt, if any.
    pub fn result(&self) -> (r: Option<ScriptExecutionResult>)
        ensures
            r == spec_receipt_result(*self),
    {
        match self {
            Receipt::ScriptResult { result, .. } => Some(*result),
            _ => None,
        }
    }
}

/// Errors reported by the execution pipeline. Exactly one error exists
/// per failed call, mutually exclusive with a latched program state.
#[derive(Clone, Copy, PartialEq, Eq, Structural, Debug)]
pub enum InterpreterError {
    /// Validation or fee computation failed; no bytecode was executed.
    CheckError(CheckError),
    /// A runtime fault was reported outside a script execution.
    Panic(PanicReason),
    /// No transaction was executed yet, or the latched outcome was
    /// inconsistent.
    NoTransactionInitialized,
}

/// Copies a receipt log into a fresh vector.
pub fn clone_receipts(v: &Vec<Receipt>) -> (r: Vec<Receipt>)
    ensures
        r@ == v@,
{
    let mut out: Vec<Receipt> = Vec::new();
    let mut i: usize = 0;
    while i < v.len()
        invariant
            i <= v.len(),
            out@ == v@.take(i as int),
        decreases v.len() - i,
    {
        out.push(v[i]);
        i = i + 1;
        proof {
            assert(out@ =~= v@.take(i as int));
        }
    }
    proof {
        assert(v@.take(v.len() as int) =~= v@);
    }
    out
}

/// Owned read-only bundle of one successful execution: the final program
/// state, the executed transaction, and the receipts it produced.
#[derive(Debug)]
pub struct StateTransition {
    /// The final program state.
    pub state: ProgramState,
    /// The executed transaction.
    pub tx: Transaction,
    /// The receipts produced, in execution order.
    pub receipts: Vec<Receipt>,
}

impl StateTransition {
    /// Bundles an execution outcome.
    pub fn new(state: ProgramState, tx: Transaction, receipts: Vec<Receipt>) -> (r: Self)
        ensures
            r.state == state,
            r.tx == tx,
            r.receipts == receipts,
    {
        StateTransition { state, tx, receipts }
    }
}

/// Borrowing view of one successful execution; exposes the same data as
/// [`StateTransition`] without owning the transaction or receipts.
#[derive(Debug)]
pub struct StateTransitionRef<'a> {
    /// The final program state.
    pub state: ProgramState,
    /// The executed transaction.
    pub tx: &'a Transaction,
    /// The receipts produced, in execution order.
    pub receipts: &'a Vec<Receipt>,
}

impl<'a> StateTransitionRef<'a> {
    /// Bundles an execution outcome by reference.
    pub fn new(state: ProgramState, tx: &'a Transaction, receipts: &'a Vec<Receipt>) -> (r: Self)
        ensures
            r.state == state,
            r.tx == tx,
            r.receipts == receipts,
    {
        StateTransitionRef { state, tx, receipts }
    }
}

/// Diagnostic reconstruction of interpreter state at the point of a
/// failing receipt. Exists only when at least one receipt carries a
/// failing result.
#[derive(Debug)]
pub struct Backtrace {
    /// The first failing script result found in the receipt log.
    pub result: ScriptExecutionResult,
    /// The interpreter's register file at the time of inspection.
    pub registers: Vec<u64>,
    /// The interpreter's remaining gas at the time of inspection.
    pub gas_remaining: u64,
}

} // verus!
