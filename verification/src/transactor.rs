//! State machine to execute transactions and provide runtime entities
//! on demand: a facade over one [`Interpreter`] that converts checked
//! transactions to ready ones, dispatches execution, and latches
//! exactly one outcome — a program state or an error — per call.

use crate::interpreter::{
    Interpreter, InterpreterParams, GasCosts, spec_transact_script,
};
use crate::state::{
    Backtrace, InterpreterError, PanicReason, ProgramState, Receipt, ScriptExecutionResult,
    StateTransition, StateTransitionRef, clone_receipts, spec_is_failing, spec_receipt_result,
};
use crate::storage::{MemoryStorage, code_contains};
use crate::tx::{
    CheckError, Checked, FeeParameters, Ready, Transaction, conv_err, conv_ok, tx_equiv,
};
use vstd::prelude::*;

verus! {

/// The outcome latched after a call: nothing yet, a successful program
/// state, or an error. Holding the two cases in one variant type makes
/// their mutual exclusion structural.
enum Latched {
    Empty,
    Success(ProgramState),
    Failure(InterpreterError),
}

/// State machine to execute transactions and provide runtime entities
/// on demand. After every `transact`/`deploy`/`upgrade` call exactly
/// one of the latched program state and the latched error is present.
pub struct Transactor {
    interpreter: Interpreter,
    latched: Latched,
}

/// The first failing script result in a receipt log, scanning in
/// execution order.
pub open spec fn spec_first_failing(rs: Seq<Receipt>) -> Option<ScriptExecutionResult>
    decreases rs.len(),
{
    if rs.len() == 0 {
        None
    } else if spec_is_failing(rs[0]) {
        spec_receipt_result(rs[0])
    } else {
        spec_first_failing(rs.drop_first())
    }
}

/// A receipt log holds a first failing result exactly when it holds a
/// failing result at all.
pub proof fn lemma_first_failing_iff_exists(rs: Seq<Receipt>)
    ensures
        (spec_first_failing(rs) is Some) <==> exists|i: int|
            0 <= i < rs.len() && spec_is_failing(rs[i]),
    decreases rs.len(),
{
    if rs.len() == 0 {
    } else if spec_is_failing(rs[0]) {
        assert(spec_is_failing(rs[0]));
    } else {
        lemma_first_failing_iff_exists(rs.drop_first());
        if spec_first_failing(rs) is Some {
            let i = choose|i: int|
                0 <= i < rs.drop_first().len() && spec_is_failing(rs.drop_first()[i]);
            assert(rs.drop_first()[i] == rs[i + 1]);
            assert(spec_is_failing(rs[i + 1]));
        }
        if exists|i: int| 0 <= i < rs.len() && spec_is_failing(rs[i]) {
            let i = choose|i: int| 0 <= i < rs.len() && spec_is_failing(rs[i]);
            assert(i != 0);
            assert(rs.drop_first()[i - 1] == rs[i]);
            assert(spec_is_failing(rs.drop_first()[i - 1]));
        }
    }
}

/// What holds of a transactor after it has executed a ready
/// transaction `t` with gas budget `limit`, starting from the
/// interpreter state `pre`: scripts latch exactly the outcome of
/// [`spec_transact_script`]; creations latch a stop state after
/// deploying, or the deployment error; upgrades latch a stop state
/// after replacing the state root.
pub open spec fn ready_exec_post(pre: Interpreter, post: Transactor, t: Transaction, limit: u64) -> bool {
    match t {
        Transaction::Script { script, .. } => {
            let res = spec_transact_script(
                pre.storage.slots@,
                pre.storage.faults@,
                pre.params.gas_costs,
                script@,
                limit,
            );
            &&& post.latched_state() == Some(res.state)
            &&& post.latched_error() is None
            &&& post.spec_interpreter().receipts@ == res.end.receipts
            &&& post.spec_interpreter().registers@ == res.end.regs
            &&& post.spec_interpreter().memory@ == res.end.mem
            &&& post.spec_interpreter().gas_remaining == res.end.gas
            &&& post.spec_interpreter().gas_limit == limit
            &&& post.spec_interpreter().storage.slots@ == res.end.slots
            &&& post.spec_interpreter().storage.code@ == pre.storage.code@
            &&& post.spec_interpreter().storage.state_root == pre.storage.state_root
            &&& post.spec_interpreter().storage.faults@ == pre.storage.faults@
            &&& tx_equiv(post.spec_interpreter().tx, t)
        },
        Transaction::Create { bytecode, salt, .. } => {
            if code_contains(pre.storage.code@, salt) {
                &&& post.latched_error() == Some(
                    InterpreterError::Panic(PanicReason::ContractIdAlreadyDeployed),
                )
                &&& post.latched_state() is None
                &&& post.spec_interpreter() == pre
            } else {
                &&& post.latched_state() == Some(ProgramState::Stop)
                &&& post.latched_error() is None
                &&& post.spec_interpreter().storage.code@ == seq![(salt, bytecode)]
                    + pre.storage.code@
                &&& post.spec_interpreter().storage.slots@ == pre.storage.slots@
                &&& post.spec_interpreter().storage.state_root == pre.storage.state_root
                &&& post.spec_interpreter().storage.faults@ == pre.storage.faults@
                &&& post.spec_interpreter().receipts@ == Seq::<Receipt>::empty()
                &&& tx_equiv(post.spec_interpreter().tx, t)
            }
        },
        Transaction::Upgrade { purpose, .. } => {
            &&& post.latched_state() == Some(ProgramState::Stop)
            &&& post.latched_error() is None
            &&& post.spec_interpreter().storage.state_root == purpose
            &&& post.spec_interpreter().storage.code@ == pre.storage.code@
            &&& post.spec_interpreter().storage.slots@ == pre.storage.slots@
            &&& post.spec_interpreter().storage.faults@ == pre.storage.faults@
            &&& post.spec_interpreter().receipts@ == Seq::<Receipt>::empty()
            &&& tx_equiv(post.spec_interpreter().tx, t)
        },
    }
}

/// Executing value-equal ready transactions over equal storage
/// snapshots with equal cost tables latches equal outcomes and equal
/// receipt sequences: what a call latches is a function of the
/// transaction, the snapshot, the cost table and the gas budget alone.
pub proof fn lemma_transact_deterministic(
    pre1: Interpreter,
    post1: Transactor,
    pre2: Interpreter,
    post2: Transactor,
    t1: Transaction,
    t2: Transaction,
    limit: u64,
)
    requires
        pre1.storage.slots@ == pre2.storage.slots@,
        pre1.storage.faults@ == pre2.storage.faults@,
        pre1.storage.code@ == pre2.storage.code@,
        pre1.params.gas_costs == pre2.params.gas_costs,
        tx_equiv(t1, t2),
        ready_exec_post(pre1, post1, t1, limit),
        ready_exec_post(pre2, post2, t2, limit),
    ensures
        post1.latched_state() == post2.latched_state(),
        post1.latched_error() == post2.latched_error(),
        post1.latched_state() is Some ==> post1.spec_interpreter().receipts@
            == post2.spec_interpreter().receipts@,
{
}

impl Transactor {
    /// The wrapped interpreter.
    pub closed spec fn spec_interpreter(&self) -> Interpreter {
        self.interpreter
    }

    /// The latched program state, if the last call succeeded.
    pub closed spec fn latched_state(&self) -> Option<ProgramState> {
        match self.latched {
            Latched::Success(s) => Some(s),
            _ => None,
        }
    }

    /// The latched error, if the last call failed.
    pub closed spec fn latched_error(&self) -> Option<InterpreterError> {
        match self.latched {
            Latched::Failure(e) => Some(e),
            _ => None,
        }
    }

    /// Whether any call has latched an outcome yet.
    pub closed spec fn has_outcome(&self) -> bool {
        !(self.latched is Empty)
    }

    /// Well-formedness of the wrapped interpreter.
    pub open spec fn wf(&self) -> bool {
        self.spec_interpreter().wf()
    }

    /// Whether the last call failed or reverted.
    pub open spec fn spec_is_reverted(&self) -> bool {
        self.latched_error() is Some || match self.latched_state() {
            Some(ProgramState::Revert(_)) => true,
            _ => false,
        }
    }

    /// Transactor constructor: owns a fresh interpreter over the given
    /// storage; no outcome is latched yet.
    pub fn new(storage: MemoryStorage, interpreter_params: InterpreterParams) -> (r: Transactor)
        ensures
            r.wf(),
            !r.has_outcome(),
            r.latched_state() is None,
            r.latched_error() is None,
            r.spec_interpreter().storage == storage,
            r.spec_interpreter().params == interpreter_params,
            r.spec_interpreter().receipts@ == Seq::<Receipt>::empty(),
    {
        Transactor {
            interpreter: Interpreter::with_storage(storage, interpreter_params),
            latched: Latched::Empty,
        }
    }

    /// After any `transact`/`deploy`/`upgrade` call, exactly one of the
    /// latched program state and the latched error is present: the two
    /// are held in one variant type, so their mutual exclusion is
    /// structural.
    pub proof fn lemma_outcome_mutual_exclusion(t: &Transactor)
        requires
            t.has_outcome(),
        ensures
            (t.latched_state() is Some) <==> (t.latched_error() is None),
    {
    }

    /// State transition representation after the execution of a
    /// transaction, as a borrowing view.
    ///
    /// `None` if the last call resulted in an error, or if no
    /// transaction was executed.
    pub fn state_transition<'a>(&'a self) -> (r: Option<StateTransitionRef<'a>>)
        ensures
            match r {
                Some(st) => self.latched_state() == Some(st.state) && *st.tx
                    == self.spec_interpreter().tx && st.receipts@
                    == self.spec_interpreter().receipts@,
                None => self.latched_state() is None,
            },
    {
        match &self.latched {
            Latched::Success(s) => Some(
                StateTransitionRef::new(
                    *s,
                    self.interpreter.transaction(),
                    self.interpreter.receipts(),
                ),
            ),
            _ => None,
        }
    }

    /// State transition representation after the execution of a
    /// transaction, as an owned copy of the same data.
    ///
    /// `None` if the last call resulted in an error, or if no
    /// transaction was executed.
    pub fn to_owned_state_transition(&self) -> (r: Option<StateTransition>)
        ensures
            match r {
                Some(st) => self.latched_state() == Some(st.state) && tx_equiv(
                    st.tx,
                    self.spec_interpreter().tx,
                ) && st.receipts@ == self.spec_interpreter().receipts@,
                None => self.latched_state() is None,
            },
    {
        match &self.latched {
            Latched::Success(s) => Some(
                StateTransition::new(
                    *s,
                    self.interpreter.transaction().clone(),
                    clone_receipts(self.interpreter.receipts()),
                ),
            ),
            _ => None,
        }
    }

    /// Interpreter error representation after the execution of a
    /// transaction.
    ///
    /// `None` if the last call was successful, or if no transaction was
    /// executed.
    pub fn error(&self) -> (r: Option<&InterpreterError>)
        ensures
            match r {
                Some(e) => self.latched_error() == Some(*e),
                None => self.latched_error() is None,
            },
    {
        match &self.latched {
            Latched::Failure(e) => Some(e),
            _ => None,
        }
    }

    /// Returns true if the last transaction execution was successful.
    pub fn is_success(&self) -> (r: bool)
        ensures
            r == !self.spec_is_reverted(),
    {
        !self.is_reverted()
    }

    /// Returns true if the last transaction execution failed with an
    /// error or reverted.
    pub fn is_reverted(&self) -> (r: bool)
        ensures
            r == self.spec_is_reverted(),
    {
        match &self.latched {
            Latched::Failure(_) => true,
            Latched::Success(ProgramState::Revert(_)) => true,
            _ => false,
        }
    }

    /// Result representation of the last executed transaction: the
    /// state transition on success, the latched error on failure, and a
    /// no-transaction error if nothing was executed yet. A state in
    /// which both a program state and an error are latched cannot be
    /// represented, so no inconsistent outcome can ever be reported.
    pub fn result<'a>(&'a self) -> (r: Result<StateTransitionRef<'a>, InterpreterError>)
        ensures
            match self.latched_state() {
                Some(s) => match r {
                    Ok(st) => st.state == s && *st.tx == self.spec_interpreter().tx
                        && st.receipts@ == self.spec_interpreter().receipts@,
                    Err(_) => false,
                },
                None => match r {
                    Ok(_) => false,
                    Err(e) => match self.latched_error() {
                        Some(le) => e == le,
                        None => e == InterpreterError::NoTransactionInitialized,
                    },
                },
            },
    {
        match &self.latched {
            Latched::Success(s) => Ok(
                StateTransitionRef::new(
                    *s,
                    self.interpreter.transaction(),
                    self.interpreter.receipts(),
                ),
            ),
            Latched::Failure(e) => Err(*e),
            Latched::Empty => Err(InterpreterError::NoTransactionInitialized),
        }
    }

    /// Gets the interpreter.
    pub fn interpreter(&self) -> (r: &Interpreter)
        ensures
            *r == self.spec_interpreter(),
    {
        &self.interpreter
    }

    /// Gas costs of the instruction set.
    pub fn gas_costs(&self) -> (r: &GasCosts)
        ensures
            *r == self.spec_interpreter().params.gas_costs,
    {
        self.interpreter.gas_costs()
    }

    /// Fee parameters.
    pub fn fee_params(&self) -> (r: &FeeParameters)
        ensures
            *r == self.spec_interpreter().params.fee_params,
    {
        self.interpreter.fee_params()
    }

    /// Sets the gas price applied to future conversions.
    pub fn set_gas_price(&mut self, gas_price: u64)
        ensures
            final (self).spec_interpreter().params == (InterpreterParams {
                gas_price,
                ..old(self).spec_interpreter().params
            }),
            final (self).spec_interpreter().storage == old(self).spec_interpreter().storage,
            final (self).spec_interpreter().registers == old(self).spec_interpreter().registers,
            final (self).spec_interpreter().memory == old(self).spec_interpreter().memory,
            final (self).spec_interpreter().gas_limit == old(self).spec_interpreter().gas_limit,
            final (self).spec_interpreter().gas_remaining == old(
                self,
            ).spec_interpreter().gas_remaining,
            final (self).spec_interpreter().receipts == old(self).spec_interpreter().receipts,
            final (self).spec_interpreter().tx == old(self).spec_interpreter().tx,
            final (self).latched_state() == old(self).latched_state(),
            final (self).latched_error() == old(self).latched_error(),
            final (self).has_outcome() == old(self).has_outcome(),
    {
        self.interpreter.set_gas_price(gas_price);
    }

    /// Transaction memory offset.
    pub fn tx_offset(&self) -> (r: usize)
        ensures
            r == self.spec_interpreter().params.tx_offset,
    {
        self.interpreter.tx_offset()
    }

    /// Receipts after the execution of a transaction; present exactly
    /// when a program state is latched.
    pub fn receipts(&self) -> (r: Option<&Vec<Receipt>>)
        ensures
            match r {
                Some(v) => self.latched_state() is Some && v@
                    == self.spec_interpreter().receipts@,
                None => self.latched_state() is None,
            },
    {
        match &self.latched {
            Latched::Success(_) => Some(self.interpreter.receipts()),
            _ => None,
        }
    }

    /// Generates a backtrace from the interpreter's state and the first
    /// failing script result receipt. Present exactly when a program
    /// state is latched and its receipts contain a failing result;
    /// after a fully successful execution there is nothing to report.
    pub fn backtrace(&self) -> (r: Option<Backtrace>)
        ensures
            match r {
                Some(b) => {
                    &&& self.latched_state() is Some
                    &&& Some(b.result) == spec_first_failing(self.spec_interpreter().receipts@)
                    &&& b.registers@ == self.spec_interpreter().registers@
                    &&& b.gas_remaining == self.spec_interpreter().gas_remaining
                },
                None => self.latched_state() is None || spec_first_failing(
                    self.spec_interpreter().receipts@,
                ) is None,
            },
    {
        let rvec = match self.receipts() {
            Some(v) => v,
            None => {
                return None;
            },
        };
        let ghost all = rvec@;
        let mut i: usize = 0;
        proof {
            assert(all.skip(0) =~= all);
        }
        while i < rvec.len()
            invariant
                i <= all.len(),
                all == rvec@,
                rvec@ == self.spec_interpreter().receipts@,
                self.latched_state() is Some,
                spec_first_failing(all) == spec_first_failing(all.skip(i as int)),
            decreases all.len() - i,
        {
            proof {
                assert(all.skip(i as int)[0] == all[i as int]);
            }
            match rvec[i] {
                Receipt::ScriptResult { result, .. } => {
                    match result {
                        ScriptExecutionResult::Success => {
                            proof {
                                assert(all.skip(i as int).drop_first() =~= all.skip(i + 1));
                            }
                        },
                        _ => {
                            let registers = crate::interpreter::clone_words(
                                &self.interpreter.registers,
                            );
                            return Some(
                                Backtrace {
                                    result,
                                    registers,
                                    gas_remaining: self.interpreter.gas_remaining,
                                },
                            );
                        },
                    }
                },
                _ => {
                    proof {
                        assert(all.skip(i as int).drop_first() =~= all.skip(i + 1));
                    }
                },
            }
            i = i + 1;
        }
        proof {
            assert(all.skip(i as int).len() == 0);
        }
        None
    }

    /// Latches an error, clearing any prior program state.
    fn handle_error(&mut self, error: InterpreterError)
        requires
            old(self).wf(),
        ensures
            final (self).wf(),
            final (self).latched_error() == Some(error),
            final (self).latched_state() is None,
            final (self).has_outcome(),
            final (self).spec_interpreter() == old(self).spec_interpreter(),
    {
        self.latched = Latched::Failure(error);
    }

    /// Executes a transaction and latches the new outcome: converts the
    /// checked transaction with the interpreter's current gas price and
    /// fee parameters, then runs it. On conversion failure the check
    /// error is latched, any prior program state is cleared, and the
    /// interpreter — its storage and receipts included — is left
    /// untouched: no receipt is produced and nothing is written.
    pub fn transact(&mut self, tx: Checked)
        requires
            old(self).wf(),
        ensures
            final (self).wf(),
            final (self).spec_interpreter().params == old(self).spec_interpreter().params,
            final (self).has_outcome(),
            (final (self).latched_state() is Some) <==> (final (self).latched_error() is None),
            ({
                let price = old(self).spec_interpreter().params.gas_price;
                let fp = old(self).spec_interpreter().params.fee_params;
                if conv_ok(tx, price, fp) {
                    ready_exec_post(
                        old(self).spec_interpreter(),
                        *final (self),
                        tx.spec_tx(),
                        tx.spec_metadata().max_gas,
                    )
                } else {
                    &&& final (self).latched_error() == Some(
                        InterpreterError::CheckError(conv_err(tx, price, fp)),
                    )
                    &&& final (self).latched_state() is None
                    &&& final (self).spec_interpreter() == old(self).spec_interpreter()
                }
            }),
    {
        let gas_price = self.interpreter.gas_price();
        let fee_params = *self.interpreter.fee_params();
        match tx.into_ready(gas_price, &fee_params) {
            Ok(ready_tx) => self.transact_ready_tx(ready_tx),
            Err(e) => self.handle_error(InterpreterError::CheckError(e)),
        }
    }

    /// Executes a ready transaction directly, skipping conversion, and
    /// latches the new outcome.
    pub fn transact_ready_tx(&mut self, ready_tx: Ready)
        requires
            old(self).wf(),
        ensures
            final (self).wf(),
            final (self).spec_interpreter().params == old(self).spec_interpreter().params,
            final (self).has_outcome(),
            (final (self).latched_state() is Some) <==> (final (self).latched_error() is None),
            ready_exec_post(
                old(self).spec_interpreter(),
                *final (self),
                ready_tx.spec_tx(),
                ready_tx.spec_max_gas(),
            ),
    {
        match self.interpreter.transact(ready_tx) {
            Ok(s) => {
                self.latched = Latched::Success(s);
            },
            Err(e) => {
                self.latched = Latched::Failure(e);
            },
        }
    }

    /// Deploys a checked creation transaction and latches the outcome,
    /// returning the deployed transaction on success. Fails — latching
    /// the error and leaving the interpreter untouched — if the
    /// transaction is not a creation, if conversion fails, or if the
    /// contract identifier is already deployed.
    pub fn deploy(&mut self, checked: Checked) -> (r: Result<Transaction, InterpreterError>)
        requires
            old(self).wf(),
        ensures
            final (self).wf(),
            final (self).spec_interpreter().params == old(self).spec_interpreter().params,
            final (self).has_outcome(),
            (final (self).latched_state() is Some) <==> (final (self).latched_error() is None),
            ({
                let price = old(self).spec_interpreter().params.gas_price;
                let fp = old(self).spec_interpreter().params.fee_params;
                if !(checked.spec_tx() is Create) {
                    &&& r == Err::<Transaction, InterpreterError>(
                        InterpreterError::CheckError(CheckError::WrongTransactionKind),
                    )
                    &&& final (self).latched_error() == Some(
                        InterpreterError::CheckError(CheckError::WrongTransactionKind),
                    )
                    &&& final (self).spec_interpreter() == old(self).spec_interpreter()
                } else if conv_ok(checked, price, fp) {
                    &&& ready_exec_post(
                        old(self).spec_interpreter(),
                        *final (self),
                        checked.spec_tx(),
                        checked.spec_metadata().max_gas,
                    )
                    &&& match checked.spec_tx() {
                        Transaction::Create { salt, .. } => {
                            if code_contains(old(self).spec_interpreter().storage.code@, salt) {
                                r == Err::<Transaction, InterpreterError>(
                                    InterpreterError::Panic(
                                        PanicReason::ContractIdAlreadyDeployed,
                                    ),
                                )
                            } else {
                                match r {
                                    Ok(t) => tx_equiv(t, checked.spec_tx()),
                                    Err(_) => false,
                                }
                            }
                        },
                        _ => false,
                    }
                } else {
                    &&& r == Err::<Transaction, InterpreterError>(
                        InterpreterError::CheckError(conv_err(checked, price, fp)),
                    )
                    &&& final (self).latched_error() == Some(
                        InterpreterError::CheckError(conv_err(checked, price, fp)),
                    )
                    &&& final (self).spec_interpreter() == old(self).spec_interpreter()
                }
            }),
    {
        let kind_ok = match checked.tx() {
            Transaction::Create { .. } => true,
            _ => false,
        };
        if !kind_ok {
            let e = InterpreterError::CheckError(CheckError::WrongTransactionKind);
            self.handle_error(e);
            return Err(e);
        }
        let gas_price = self.interpreter.gas_price();
        let fee_params = *self.interpreter.fee_params();
        let ready_tx = match checked.into_ready(gas_price, &fee_params) {
            Ok(rd) => rd,
            Err(ce) => {
                let e = InterpreterError::CheckError(ce);
                self.handle_error(e);
                return Err(e);
            },
        };
        self.deploy_ready_tx(ready_tx)
    }

    /// Deploys a ready creation transaction directly, skipping
    /// conversion, and latches the outcome.
    pub fn deploy_ready_tx(&mut self, ready_tx: Ready) -> (r: Result<
        Transaction,
        InterpreterError,
    >)
        requires
            old(self).wf(),
        ensures
            final (self).wf(),
            final (self).spec_interpreter().params == old(self).spec_interpreter().params,
            final (self).has_outcome(),
            (final (self).latched_state() is Some) <==> (final (self).latched_error() is None),
            if !(ready_tx.spec_tx() is Create) {
                &&& r == Err::<Transaction, InterpreterError>(
                    InterpreterError::CheckError(CheckError::WrongTransactionKind),
                )
                &&& final (self).latched_error() == Some(
                    InterpreterError::CheckError(CheckError::WrongTransactionKind),
                )
                &&& final (self).spec_interpreter() == old(self).spec_interpreter()
            } else {
                &&& ready_exec_post(
                    old(self).spec_interpreter(),
                    *final (self),
                    ready_tx.spec_tx(),
                    ready_tx.spec_max_gas(),
                )
                &&& match ready_tx.spec_tx() {
                    Transaction::Create { salt, .. } => {
                        if code_contains(old(self).spec_interpreter().storage.code@, salt) {
                            r == Err::<Transaction, InterpreterError>(
                                InterpreterError::Panic(PanicReason::ContractIdAlreadyDeployed),
                            )
                        } else {
                            match r {
                                Ok(t) => tx_equiv(t, ready_tx.spec_tx()),
                                Err(_) => false,
                            }
                        }
                    },
                    _ => false,
                }
            },
    {
        let kind_ok = match ready_tx.tx() {
            Transaction::Create { .. } => true,
            _ => false,
        };
        if !kind_ok {
            let e = InterpreterError::CheckError(CheckError::WrongTransactionKind);
            self.handle_error(e);
            return Err(e);
        }
        match self.interpreter.transact(ready_tx) {
            Ok(_) => {
                self.latched = Latched::Success(ProgramState::Stop);
                let t = self.interpreter.transaction().clone();
                proof {
                    crate::tx::lemma_tx_equiv_trans(
                        t,
                        self.interpreter.tx,
                        ready_tx.spec_tx(),
                    );
                }
                Ok(t)
            },
            Err(e) => {
                self.latched = Latched::Failure(e);
                Err(e)
            },
        }
    }

    /// Executes a checked upgrade transaction and latches the outcome,
    /// returning the executed transaction on success. Fails — latching
    /// the error and leaving the interpreter untouched — if the
    /// transaction is not an upgrade or if conversion fails.
    pub fn upgrade(&mut self, checked: Checked) -> (r: Result<Transaction, InterpreterError>)
        requires
            old(self).wf(),
        ensures
            final (self).wf(),
            final (self).spec_interpreter().params == old(self).spec_interpreter().params,
            final (self).has_outcome(),
            (final (self).latched_state() is Some) <==> (final (self).latched_error() is None),
            ({
                let price = old(self).spec_interpreter().params.gas_price;
                let fp = old(self).spec_interpreter().params.fee_params;
                if !(checked.spec_tx() is Upgrade) {
                    &&& r == Err::<Transaction, InterpreterError>(
                        InterpreterError::CheckError(CheckError::WrongTransactionKind),
                    )
                    &&& final (self).latched_error() == Some(
                        InterpreterError::CheckError(CheckError::WrongTransactionKind),
                    )
                    &&& final (self).spec_interpreter() == old(self).spec_interpreter()
                } else if conv_ok(checked, price, fp) {
                    &&& ready_exec_post(
                        old(self).spec_interpreter(),
                        *final (self),
                        checked.spec_tx(),
                        checked.spec_metadata().max_gas,
                    )
                    &&& match r {
                        Ok(t) => tx_equiv(t, checked.spec_tx()),
                        Err(_) => false,
                    }
                } else {
                    &&& r == Err::<Transaction, InterpreterError>(
                        InterpreterError::CheckError(conv_err(checked, price, fp)),
                    )
                    &&& final (self).latched_error() == Some(
                        InterpreterError::CheckError(conv_err(checked, price, fp)),
                    )
                    &&& final (self).spec_interpreter() == old(self).spec_interpreter()
                }
            }),
    {
        let kind_ok = match checked.tx() {
            Transaction::Upgrade { .. } => true,
            _ => false,
        };
        if !kind_ok {
            let e = InterpreterError::CheckError(CheckError::WrongTransactionKind);
            self.handle_error(e);
            return Err(e);
        }
        let gas_price = self.interpreter.gas_price();
        let fee_params = *self.interpreter.fee_params();
        let ready_tx = match checked.into_ready(gas_price, &fee_params) {
            Ok(rd) => rd,
            Err(ce) => {
                let e = InterpreterError::CheckError(ce);
                self.handle_error(e);
                return Err(e);
            },
        };
        self.execute_ready_upgrade_tx(ready_tx)
    }

    /// Executes a ready upgrade transaction directly, skipping
    /// conversion, and latches the outcome.
    pub fn execute_ready_upgrade_tx(&mut self, ready_tx: Ready) -> (r: Result<
        Transaction,
        InterpreterError,
    >)
        requires
            old(self).wf(),
        ensures
            final (self).wf(),
            final (self).spec_interpreter().params == old(self).spec_interpreter().params,
            final (self).has_outcome(),
            (final (self).latched_state() is Some) <==> (final (self).latched_error() is None),
            if !(ready_tx.spec_tx() is Upgrade) {
                &&& r == Err::<Transaction, InterpreterError>(
                    InterpreterError::CheckError(CheckError::WrongTransactionKind),
                )
                &&& final (self).latched_error() == Some(
                    InterpreterError::CheckError(CheckError::WrongTransactionKind),
                )
                &&& final (self).spec_interpreter() == old(self).spec_interpreter()
            } else {
                &&& ready_exec_post(
                    old(self).spec_interpreter(),
                    *final (self),
                    ready_tx.spec_tx(),
                    ready_tx.spec_max_gas(),
                )
                &&& match r {
                    Ok(t) => tx_equiv(t, ready_tx.spec_tx()),
                    Err(_) => false,
                }
            },
    {
        let kind_ok = match ready_tx.tx() {
            Transaction::Upgrade { .. } => true,
            _ => false,
        };
        if !kind_ok {
            let e = InterpreterError::CheckError(CheckError::WrongTransactionKind);
            self.handle_error(e);
            return Err(e);
        }
        match self.interpreter.transact(ready_tx) {
            Ok(_) => {
                self.latched = Latched::Success(ProgramState::Stop);
                let t = self.interpreter.transaction().clone();
                proof {
                    crate::tx::lemma_tx_equiv_trans(
                        t,
                        self.interpreter.tx,
                        ready_tx.spec_tx(),
                    );
                }
                Ok(t)
            },
            Err(e) => {
                self.latched = Latched::Failure(e);
                Err(e)
            },
        }
    }
}

} // verus!
