//! Transactions and the two-phase validation pipeline that turns a raw
//! transaction into a `Checked` and then a `Ready` value.

use vstd::prelude::*;

verus! {

/// Bytes counted for every transaction besides its bytecode: header,
/// policies and input/output bookkeeping.
pub const TX_BASE_SIZE: u64 = 32;

/// Fee-computation parameters supplied by the caller.
#[derive(Clone, Copy, PartialEq, Eq, Structural, Debug)]
pub struct FeeParameters {
    /// Flat fee charged for every transaction.
    pub base_fee: u64,
    /// Divisor turning `gas * gas_price` into fee units.
    pub gas_price_factor: u64,
}

/// Fee-relevant aggregates computed once during static validation.
#[derive(Clone, Copy, PartialEq, Eq, Structural, Debug)]
pub struct Metadata {
    /// Total encoded size of the transaction in bytes.
    pub total_bytes: u64,
    /// Upper bound on the gas the transaction may consume.
    pub max_gas: u64,
}

/// Validation or fee-computation failure. Raised only before any
/// bytecode executes; the caller can fix the transaction and resubmit.
#[derive(Clone, Copy, PartialEq, Eq, Structural, Debug)]
pub enum CheckError {
    /// The transaction is larger than the consensus size limit.
    TransactionSizeExceeded,
    /// The transaction's maximum gas exceeds the consensus gas limit.
    TransactionMaxGasExceeded,
    /// The fee parameters carry a zero gas price factor.
    ZeroGasPriceFactor,
    /// The fee computation overflowed a machine word.
    ArithmeticOverflow,
    /// The funding inputs cannot cover the computed fee.
    InsufficientFeeAmount {
        /// The fee that would have to be paid.
        expected: u64,
        /// The funds the transaction carries.
        provided: u64,
    },
    /// The transaction kind does not match the requested operation.
    WrongTransactionKind,
}

/// A transaction, polymorphic over what executing it means: scripts run
/// bytecode, creations deploy contract code, upgrades replace the state
/// root.
#[derive(PartialEq, Eq, Debug)]
pub enum Transaction {
    /// Runs script bytecode in the register machine.
    Script {
        /// The script bytecode.
        script: Vec<u8>,
        /// Gas budget for running the script.
        script_gas_limit: u64,
        /// Total funds carried by the transaction's inputs.
        funds: u64,
    },
    /// Deploys contract bytecode under a salted identifier.
    Create {
        /// The contract bytecode to deploy.
        bytecode: Vec<u8>,
        /// Salt determining the contract identifier.
        salt: u64,
        /// Total funds carried by the transaction's inputs.
        funds: u64,
    },
    /// Replaces the stored state root.
    Upgrade {
        /// The new state root to install.
        purpose: u64,
        /// Total funds carried by the transaction's inputs.
        funds: u64,
    },
}

/// Length of the bytecode a transaction carries.
pub open spec fn spec_bytecode_len(t: Transaction) -> int {
    match t {
        Transaction::Script { script, .. } => script@.len() as int,
        Transaction::Create { bytecode, .. } => bytecode@.len() as int,
        Transaction::Upgrade { .. } => 0,
    }
}

/// Total encoded size of a transaction.
pub open spec fn spec_size(t: Transaction) -> int {
    TX_BASE_SIZE + spec_bytecode_len(t)
}

/// Upper bound on the gas a transaction may consume: the declared gas
/// limit for scripts, one unit per bytecode byte for creations, nothing
/// for upgrades.
pub open spec fn spec_max_gas(t: Transaction) -> int {
    match t {
        Transaction::Script { script_gas_limit, .. } => script_gas_limit as int,
        Transaction::Create { bytecode, .. } => bytecode@.len() as int,
        Transaction::Upgrade { .. } => 0,
    }
}

/// The funds carried by a transaction's inputs.
pub open spec fn spec_funds(t: Transaction) -> u64 {
    match t {
        Transaction::Script { funds, .. } => funds,
        Transaction::Create { funds, .. } => funds,
        Transaction::Upgrade { funds, .. } => funds,
    }
}

/// Value equality of transactions: same kind, same fields, same bytes.
pub open spec fn tx_equiv(a: Transaction, b: Transaction) -> bool {
    match (a, b) {
        (
            Transaction::Script { script: s1, script_gas_limit: g1, funds: f1 },
            Transaction::Script { script: s2, script_gas_limit: g2, funds: f2 },
        ) => s1@ == s2@ && g1 == g2 && f1 == f2,
        (
            Transaction::Create { bytecode: b1, salt: t1, funds: f1 },
            Transaction::Create { bytecode: b2, salt: t2, funds: f2 },
        ) => b1@ == b2@ && t1 == t2 && f1 == f2,
        (
            Transaction::Upgrade { purpose: p1, funds: f1 },
            Transaction::Upgrade { purpose: p2, funds: f2 },
        ) => p1 == p2 && f1 == f2,
        _ => false,
    }
}

/// Copies a byte buffer into a fresh vector.
pub fn clone_bytes(v: &Vec<u8>) -> (r: Vec<u8>)
    ensures
        r@ == v@,
{
    let mut out: Vec<u8> = Vec::new();
    let mut i: usize = 0;
    while i < v.len()
        invariant
            i <= v.len(),
            out@ == v@.take(i as int),
        decreases v.len() - i,
    {
        out.push(v[i]);
        i = i + 1;
        proof {
            assert(out@ =~= v@.take(i as int));
        }
    }
    proof {
        assert(v@.take(v.len() as int) =~= v@);
    }
    out
}

impl Clone for Transaction {
    /// A value-equal copy of the transaction.
    fn clone(&self) -> (r: Self)
        ensures
            tx_equiv(r, *self),
    {
        match self {
            Transaction::Script { script, script_gas_limit, funds } => Transaction::Script {
                script: clone_bytes(script),
                script_gas_limit: *script_gas_limit,
                funds: *funds,
            },
            Transaction::Create { bytecode, salt, funds } => Transaction::Create {
                bytecode: clone_bytes(bytecode),
                salt: *salt,
                funds: *funds,
            },
            Transaction::Upgrade { purpose, funds } => Transaction::Upgrade {
                purpose: *purpose,
                funds: *funds,
            },
        }
    }
}

impl Transaction {
    /// The funds carried by this transaction's inputs.
    pub fn funds(&self) -> (f: u64)
        ensures
            f == spec_funds(*self),
    {
        match self {
            Transaction::Script { funds, .. } => *funds,
            Transaction::Create { funds, .. } => *funds,
            Transaction::Upgrade { funds, .. } => *funds,
        }
    }

    /// Statically validates this transaction against consensus limits:
    /// the encoded size must not exceed `max_size` and the maximum gas
    /// must not exceed `max_gas_per_tx`. On success the computed
    /// metadata is attached; the first violated rule is reported
    /// otherwise, size before gas.
    pub fn into_checked(self, max_size: u64, max_gas_per_tx: u64) -> (r: Result<
        Checked,
        CheckError,
    >)
        ensures
            spec_size(self) > max_size ==> r == Err::<Checked, CheckError>(
                CheckError::TransactionSizeExceeded,
            ),
            spec_size(self) <= max_size && spec_max_gas(self) > max_gas_per_tx ==> r == Err::<
                Checked,
                CheckError,
            >(CheckError::TransactionMaxGasExceeded),
            spec_size(self) <= max_size && spec_max_gas(self) <= max_gas_per_tx ==> match r {
                Ok(c) => c.spec_tx() == self && c.spec_metadata() == (Metadata {
                    total_bytes: spec_size(self) as u64,
                    max_gas: spec_max_gas(self) as u64,
                }),
                Err(_) => false,
            },
    {
        let code_len: usize = match &self {
            Transaction::Script { script, .. } => script.len(),
            Transaction::Create { bytecode, .. } => bytecode.len(),
            Transaction::Upgrade { .. } => 0,
        };
        if max_size < TX_BASE_SIZE || code_len as u64 > max_size - TX_BASE_SIZE {
            return Err(CheckError::TransactionSizeExceeded);
        }
        let max_gas: u64 = match &self {
            Transaction::Script { script_gas_limit, .. } => *script_gas_limit,
            Transaction::Create { .. } => code_len as u64,
            Transaction::Upgrade { .. } => 0,
        };
        if max_gas > max_gas_per_tx {
            return Err(CheckError::TransactionMaxGasExceeded);
        }
        let metadata = Metadata { total_bytes: TX_BASE_SIZE + code_len as u64, max_gas };
        Ok(Checked { tx: self, metadata })
    }
}

/// A transaction that passed static validation, together with the
/// metadata computed from it. Never mutated after construction, only
/// consumed.
#[derive(Debug)]
pub struct Checked {
    tx: Transaction,
    metadata: Metadata,
}

impl Checked {
    /// The wrapped transaction.
    pub closed spec fn spec_tx(&self) -> Transaction {
        self.tx
    }

    /// The metadata computed at validation time.
    pub closed spec fn spec_metadata(&self) -> Metadata {
        self.metadata
    }

    /// The metadata of a checked transaction is always consistent with
    /// the wrapped transaction.
    #[verifier::type_invariant]
    pub closed spec fn metadata_consistent(&self) -> bool {
        self.metadata.total_bytes == spec_size(self.tx) && self.metadata.max_gas == spec_max_gas(
            self.tx,
        )
    }

    /// The wrapped transaction.
    pub fn tx(&self) -> (r: &Transaction)
        ensures
            *r == self.spec_tx(),
    {
        &self.tx
    }

    /// The metadata computed at validation time.
    pub fn metadata(&self) -> (r: Metadata)
        ensures
            r == self.spec_metadata(),
    {
        self.metadata
    }

    /// Applies the current gas price and fee parameters, computing the
    /// fee this transaction must pay. Fails if the gas price factor is
    /// zero, if the computation overflows a machine word, or if the
    /// transaction's funds cannot cover the fee; succeeds exactly
    /// otherwise, with the fee pinned to [`spec_fee`].
    ///
    /// Policy: a zero gas budget is not rejected here; it surfaces at
    /// run time as an out-of-gas revert on the first charged
    /// instruction.
    pub fn into_ready(self, gas_price: u64, fee_params: &FeeParameters) -> (r: Result<
        Ready,
        CheckError,
    >)
        ensures
            conv_ok(self, gas_price, *fee_params) ==> match r {
                Ok(ready) => ready.spec_tx() == self.spec_tx() && ready.spec_fee() == spec_fee(
                    self.spec_metadata().max_gas,
                    gas_price,
                    *fee_params,
                ) && ready.spec_max_gas() == self.spec_metadata().max_gas
                    && ready.spec_gas_price() == gas_price,
                Err(_) => false,
            },
            !conv_ok(self, gas_price, *fee_params) ==> r == Err::<Ready, CheckError>(
                conv_err(self, gas_price, *fee_params),
            ),
    {
        if fee_params.gas_price_factor == 0 {
            return Err(CheckError::ZeroGasPriceFactor);
        }
        let max_gas = self.metadata.max_gas;
        let raw = match max_gas.checked_mul(gas_price) {
            Some(x) => x,
            None => {
                return Err(CheckError::ArithmeticOverflow);
            },
        };
        let q = raw / fee_params.gas_price_factor;
        let rem = raw % fee_params.gas_price_factor;
        let bump: u64 = if rem != 0 {
            1
        } else {
            0
        };
        let with_base = match fee_params.base_fee.checked_add(q) {
            Some(x) => x,
            None => {
                return Err(CheckError::ArithmeticOverflow);
            },
        };
        let fee = match with_base.checked_add(bump) {
            Some(x) => x,
            None => {
                return Err(CheckError::ArithmeticOverflow);
            },
        };
        let provided = self.tx.funds();
        if provided < fee {
            return Err(CheckError::InsufficientFeeAmount { expected: fee, provided });
        }
        Ok(Ready { checked: self, fee, gas_price })
    }
}

/// Ceiling division for non-negative operands.
pub open spec fn spec_ceil_div(a: int, b: int) -> int {
    a / b + if a % b == 0 {
        0int
    } else {
        1int
    }
}

/// The fee charged for a transaction: the flat base fee plus the gas
/// cost `max_gas * gas_price`, converted to fee units by dividing by
/// the gas price factor, rounded up.
pub open spec fn spec_fee(max_gas: u64, gas_price: u64, fp: FeeParameters) -> int {
    fp.base_fee + spec_ceil_div(max_gas * gas_price, fp.gas_price_factor as int)
}

/// Whether converting a checked transaction with these parameters
/// succeeds: the gas price factor is non-zero, the fee computation fits
/// in a machine word, and the funds cover the fee.
pub open spec fn conv_ok(c: Checked, gas_price: u64, fp: FeeParameters) -> bool {
    &&& fp.gas_price_factor != 0
    &&& c.spec_metadata().max_gas * gas_price <= u64::MAX
    &&& spec_fee(c.spec_metadata().max_gas, gas_price, fp) <= u64::MAX
    &&& spec_funds(c.spec_tx()) >= spec_fee(c.spec_metadata().max_gas, gas_price, fp)
}

/// The error reported when converting a checked transaction fails,
/// first violated rule first.
pub open spec fn conv_err(c: Checked, gas_price: u64, fp: FeeParameters) -> CheckError {
    if fp.gas_price_factor == 0 {
        CheckError::ZeroGasPriceFactor
    } else if c.spec_metadata().max_gas * gas_price > u64::MAX || spec_fee(
        c.spec_metadata().max_gas,
        gas_price,
        fp,
    ) > u64::MAX {
        CheckError::ArithmeticOverflow
    } else {
        CheckError::InsufficientFeeAmount {
            expected: spec_fee(c.spec_metadata().max_gas, gas_price, fp) as u64,
            provided: spec_funds(c.spec_tx()),
        }
    }
}

/// A checked transaction with its computed fee: immediately executable,
/// consumed by execution.
#[derive(Debug)]
pub struct Ready {
    checked: Checked,
    fee: u64,
    gas_price: u64,
}

impl Ready {
    /// The wrapped transaction.
    pub closed spec fn spec_tx(&self) -> Transaction {
        self.checked.spec_tx()
    }

    /// The fee computed at conversion time.
    pub closed spec fn spec_fee(&self) -> u64 {
        self.fee
    }

    /// The gas price the fee was computed with.
    pub closed spec fn spec_gas_price(&self) -> u64 {
        self.gas_price
    }

    /// The gas budget of the wrapped transaction.
    pub closed spec fn spec_max_gas(&self) -> u64 {
        self.checked.spec_metadata().max_gas
    }

    /// The fee computed at conversion time.
    pub fn fee(&self) -> (f: u64)
        ensures
            f == self.spec_fee(),
    {
        self.fee
    }

    /// The gas budget of the wrapped transaction.
    pub fn max_gas(&self) -> (g: u64)
        ensures
            g == self.spec_max_gas(),
    {
        proof {
            use_type_invariant(&self.checked);
        }
        self.checked.metadata.max_gas
    }

    /// The wrapped transaction.
    pub fn tx(&self) -> (r: &Transaction)
        ensures
            *r == self.spec_tx(),
    {
        &self.checked.tx
    }

    /// Consumes the ready transaction, handing the wrapped transaction
    /// to the interpreter.
    pub fn into_tx(self) -> (r: Transaction)
        ensures
            r == self.spec_tx(),
    {
        self.checked.tx
    }
}

/// Transaction value equality is transitive.
pub proof fn lemma_tx_equiv_trans(a: Transaction, b: Transaction, c: Transaction)
    requires
        tx_equiv(a, b),
        tx_equiv(b, c),
    ensures
        tx_equiv(a, c),
{
}

/// Converting the same checked transaction twice with identical
/// parameters computes identical fees: the fee is a function of the
/// metadata, the gas price and the fee parameters alone.
pub proof fn lemma_fee_idempotent(c1: Checked, c2: Checked, gas_price: u64, fp: FeeParameters)
    requires
        c1.spec_metadata() == c2.spec_metadata(),
        spec_funds(c1.spec_tx()) == spec_funds(c2.spec_tx()),
    ensures
        conv_ok(c1, gas_price, fp) == conv_ok(c2, gas_price, fp),
        spec_fee(c1.spec_metadata().max_gas, gas_price, fp) == spec_fee(
            c2.spec_metadata().max_gas,
            gas_price,
            fp,
        ),
        conv_err(c1, gas_price, fp) == conv_err(c2, gas_price, fp),
{
}

} // verus!

