//! A deterministic, gas-metered bytecode execution engine for
//! blockchain-style transactions.
//!
//! A raw [`tx::Transaction`] is validated into a [`tx::Checked`] value,
//! priced into a [`tx::Ready`] value, and then executed by the
//! [`interpreter::Interpreter`] under the control of the
//! [`transactor::Transactor`] facade, which latches exactly one outcome
//! (a program state or an error) per call.

pub mod interpreter;
pub mod predicate;
pub mod state;
pub mod storage;
pub mod transactor;
pub mod tx;

pub use predicate::PredicateCode;
pub use transactor::Transactor;
