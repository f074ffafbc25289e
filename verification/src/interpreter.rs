//! The register machine: instruction decoding, the gas-metered
//! execution loop, and its operational specification.
//!
//! The specification [`spec_run`] is a function of the starting machine
//! state, the bytecode, the cost table and the gas limit alone; the
//! executable loop is proved to return exactly its result, which makes
//! every execution deterministic by construction.

use crate::state::{
    PanicReason, ProgramState, Receipt, ScriptExecutionResult, reason_code, spec_reason_code,
};
use crate::state::InterpreterError;
use crate::storage::{MemoryStorage, code_contains, slot_value};
use crate::tx::{FeeParameters, Ready, Transaction, clone_bytes, tx_equiv};
use vstd::prelude::*;

verus! {

/// Number of general-purpose registers.
pub const REG_COUNT: usize = 16;

/// Bytes of linear memory available to a script.
pub const MEM_SIZE: usize = 256;

/// Per-operation gas cost table, supplied by the caller and treated as
/// immutable for the duration of a call.
#[derive(Clone, Copy, PartialEq, Eq, Structural, Debug)]
pub struct GasCosts {
    /// Cost of a return instruction.
    pub ret: u64,
    /// Cost of a revert instruction.
    pub rvrt: u64,
    /// Cost of a stop instruction.
    pub stop: u64,
    /// Cost of loading an immediate into a register.
    pub movi: u64,
    /// Cost of an addition.
    pub add: u64,
    /// Cost of logging two registers.
    pub log: u64,
    /// Cost of storing a byte to memory.
    pub sb: u64,
    /// Cost of loading a byte from memory.
    pub lb: u64,
    /// Cost of writing a storage slot.
    pub sww: u64,
    /// Cost of reading a storage slot.
    pub srw: u64,
}

impl GasCosts {
    /// A cost table charging one gas unit per instruction.
    pub fn unit() -> (r: GasCosts)
        ensures
            r == (GasCosts {
                ret: 1u64,
                rvrt: 1u64,
                stop: 1u64,
                movi: 1u64,
                add: 1u64,
                log: 1u64,
                sb: 1u64,
                lb: 1u64,
                sww: 1u64,
                srw: 1u64,
            }),
    {
        GasCosts {
            ret: 1,
            rvrt: 1,
            stop: 1,
            movi: 1,
            add: 1,
            log: 1,
            sb: 1,
            lb: 1,
            sww: 1,
            srw: 1,
        }
    }
}

/// Configuration an interpreter is constructed with.
#[derive(Clone, Copy, PartialEq, Eq, Structural, Debug)]
pub struct InterpreterParams {
    /// The gas price applied when converting checked transactions.
    pub gas_price: u64,
    /// The per-operation cost table.
    pub gas_costs: GasCosts,
    /// The fee computation parameters.
    pub fee_params: FeeParameters,
    /// Offset of the transaction section in the VM's memory layout.
    pub tx_offset: usize,
}

/// One decoded instruction. Register operands are already checked to
/// name one of the [`REG_COUNT`] registers.
#[derive(Clone, Copy, PartialEq, Eq, Structural, Debug)]
pub enum Instr {
    /// Terminate returning the value of register `a`.
    Ret {
        /// Source register.
        a: usize,
    },
    /// Terminate reverting with the value of register `a` as code.
    Rvrt {
        /// Source register.
        a: usize,
    },
    /// Terminate with no return value.
    Stop,
    /// Load a 16-bit immediate into register `a`.
    Movi {
        /// Destination register.
        a: usize,
        /// The immediate value.
        imm: u64,
    },
    /// `a := b + c`, panicking on overflow.
    Add {
        /// Destination register.
        a: usize,
        /// First operand register.
        b: usize,
        /// Second operand register.
        c: usize,
    },
    /// Append a receipt logging registers `a` and `b`.
    Log {
        /// First logged register.
        a: usize,
        /// Second logged register.
        b: usize,
    },
    /// Store the low byte of register `b` at memory address `a`.
    Sb {
        /// Register holding the address.
        a: usize,
        /// Register holding the value.
        b: usize,
    },
    /// Load the byte at memory address `b` into register `a`.
    Lb {
        /// Destination register.
        a: usize,
        /// Register holding the address.
        b: usize,
    },
    /// Write register `b` to the storage slot keyed by register `a`.
    Sww {
        /// Register holding the slot key.
        a: usize,
        /// Register holding the value.
        b: usize,
    },
    /// Read the storage slot keyed by register `b` into register `a`.
    Srw {
        /// Destination register.
        a: usize,
        /// Register holding the slot key.
        b: usize,
    },
}

/// Decodes the four bytes at `ip`: an opcode byte and three operand
/// bytes. Register operands must be below [`REG_COUNT`]; anything else
/// fails to decode.
pub open spec fn spec_decode(code: Seq<u8>, ip: int) -> Option<Instr>
    recommends
        0 <= ip,
        ip + 4 <= code.len(),
{
    let op = code[ip];
    let a = code[ip + 1];
    let b = code[ip + 2];
    let c = code[ip + 3];
    if op == 0 {
        if a < 16 {
            Some(Instr::Ret { a: a as usize })
        } else {
            None
        }
    } else if op == 1 {
        if a < 16 {
            Some(Instr::Rvrt { a: a as usize })
        } else {
            None
        }
    } else if op == 2 {
        Some(Instr::Stop)
    } else if op == 3 {
        if a < 16 {
            Some(Instr::Movi { a: a as usize, imm: (b as int * 256 + c as int) as u64 })
        } else {
            None
        }
    } else if op == 4 {
        if a < 16 && b < 16 && c < 16 {
            Some(Instr::Add { a: a as usize, b: b as usize, c: c as usize })
        } else {
            None
        }
    } else if op == 5 {
        if a < 16 && b < 16 {
            Some(Instr::Log { a: a as usize, b: b as usize })
        } else {
            None
        }
    } else if op == 6 {
        if a < 16 && b < 16 {
            Some(Instr::Sb { a: a as usize, b: b as usize })
        } else {
            None
        }
    } else if op == 7 {
        if a < 16 && b < 16 {
            Some(Instr::Lb { a: a as usize, b: b as usize })
        } else {
            None
        }
    } else if op == 8 {
        if a < 16 && b < 16 {
            Some(Instr::Sww { a: a as usize, b: b as usize })
        } else {
            None
        }
    } else if op == 9 {
        if a < 16 && b < 16 {
            Some(Instr::Srw { a: a as usize, b: b as usize })
        } else {
            None
        }
    } else {
        None
    }
}

/// Executable form of [`spec_decode`].
pub fn decode(code: &Vec<u8>, ip: usize) -> (r: Option<Instr>)
    requires
        ip + 4 <= code@.len(),
    ensures
        r == spec_decode(code@, ip as int),
{
    let n = code.len();
    assert(ip + 4 <= n);
    let op = code[ip];
    let a = code[ip + 1];
    let b = code[ip + 2];
    let c = code[ip + 3];
    if op == 0 {
        if a < 16 {
            Some(Instr::Ret { a: a as usize })
        } else {
            None
        }
    } else if op == 1 {
        if a < 16 {
            Some(Instr::Rvrt { a: a as usize })
        } else {
            None
        }
    } else if op == 2 {
        Some(Instr::Stop)
    } else if op == 3 {
        if a < 16 {
            Some(Instr::Movi { a: a as usize, imm: b as u64 * 256 + c as u64 })
        } else {
            None
        }
    } else if op == 4 {
        if a < 16 && b < 16 && c < 16 {
            Some(Instr::Add { a: a as usize, b: b as usize, c: c as usize })
        } else {
            None
        }
    } else if op == 5 {
        if a < 16 && b < 16 {
            Some(Instr::Log { a: a as usize, b: b as usize })
        } else {
            None
        }
    } else if op == 6 {
        if a < 16 && b < 16 {
            Some(Instr::Sb { a: a as usize, b: b as usize })
        } else {
            None
        }
    } else if op == 7 {
        if a < 16 && b < 16 {
            Some(Instr::Lb { a: a as usize, b: b as usize })
        } else {
            None
        }
    } else if op == 8 {
        if a < 16 && b < 16 {
            Some(Instr::Sww { a: a as usize, b: b as usize })
        } else {
            None
        }
    } else if op == 9 {
        if a < 16 && b < 16 {
            Some(Instr::Srw { a: a as usize, b: b as usize })
        } else {
            None
        }
    } else {
        None
    }
}

/// The gas an instruction charges under a cost table.
pub open spec fn spec_cost(costs: GasCosts, i: Instr) -> u64 {
    match i {
        Instr::Ret { .. } => costs.ret,
        Instr::Rvrt { .. } => costs.rvrt,
        Instr::Stop => costs.stop,
        Instr::Movi { .. } => costs.movi,
        Instr::Add { .. } => costs.add,
        Instr::Log { .. } => costs.log,
        Instr::Sb { .. } => costs.sb,
        Instr::Lb { .. } => costs.lb,
        Instr::Sww { .. } => costs.sww,
        Instr::Srw { .. } => costs.srw,
    }
}

/// Executable form of [`spec_cost`].
pub fn instr_cost(costs: &GasCosts, i: &Instr) -> (c: u64)
    ensures
        c == spec_cost(*costs, *i),
{
    match i {
        Instr::Ret { .. } => costs.ret,
        Instr::Rvrt { .. } => costs.rvrt,
        Instr::Stop => costs.stop,
        Instr::Movi { .. } => costs.movi,
        Instr::Add { .. } => costs.add,
        Instr::Log { .. } => costs.log,
        Instr::Sb { .. } => costs.sb,
        Instr::Lb { .. } => costs.lb,
        Instr::Sww { .. } => costs.sww,
        Instr::Srw { .. } => costs.srw,
    }
}

/// The machine state the execution loop steps through: instruction
/// pointer, registers, memory, remaining gas, storage slots, the faulty
/// keys, and the receipts produced so far.
#[verifier::ext_equal]
pub ghost struct RunState {
    /// The instruction pointer, in bytes.
    pub ip: int,
    /// The register file.
    pub regs: Seq<u64>,
    /// The linear memory.
    pub mem: Seq<u8>,
    /// Gas remaining out of the transaction's budget.
    pub gas: u64,
    /// The storage backend's state slots.
    pub slots: Seq<(u64, u64)>,
    /// The storage backend's faulty keys.
    pub faults: Seq<u64>,
    /// The receipts produced so far, in execution order.
    pub receipts: Seq<Receipt>,
}

/// The outcome of running a script: the final program state and the
/// machine state at termination.
#[verifier::ext_equal]
pub ghost struct RunResult {
    /// The tagged outcome.
    pub state: ProgramState,
    /// The machine state when execution ended.
    pub end: RunState,
}

/// Total gas charged so far out of a budget.
pub open spec fn spec_gas_used(limit: u64, gas: u64) -> u64
    recommends
        gas <= limit,
{
    (limit - gas) as u64
}

/// The result of a runtime panic: execution terminates immediately, the
/// panic and a failing script result are recorded as receipts, and the
/// outcome is a revert tagged with the panic's reason code.
pub open spec fn spec_panic_result(s: RunState, reason: PanicReason, limit: u64) -> RunResult {
    RunResult {
        state: ProgramState::Revert(spec_reason_code(reason)),
        end: RunState {
            receipts: s.receipts + seq![
                Receipt::Panic { reason },
                Receipt::ScriptResult {
                    result: ScriptExecutionResult::Panic,
                    gas_used: spec_gas_used(limit, s.gas),
                },
            ],
            ..s
        },
    }
}

/// One execution of a script to completion: decode the instruction at
/// the instruction pointer, charge its gas, perform its effect, and
/// continue until a terminating instruction or a panic. Running past
/// the end of the bytecode, an undecodable instruction, an exhausted
/// gas budget, arithmetic overflow, an out-of-bounds memory access and
/// a faulty storage key are all panics.
pub open spec fn spec_run(s: RunState, code: Seq<u8>, costs: GasCosts, limit: u64) -> RunResult
    decreases code.len() - s.ip,
{
    if s.ip < 0 || s.ip + 4 > code.len() {
        spec_panic_result(s, PanicReason::InstructionPointerOverflow, limit)
    } else {
        match spec_decode(code, s.ip) {
            None => spec_panic_result(s, PanicReason::InvalidInstruction, limit),
            Some(instr) => {
                let cost = spec_cost(costs, instr);
                if cost > s.gas {
                    spec_panic_result(s, PanicReason::OutOfGas, limit)
                } else {
                    let s1 = RunState { gas: (s.gas - cost) as u64, ..s };
                    match instr {
                        Instr::Ret { a } => {
                            let v = s1.regs[a as int];
                            RunResult {
                                state: ProgramState::Return(v),
                                end: RunState {
                                    receipts: s1.receipts + seq![
                                        Receipt::Return { val: v },
                                        Receipt::ScriptResult {
                                            result: ScriptExecutionResult::Success,
                                            gas_used: spec_gas_used(limit, s1.gas),
                                        },
                                    ],
                                    ..s1
                                },
                            }
                        },
                        Instr::Rvrt { a } => {
                            let v = s1.regs[a as int];
                            RunResult {
                                state: ProgramState::Revert(v),
                                end: RunState {
                                    receipts: s1.receipts + seq![
                                        Receipt::Revert { code: v },
                                        Receipt::ScriptResult {
                                            result: ScriptExecutionResult::Revert,
                                            gas_used: spec_gas_used(limit, s1.gas),
                                        },
                                    ],
                                    ..s1
                                },
                            }
                        },
                        Instr::Stop => RunResult {
                            state: ProgramState::Stop,
                            end: RunState {
                                receipts: s1.receipts + seq![
                                    Receipt::ScriptResult {
                                        result: ScriptExecutionResult::Success,
                                        gas_used: spec_gas_used(limit, s1.gas),
                                    },
                                ],
                                ..s1
                            },
                        },
                        Instr::Movi { a, imm } => spec_run(
                            RunState { ip: s1.ip + 4, regs: s1.regs.update(a as int, imm), ..s1 },
                            code,
                            costs,
                            limit,
                        ),
                        Instr::Add { a, b, c } => {
                            let x = s1.regs[b as int];
                            let y = s1.regs[c as int];
                            if x + y > u64::MAX {
                                spec_panic_result(s1, PanicReason::ArithmeticOverflow, limit)
                            } else {
                                spec_run(
                                    RunState {
                                        ip: s1.ip + 4,
                                        regs: s1.regs.update(a as int, (x + y) as u64),
                                        ..s1
                                    },
                                    code,
                                    costs,
                                    limit,
                                )
                            }
                        },
                        Instr::Log { a, b } => spec_run(
                            RunState {
                                ip: s1.ip + 4,
                                receipts: s1.receipts.push(
                                    Receipt::Log { ra: s1.regs[a as int], rb: s1.regs[b as int] },
                                ),
                                ..s1
                            },
                            code,
                            costs,
                            limit,
                        ),
                        Instr::Sb { a, b } => {
                            let addr = s1.regs[a as int];
                            if addr >= MEM_SIZE as u64 {
                                spec_panic_result(s1, PanicReason::MemoryOverflow, limit)
                            } else {
                                spec_run(
                                    RunState {
                                        ip: s1.ip + 4,
                                        mem: s1.mem.update(
                                            addr as int,
                                            (s1.regs[b as int] % 256) as u8,
                                        ),
                                        ..s1
                                    },
                                    code,
                                    costs,
                                    limit,
                                )
                            }
                        },
                        Instr::Lb { a, b } => {
                            let addr = s1.regs[b as int];
                            if addr >= MEM_SIZE as u64 {
                                spec_panic_result(s1, PanicReason::MemoryOverflow, limit)
                            } else {
                                spec_run(
                                    RunState {
                                        ip: s1.ip + 4,
                                        regs: s1.regs.update(a as int, s1.mem[addr as int] as u64),
                                        ..s1
                                    },
                                    code,
                                    costs,
                                    limit,
                                )
                            }
                        },
                        Instr::Sww { a, b } => {
                            let key = s1.regs[a as int];
                            if s1.faults.contains(key) {
                                spec_panic_result(s1, PanicReason::StorageError, limit)
                            } else {
                                spec_run(
                                    RunState {
                                        ip: s1.ip + 4,
                                        slots: seq![(key, s1.regs[b as int])] + s1.slots,
                                        ..s1
                                    },
                                    code,
                                    costs,
                                    limit,
                                )
                            }
                        },
                        Instr::Srw { a, b } => {
                            let key = s1.regs[b as int];
                            if s1.faults.contains(key) {
                                spec_panic_result(s1, PanicReason::StorageError, limit)
                            } else {
                                spec_run(
                                    RunState {
                                        ip: s1.ip + 4,
                                        regs: s1.regs.update(a as int, slot_value(s1.slots, key)),
                                        ..s1
                                    },
                                    code,
                                    costs,
                                    limit,
                                )
                            }
                        },
                    }
                }
            },
        }
    }
}

/// The machine state a script starts from: instruction pointer zero,
/// zeroed registers and memory, a full gas budget, the storage
/// snapshot, and no receipts.
pub open spec fn spec_init_state(slots: Seq<(u64, u64)>, faults: Seq<u64>, limit: u64) -> RunState {
    RunState {
        ip: 0,
        regs: Seq::new(REG_COUNT as nat, |i: int| 0u64),
        mem: Seq::new(MEM_SIZE as nat, |i: int| 0u8),
        gas: limit,
        slots,
        faults,
        receipts: Seq::empty(),
    }
}

/// The outcome of executing a script transaction: a function of the
/// storage snapshot, the cost table, the bytecode and the gas limit
/// alone.
pub open spec fn spec_transact_script(
    slots: Seq<(u64, u64)>,
    faults: Seq<u64>,
    costs: GasCosts,
    script: Seq<u8>,
    limit: u64,
) -> RunResult {
    spec_run(spec_init_state(slots, faults, limit), script, costs, limit)
}

/// Gas consumption is monotone: an execution never ends with more gas
/// than it started with, so the total charged is non-negative and,
/// within a budget, never exceeds it.
pub proof fn lemma_gas_monotone(s: RunState, code: Seq<u8>, costs: GasCosts, limit: u64)
    ensures
        spec_run(s, code, costs, limit).end.gas <= s.gas,
        s.gas <= limit ==> limit - spec_run(s, code, costs, limit).end.gas <= limit,
    decreases code.len() - s.ip,
{
    if s.ip < 0 || s.ip + 4 > code.len() {
    } else {
        match spec_decode(code, s.ip) {
            None => {},
            Some(instr) => {
                let cost = spec_cost(costs, instr);
                if cost > s.gas {
                } else {
                    let s1 = RunState { gas: (s.gas - cost) as u64, ..s };
                    match instr {
                        Instr::Ret { a } => {},
                        Instr::Rvrt { a } => {},
                        Instr::Stop => {},
                        Instr::Movi { a, imm } => {
                            lemma_gas_monotone(
                                RunState {
                                    ip: s1.ip + 4,
                                    regs: s1.regs.update(a as int, imm),
                                    ..s1
                                },
                                code,
                                costs,
                                limit,
                            );
                        },
                        Instr::Add { a, b, c } => {
                            let x = s1.regs[b as int];
                            let y = s1.regs[c as int];
                            if x + y > u64::MAX {
                            } else {
                                lemma_gas_monotone(
                                    RunState {
                                        ip: s1.ip + 4,
                                        regs: s1.regs.update(a as int, (x + y) as u64),
                                        ..s1
                                    },
                                    code,
                                    costs,
                                    limit,
                                );
                            }
                        },
                        Instr::Log { a, b } => {
                            lemma_gas_monotone(
                                RunState {
                                    ip: s1.ip + 4,
                                    receipts: s1.receipts.push(
                                        Receipt::Log {
                                            ra: s1.regs[a as int],
                                            rb: s1.regs[b as int],
                                        },
                                    ),
                                    ..s1
                                },
                                code,
                                costs,
                                limit,
                            );
                        },
                        Instr::Sb { a, b } => {
                            let addr = s1.regs[a as int];
                            if addr >= MEM_SIZE as u64 {
                            } else {
                                lemma_gas_monotone(
                                    RunState {
                                        ip: s1.ip + 4,
                                        mem: s1.mem.update(
                                            addr as int,
                                            (s1.regs[b as int] % 256) as u8,
                                        ),
                                        ..s1
                                    },
                                    code,
                                    costs,
                                    limit,
                                );
                            }
                        },
                        Instr::Lb { a, b } => {
                            let addr = s1.regs[b as int];
                            if addr >= MEM_SIZE as u64 {
                            } else {
                                lemma_gas_monotone(
                                    RunState {
                                        ip: s1.ip + 4,
                                        regs: s1.regs.update(a as int, s1.mem[addr as int] as u64),
                                        ..s1
                                    },
                                    code,
                                    costs,
                                    limit,
                                );
                            }
                        },
                        Instr::Sww { a, b } => {
                            let key = s1.regs[a as int];
                            if s1.faults.contains(key) {
                            } else {
                                lemma_gas_monotone(
                                    RunState {
                                        ip: s1.ip + 4,
                                        slots: seq![(key, s1.regs[b as int])] + s1.slots,
                                        ..s1
                                    },
                                    code,
                                    costs,
                                    limit,
                                );
                            }
                        },
                        Instr::Srw { a, b } => {
                            let key = s1.regs[b as int];
                            if s1.faults.contains(key) {
                            } else {
                                lemma_gas_monotone(
                                    RunState {
                                        ip: s1.ip + 4,
                                        regs: s1.regs.update(
                                            a as int,
                                            slot_value(s1.slots, key),
                                        ),
                                        ..s1
                                    },
                                    code,
                                    costs,
                                    limit,
                                );
                            }
                        },
                    }
                }
            },
        }
    }
}

/// Exhausting the gas budget always reverts: when the next instruction
/// decodes but costs more than the remaining gas, the execution ends in
/// a revert tagged with the out-of-gas reason code and records the
/// panic in the receipts — it never returns.
pub proof fn lemma_out_of_gas_reverts(s: RunState, code: Seq<u8>, costs: GasCosts, limit: u64)
    requires
        0 <= s.ip,
        s.ip + 4 <= code.len(),
        spec_decode(code, s.ip) is Some,
        spec_cost(costs, spec_decode(code, s.ip)->Some_0) > s.gas,
    ensures
        spec_run(s, code, costs, limit) == spec_panic_result(s, PanicReason::OutOfGas, limit),
        spec_run(s, code, costs, limit).state == ProgramState::Revert(
            spec_reason_code(PanicReason::OutOfGas),
        ),
        !(spec_run(s, code, costs, limit).state is Return),
{
}

/// A script execution never charges more than the transaction's gas
/// budget: the gas remaining at the end is within the budget, and so
/// the total charged is too.
pub proof fn lemma_script_gas_within_budget(
    slots: Seq<(u64, u64)>,
    faults: Seq<u64>,
    costs: GasCosts,
    script: Seq<u8>,
    limit: u64,
)
    ensures
        spec_transact_script(slots, faults, costs, script, limit).end.gas <= limit,
        spec_gas_used(
            limit,
            spec_transact_script(slots, faults, costs, script, limit).end.gas,
        ) <= limit,
{
    lemma_gas_monotone(spec_init_state(slots, faults, limit), script, costs, limit);
}

/// Copies a register file into a fresh vector.
pub fn clone_words(v: &Vec<u64>) -> (r: Vec<u64>)
    ensures
        r@ == v@,
{
    let mut out: Vec<u64> = Vec::new();
    let mut i: usize = 0;
    while i < v.len()
        invariant
            i <= v.len(),
            out@ == v@.take(i as int),
        decreases v.len() - i,
    {
        out.push(v[i]);
        i = i + 1;
        proof {
            assert(out@ =~= v@.take(i as int));
        }
    }
    proof {
        assert(v@.take(v.len() as int) =~= v@);
    }
    out
}

/// A vector of `n` zeroed words.
fn make_zero_words(n: usize) -> (r: Vec<u64>)
    ensures
        r@ == Seq::new(n as nat, |i: int| 0u64),
{
    let mut out: Vec<u64> = Vec::new();
    let mut i: usize = 0;
    while i < n
        invariant
            i <= n,
            out@ == Seq::new(i as nat, |j: int| 0u64),
        decreases n - i,
    {
        out.push(0);
        i = i + 1;
        proof {
            assert(out@ =~= Seq::new(i as nat, |j: int| 0u64));
        }
    }
    out
}

/// A vector of `n` zeroed bytes.
fn make_zero_bytes(n: usize) -> (r: Vec<u8>)
    ensures
        r@ == Seq::new(n as nat, |i: int| 0u8),
{
    let mut out: Vec<u8> = Vec::new();
    let mut i: usize = 0;
    while i < n
        invariant
            i <= n,
            out@ == Seq::new(i as nat, |j: int| 0u8),
        decreases n - i,
    {
        out.push(0);
        i = i + 1;
        proof {
            assert(out@ =~= Seq::new(i as nat, |j: int| 0u8));
        }
    }
    out
}

/// The register machine. Owns one storage backend handle, the register
/// file, the linear memory, the gas counters and the receipt log, and
/// executes one ready transaction per call to completion.
#[derive(Debug)]
pub struct Interpreter {
    /// The storage backend, exclusively owned for the duration of a
    /// call.
    pub storage: MemoryStorage,
    /// The register file; always [`REG_COUNT`] registers.
    pub registers: Vec<u64>,
    /// The linear memory; always [`MEM_SIZE`] bytes.
    pub memory: Vec<u8>,
    /// Gas budget of the last executed transaction.
    pub gas_limit: u64,
    /// Gas remaining out of that budget.
    pub gas_remaining: u64,
    /// Receipts of the last executed transaction, in execution order.
    pub receipts: Vec<Receipt>,
    /// The last executed transaction.
    pub tx: Transaction,
    /// The configuration supplied at construction.
    pub params: InterpreterParams,
}

impl Interpreter {
    /// Well-formedness: the register file and memory have their fixed
    /// sizes and the remaining gas never exceeds the budget.
    pub open spec fn wf(self) -> bool {
        &&& self.registers@.len() == REG_COUNT
        &&& self.memory@.len() == MEM_SIZE
        &&& self.gas_remaining <= self.gas_limit
    }

    /// The machine state of this interpreter at an instruction pointer.
    pub open spec fn run_view(self, ip: int) -> RunState {
        RunState {
            ip,
            regs: self.registers@,
            mem: self.memory@,
            gas: self.gas_remaining,
            slots: self.storage.slots@,
            faults: self.storage.faults@,
            receipts: self.receipts@,
        }
    }

    /// Constructs an interpreter over a storage backend with a
    /// configuration. No transaction is executed yet.
    pub fn with_storage(storage: MemoryStorage, params: InterpreterParams) -> (r: Interpreter)
        ensures
            r.wf(),
            r.storage == storage,
            r.params == params,
            r.receipts@ == Seq::<Receipt>::empty(),
            r.gas_limit == 0u64,
            r.gas_remaining == 0u64,
            match r.tx {
                Transaction::Script { script, script_gas_limit, funds } => script@.len() == 0
                    && script_gas_limit == 0 && funds == 0,
                _ => false,
            },
    {
        Interpreter {
            storage,
            registers: make_zero_words(REG_COUNT),
            memory: make_zero_bytes(MEM_SIZE),
            gas_limit: 0,
            gas_remaining: 0,
            receipts: Vec::new(),
            tx: Transaction::Script { script: Vec::new(), script_gas_limit: 0, funds: 0 },
            params,
        }
    }

    /// The last executed transaction.
    pub fn transaction(&self) -> (r: &Transaction)
        ensures
            *r == self.tx,
    {
        &self.tx
    }

    /// The receipts of the last executed transaction.
    pub fn receipts(&self) -> (r: &Vec<Receipt>)
        ensures
            *r == self.receipts,
    {
        &self.receipts
    }

    /// The per-operation cost table.
    pub fn gas_costs(&self) -> (r: &GasCosts)
        ensures
            *r == self.params.gas_costs,
    {
        &self.params.gas_costs
    }

    /// The fee computation parameters.
    pub fn fee_params(&self) -> (r: &FeeParameters)
        ensures
            *r == self.params.fee_params,
    {
        &self.params.fee_params
    }

    /// The gas price applied when converting checked transactions.
    pub fn gas_price(&self) -> (r: u64)
        ensures
            r == self.params.gas_price,
    {
        self.params.gas_price
    }

    /// Replaces the gas price applied to future conversions.
    pub fn set_gas_price(&mut self, gas_price: u64)
        ensures
            final (self).params == (InterpreterParams { gas_price, ..old(self).params }),
            final (self).storage == old(self).storage,
            final (self).registers == old(self).registers,
            final (self).memory == old(self).memory,
            final (self).gas_limit == old(self).gas_limit,
            final (self).gas_remaining == old(self).gas_remaining,
            final (self).receipts == old(self).receipts,
            final (self).tx == old(self).tx,
    {
        self.params.gas_price = gas_price;
    }

    /// Offset of the transaction section in the VM's memory layout.
    pub fn tx_offset(&self) -> (r: usize)
        ensures
            r == self.params.tx_offset,
    {
        self.params.tx_offset
    }

    /// Records a runtime panic: appends the panic receipt and a failing
    /// script result receipt, and reports the revert outcome.
    fn finish_panic(&mut self, reason: PanicReason, limit: u64) -> (state: ProgramState)
        requires
            old(self).wf(),
            old(self).gas_limit == limit,
        ensures
            final (self).wf(),
            state == ProgramState::Revert(spec_reason_code(reason)),
            final (self).receipts@ == old(self).receipts@ + seq![
                Receipt::Panic { reason },
                Receipt::ScriptResult {
                    result: ScriptExecutionResult::Panic,
                    gas_used: spec_gas_used(limit, old(self).gas_remaining),
                },
            ],
            final (self).registers == old(self).registers,
            final (self).memory == old(self).memory,
            final (self).gas_remaining == old(self).gas_remaining,
            final (self).gas_limit == old(self).gas_limit,
            final (self).storage == old(self).storage,
            final (self).tx == old(self).tx,
            final (self).params == old(self).params,
    {
        self.receipts.push(Receipt::Panic { reason });
        let gas_used = limit - self.gas_remaining;
        self.receipts.push(
            Receipt::ScriptResult { result: ScriptExecutionResult::Panic, gas_used },
        );
        proof {
            assert(self.receipts@ =~= old(self).receipts@ + seq![
                Receipt::Panic { reason },
                Receipt::ScriptResult {
                    result: ScriptExecutionResult::Panic,
                    gas_used: spec_gas_used(limit, old(self).gas_remaining),
                },
            ]);
        }
        ProgramState::Revert(reason_code(reason))
    }

    /// Runs the script whose bytecode is `code` to completion,
    /// returning exactly the program state that [`spec_run`] assigns to
    /// the starting machine state, and leaving the machine in the end
    /// state it assigns.
    #[verifier::loop_isolation(false)]
    fn run_loop(&mut self, code: &Vec<u8>, limit: u64) -> (state: ProgramState)
        requires
            old(self).wf(),
            old(self).gas_limit == limit,
        ensures
            final (self).wf(),
            final (self).tx == old(self).tx,
            final (self).params == old(self).params,
            final (self).gas_limit == limit,
            final (self).storage.code@ == old(self).storage.code@,
            final (self).storage.state_root == old(self).storage.state_root,
            final (self).storage.faults@ == old(self).storage.faults@,
            ({
                let r = spec_run(
                    old(self).run_view(0),
                    code@,
                    old(self).params.gas_costs,
                    limit,
                );
                &&& state == r.state
                &&& final (self).registers@ == r.end.regs
                &&& final (self).memory@ == r.end.mem
                &&& final (self).gas_remaining == r.end.gas
                &&& final (self).storage.slots@ == r.end.slots
                &&& final (self).receipts@ == r.end.receipts
            }),
    {
        let ghost init = old(self).run_view(0);
        let ghost gcosts = old(self).params.gas_costs;
        let mut ip: usize = 0;
        loop
            invariant
                self.wf(),
                self.gas_limit == limit,
                ip <= code@.len(),
                self.tx == old(self).tx,
                self.params == old(self).params,
                self.storage.code@ == old(self).storage.code@,
                self.storage.state_root == old(self).storage.state_root,
                self.storage.faults@ == old(self).storage.faults@,
                spec_run(self.run_view(ip as int), code@, gcosts, limit) == spec_run(
                    init,
                    code@,
                    gcosts,
                    limit,
                ),
            decreases code@.len() - ip,
        {
            let ghost pre = self.run_view(ip as int);
            if code.len() - ip < 4 {
                let state = self.finish_panic(PanicReason::InstructionPointerOverflow, limit);
                proof {
                    assert(spec_run(pre, code@, gcosts, limit) == spec_panic_result(
                        pre,
                        PanicReason::InstructionPointerOverflow,
                        limit,
                    ));
                    assert(self.run_view(ip as int) =~= spec_run(pre, code@, gcosts, limit).end);
                }
                return state;
            }
            let instr_opt = decode(code, ip);
            let instr = match instr_opt {
                Some(i) => i,
                None => {
                    let state = self.finish_panic(PanicReason::InvalidInstruction, limit);
                    proof {
                        assert(spec_run(pre, code@, gcosts, limit) == spec_panic_result(
                            pre,
                            PanicReason::InvalidInstruction,
                            limit,
                        ));
                        assert(self.run_view(ip as int) =~= spec_run(
                            pre,
                            code@,
                            gcosts,
                            limit,
                        ).end);
                    }
                    return state;
                },
            };
            let cost = instr_cost(&self.params.gas_costs, &instr);
            if cost > self.gas_remaining {
                let state = self.finish_panic(PanicReason::OutOfGas, limit);
                proof {
                    assert(spec_run(pre, code@, gcosts, limit) == spec_panic_result(
                        pre,
                        PanicReason::OutOfGas,
                        limit,
                    ));
                    assert(self.run_view(ip as int) =~= spec_run(pre, code@, gcosts, limit).end);
                }
                return state;
            }
            self.gas_remaining = self.gas_remaining - cost;
            let ghost s1 = RunState { gas: (pre.gas - spec_cost(gcosts, instr)) as u64, ..pre };
            proof {
                assert(self.run_view(ip as int) =~= s1);
            }
            match instr {
                Instr::Ret { a } => {
                    let v = self.registers[a];
                    self.receipts.push(Receipt::Return { val: v });
                    let gas_used = limit - self.gas_remaining;
                    self.receipts.push(
                        Receipt::ScriptResult {
                            result: ScriptExecutionResult::Success,
                            gas_used,
                        },
                    );
                    proof {
                        assert(self.run_view(ip as int) =~= spec_run(
                            pre,
                            code@,
                            gcosts,
                            limit,
                        ).end);
                    }
                    return ProgramState::Return(v);
                },
                Instr::Rvrt { a } => {
                    let v = self.registers[a];
                    self.receipts.push(Receipt::Revert { code: v });
                    let gas_used = limit - self.gas_remaining;
                    self.receipts.push(
                        Receipt::ScriptResult { result: ScriptExecutionResult::Revert, gas_used },
                    );
                    proof {
                        assert(self.run_view(ip as int) =~= spec_run(
                            pre,
                            code@,
                            gcosts,
                            limit,
                        ).end);
                    }
                    return ProgramState::Revert(v);
                },
                Instr::Stop => {
                    let gas_used = limit - self.gas_remaining;
                    self.receipts.push(
                        Receipt::ScriptResult {
                            result: ScriptExecutionResult::Success,
                            gas_used,
                        },
                    );
                    proof {
                        assert(self.run_view(ip as int) =~= spec_run(
                            pre,
                            code@,
                            gcosts,
                            limit,
                        ).end);
                    }
                    return ProgramState::Stop;
                },
                Instr::Movi { a, imm } => {
                    self.registers[a] = imm;
                    ip = ip + 4;
                    proof {
                        let nxt = RunState {
                            ip: s1.ip + 4,
                            regs: s1.regs.update(a as int, imm),
                            ..s1
                        };
                        assert(self.run_view(ip as int) =~= nxt);
                        assert(spec_run(pre, code@, gcosts, limit) == spec_run(
                            nxt,
                            code@,
                            gcosts,
                            limit,
                        ));
                    }
                },
                Instr::Add { a, b, c } => {
                    let x = self.registers[b];
                    let y = self.registers[c];
                    match x.checked_add(y) {
                        Some(v) => {
                            self.registers[a] = v;
                            ip = ip + 4;
                            proof {
                                let nxt = RunState {
                                    ip: s1.ip + 4,
                                    regs: s1.regs.update(a as int, (x + y) as u64),
                                    ..s1
                                };
                                assert(self.run_view(ip as int) =~= nxt);
                                assert(spec_run(pre, code@, gcosts, limit) == spec_run(
                                    nxt,
                                    code@,
                                    gcosts,
                                    limit,
                                ));
                            }
                        },
                        None => {
                            let state = self.finish_panic(PanicReason::ArithmeticOverflow, limit);
                            proof {
                                assert(spec_run(pre, code@, gcosts, limit) == spec_panic_result(
                                    s1,
                                    PanicReason::ArithmeticOverflow,
                                    limit,
                                ));
                                assert(self.run_view(ip as int) =~= spec_run(
                                    pre,
                                    code@,
                                    gcosts,
                                    limit,
                                ).end);
                            }
                            return state;
                        },
                    }
                },
                Instr::Log { a, b } => {
                    let ra = self.registers[a];
                    let rb = self.registers[b];
                    self.receipts.push(Receipt::Log { ra, rb });
                    ip = ip + 4;
                    proof {
                        let nxt = RunState {
                            ip: s1.ip + 4,
                            receipts: s1.receipts.push(Receipt::Log { ra, rb }),
                            ..s1
                        };
                        assert(self.run_view(ip as int) =~= nxt);
                        assert(spec_run(pre, code@, gcosts, limit) == spec_run(
                            nxt,
                            code@,
                            gcosts,
                            limit,
                        ));
                    }
                },
                Instr::Sb { a, b } => {
                    let addr = self.registers[a];
                    if addr >= MEM_SIZE as u64 {
                        let state = self.finish_panic(PanicReason::MemoryOverflow, limit);
                        proof {
                            assert(spec_run(pre, code@, gcosts, limit) == spec_panic_result(
                                s1,
                                PanicReason::MemoryOverflow,
                                limit,
                            ));
                            assert(self.run_view(ip as int) =~= spec_run(
                                pre,
                                code@,
                                gcosts,
                                limit,
                            ).end);
                        }
                        return state;
                    }
                    let byte = (self.registers[b] % 256) as u8;
                    self.memory[addr as usize] = byte;
                    ip = ip + 4;
                    proof {
                        let nxt = RunState {
                            ip: s1.ip + 4,
                            mem: s1.mem.update(addr as int, (s1.regs[b as int] % 256) as u8),
                            ..s1
                        };
                        assert(self.run_view(ip as int) =~= nxt);
                        assert(spec_run(pre, code@, gcosts, limit) == spec_run(
                            nxt,
                            code@,
                            gcosts,
                            limit,
                        ));
                    }
                },
                Instr::Lb { a, b } => {
                    let addr = self.registers[b];
                    if addr >= MEM_SIZE as u64 {
                        let state = self.finish_panic(PanicReason::MemoryOverflow, limit);
                        proof {
                            assert(spec_run(pre, code@, gcosts, limit) == spec_panic_result(
                                s1,
                                PanicReason::MemoryOverflow,
                                limit,
                            ));
                            assert(self.run_view(ip as int) =~= spec_run(
                                pre,
                                code@,
                                gcosts,
                                limit,
                            ).end);
                        }
                        return state;
                    }
                    let v = self.memory[addr as usize] as u64;
                    self.registers[a] = v;
                    ip = ip + 4;
                    proof {
                        let nxt = RunState {
                            ip: s1.ip + 4,
                            regs: s1.regs.update(a as int, s1.mem[addr as int] as u64),
                            ..s1
                        };
                        assert(self.run_view(ip as int) =~= nxt);
                        assert(spec_run(pre, code@, gcosts, limit) == spec_run(
                            nxt,
                            code@,
                            gcosts,
                            limit,
                        ));
                    }
                },
                Instr::Sww { a, b } => {
                    let key = self.registers[a];
                    if self.storage.is_faulted(key) {
                        let state = self.finish_panic(PanicReason::StorageError, limit);
                        proof {
                            assert(spec_run(pre, code@, gcosts, limit) == spec_panic_result(
                                s1,
                                PanicReason::StorageError,
                                limit,
                            ));
                            assert(self.run_view(ip as int) =~= spec_run(
                                pre,
                                code@,
                                gcosts,
                                limit,
                            ).end);
                        }
                        return state;
                    }
                    let val = self.registers[b];
                    self.storage.slots.insert(0, (key, val));
                    ip = ip + 4;
                    proof {
                        let nxt = RunState {
                            ip: s1.ip + 4,
                            slots: seq![(key, s1.regs[b as int])] + s1.slots,
                            ..s1
                        };
                        assert(self.run_view(ip as int) =~= nxt);
                        assert(spec_run(pre, code@, gcosts, limit) == spec_run(
                            nxt,
                            code@,
                            gcosts,
                            limit,
                        ));
                    }
                },
                Instr::Srw { a, b } => {
                    let key = self.registers[b];
                    if self.storage.is_faulted(key) {
                        let state = self.finish_panic(PanicReason::StorageError, limit);
                        proof {
                            assert(spec_run(pre, code@, gcosts, limit) == spec_panic_result(
                                s1,
                                PanicReason::StorageError,
                                limit,
                            ));
                            assert(self.run_view(ip as int) =~= spec_run(
                                pre,
                                code@,
                                gcosts,
                                limit,
                            ).end);
                        }
                        return state;
                    }
                    let v = match self.storage.read_slot(key) {
                        Ok(v) => v,
                        Err(_) => 0,
                    };
                    self.registers[a] = v;
                    ip = ip + 4;
                    proof {
                        let nxt = RunState {
                            ip: s1.ip + 4,
                            regs: s1.regs.update(a as int, slot_value(s1.slots, key)),
                            ..s1
                        };
                        assert(self.run_view(ip as int) =~= nxt);
                        assert(spec_run(pre, code@, gcosts, limit) == spec_run(
                            nxt,
                            code@,
                            gcosts,
                            limit,
                        ));
                    }
                },
            }
        }
    }

    /// Executes one ready transaction to completion. A script runs its
    /// bytecode in the register machine, reporting exactly the outcome
    /// of [`spec_transact_script`] over the storage snapshot; runtime
    /// panics surface as a revert program state, never as an error. A
    /// creation deploys its bytecode, failing if the identifier is
    /// taken; an upgrade replaces the state root; both report a stop
    /// program state on success and produce no receipts.
    pub fn transact(&mut self, ready: Ready) -> (r: Result<ProgramState, InterpreterError>)
        requires
            old(self).wf(),
        ensures
            final (self).wf(),
            final (self).params == old(self).params,
            match ready.spec_tx() {
                Transaction::Script { script, script_gas_limit, funds } => {
                    let res = spec_transact_script(
                        old(self).storage.slots@,
                        old(self).storage.faults@,
                        old(self).params.gas_costs,
                        script@,
                        ready.spec_max_gas(),
                    );
                    &&& r == Ok::<ProgramState, InterpreterError>(res.state)
                    &&& final (self).receipts@ == res.end.receipts
                    &&& final (self).registers@ == res.end.regs
                    &&& final (self).memory@ == res.end.mem
                    &&& final (self).gas_remaining == res.end.gas
                    &&& final (self).gas_limit == ready.spec_max_gas()
                    &&& final (self).storage.slots@ == res.end.slots
                    &&& final (self).storage.code@ == old(self).storage.code@
                    &&& final (self).storage.state_root == old(self).storage.state_root
                    &&& final (self).storage.faults@ == old(self).storage.faults@
                    &&& tx_equiv(final (self).tx, ready.spec_tx())
                },
                Transaction::Create { bytecode, salt, funds } => {
                    if code_contains(old(self).storage.code@, salt) {
                        &&& r == Err::<ProgramState, InterpreterError>(
                            InterpreterError::Panic(PanicReason::ContractIdAlreadyDeployed),
                        )
                        &&& *final (self) == *old(self)
                    } else {
                        &&& r == Ok::<ProgramState, InterpreterError>(ProgramState::Stop)
                        &&& final (self).storage.code@ == seq![(salt, bytecode)] + old(
                            self,
                        ).storage.code@
                        &&& final (self).storage.slots@ == old(self).storage.slots@
                        &&& final (self).storage.state_root == old(self).storage.state_root
                        &&& final (self).storage.faults@ == old(self).storage.faults@
                        &&& final (self).receipts@ == Seq::<Receipt>::empty()
                        &&& final (self).gas_limit == ready.spec_max_gas()
                        &&& final (self).gas_remaining == ready.spec_max_gas()
                        &&& final (self).registers@ == old(self).registers@
                        &&& final (self).memory@ == old(self).memory@
                        &&& tx_equiv(final (self).tx, ready.spec_tx())
                    }
                },
                Transaction::Upgrade { purpose, funds } => {
                    &&& r == Ok::<ProgramState, InterpreterError>(ProgramState::Stop)
                    &&& final (self).storage.state_root == purpose
                    &&& final (self).storage.code@ == old(self).storage.code@
                    &&& final (self).storage.slots@ == old(self).storage.slots@
                    &&& final (self).storage.faults@ == old(self).storage.faults@
                    &&& final (self).receipts@ == Seq::<Receipt>::empty()
                    &&& final (self).gas_limit == ready.spec_max_gas()
                    &&& final (self).gas_remaining == ready.spec_max_gas()
                    &&& final (self).registers@ == old(self).registers@
                    &&& final (self).memory@ == old(self).memory@
                    &&& tx_equiv(final (self).tx, ready.spec_tx())
                },
            },
    {
        let limit = ready.max_gas();
        let tx = ready.into_tx();
        match tx {
            Transaction::Script { script, script_gas_limit, funds } => {
                let code = clone_bytes(&script);
                self.tx = Transaction::Script { script, script_gas_limit, funds };
                self.registers = make_zero_words(REG_COUNT);
                self.memory = make_zero_bytes(MEM_SIZE);
                self.receipts = Vec::new();
                self.gas_limit = limit;
                self.gas_remaining = limit;
                proof {
                    assert(self.run_view(0) =~= spec_init_state(
                        old(self).storage.slots@,
                        old(self).storage.faults@,
                        limit,
                    ));
                }
                let state = self.run_loop(&code, limit);
                Ok(state)
            },
            Transaction::Create { bytecode, salt, funds } => {
                if self.storage.contains_code(salt) {
                    return Err(InterpreterError::Panic(PanicReason::ContractIdAlreadyDeployed));
                }
                self.tx = Transaction::Create { bytecode: clone_bytes(&bytecode), salt, funds };
                self.storage.insert_code(salt, bytecode);
                self.receipts = Vec::new();
                self.gas_limit = limit;
                self.gas_remaining = limit;
                Ok(ProgramState::Stop)
            },
            Transaction::Upgrade { purpose, funds } => {
                self.tx = Transaction::Upgrade { purpose, funds };
                self.storage.set_state_root(purpose);
                self.receipts = Vec::new();
                self.gas_limit = limit;
                self.gas_remaining = limit;
                Ok(ProgramState::Stop)
            },
        }
    }
}

} // verus!
