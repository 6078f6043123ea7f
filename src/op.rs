//! Instructions and their encoding in memory.
use vstd::prelude::*;

verus! {

/// One decoded instruction with its raw argument words.
#[derive(Clone, Copy, Debug, PartialEq, Eq, Structural)]
pub enum Op {
    Halt,
    Assign(u16, u16),
    Push(u16),
    Pop(u16),
    Eq(u16, u16, u16),
    Gt(u16, u16, u16),
    Jmp(u16),
    Jt(u16, u16),
    Jf(u16, u16),
    Add(u16, u16, u16),
    Mul(u16, u16, u16),
    Mod(u16, u16, u16),
    And(u16, u16, u16),
    Or(u16, u16, u16),
    Not(u16, u16),
    Rmem(u16, u16),
    Wmem(u16, u16),
    Call(u16),
    Ret,
    Out(u16),
    In(u16),
    Noop,
}

/// Why the machine cannot go on.
#[derive(Clone, Copy, Debug, PartialEq, Eq, Structural)]
pub enum FaultKind {
    /// An argument of 32776 or more, or a literal where a register is needed.
    InvalidOperand(u16),
    /// A memory access at or past the end of memory.
    AddressOutOfRange(usize),
    /// A word in opcode position that names no instruction.
    UnknownOpcode(u16),
    /// `pop` on an empty stack.
    StackUnderflow,
    /// `mod` with a zero divisor.
    DivisionByZero,
}

/// Number of argument words that follow an opcode (opcodes 0 to 21).
pub open spec fn arity(code: u16) -> nat {
    if code == 0 || code == 18 || code == 21 {
        0
    } else if code == 2 || code == 3 || code == 6 || code == 17 || code == 19 || code == 20 {
        1
    } else if code == 1 || code == 7 || code == 8 || code == 14 || code == 15 || code == 16 {
        2
    } else {
        3
    }
}

/// The instruction with opcode `code` and argument words `a`, `b`, `c`
/// (those past its arity are ignored).
pub open spec fn op_of(code: u16, a: u16, b: u16, c: u16) -> Op {
    match code {
        0 => Op::Halt,
        1 => Op::Assign(a, b),
        2 => Op::Push(a),
        3 => Op::Pop(a),
        4 => Op::Eq(a, b, c),
        5 => Op::Gt(a, b, c),
        6 => Op::Jmp(a),
        7 => Op::Jt(a, b),
        8 => Op::Jf(a, b),
        9 => Op::Add(a, b, c),
        10 => Op::Mul(a, b, c),
        11 => Op::Mod(a, b, c),
        12 => Op::And(a, b, c),
        13 => Op::Or(a, b, c),
        14 => Op::Not(a, b),
        15 => Op::Rmem(a, b),
        16 => Op::Wmem(a, b),
        17 => Op::Call(a),
        18 => Op::Ret,
        19 => Op::Out(a),
        20 => Op::In(a),
        _ => Op::Noop,
    }
}

/// The word at `i`, or zero outside memory.
pub open spec fn word_at(mem: Seq<u16>, i: int) -> u16 {
    if 0 <= i < mem.len() {
        mem[i]
    } else {
        0
    }
}

/// Decoding the instruction that starts at `ip`: the instruction and the
/// address just past it, or the fault that stops decoding.
pub open spec fn decode_spec(mem: Seq<u16>, ip: int) -> Result<(Op, int), FaultKind> {
    if !(0 <= ip < mem.len()) {
        Err(FaultKind::AddressOutOfRange(ip as usize))
    } else if mem[ip] > 21 {
        Err(FaultKind::UnknownOpcode(mem[ip]))
    } else if ip + 1 + arity(mem[ip]) > mem.len() {
        Err(FaultKind::AddressOutOfRange(mem.len() as usize))
    } else {
        Ok(
            (
                op_of(mem[ip], word_at(mem, ip + 1), word_at(mem, ip + 2), word_at(mem, ip + 3)),
                ip + 1 + arity(mem[ip]),
            ),
        )
    }
}

} // verus!
