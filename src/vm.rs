//! The machine: registers, stack, memory, input queue and output sink, with
//! the fetch-decode-execute loop.
use std::collections::VecDeque;
use vstd::prelude::*;

use crate::op::{arity, decode_spec, op_of, word_at, FaultKind, Op};
use crate::word::{
    add_spec, mask_not, mul_spec, not_spec, resolve, target, wrap_add, wrap_mul, MEM_SIZE,
    NUM_REGS, REG_BASE, REG_END,
};

verus! {

/// The whole state of a machine, as plain mathematical values.
pub struct MachineState {
    pub regs: Seq<u16>,
    pub stack: Seq<u16>,
    pub mem: Seq<u16>,
    /// Address of the instruction that runs next.
    pub ip: usize,
    pub input: Seq<u8>,
    pub output: Seq<u16>,
    /// Whether an empty input queue waits for more input rather than halting.
    pub interactive: bool,
}

/// What executing one instruction leads to.
#[derive(Clone, Copy, Debug, PartialEq, Eq, Structural)]
pub enum Step {
    /// Go on at this address.
    Next(usize),
    /// Stop normally.
    Halt,
    /// `in` found the queue empty on an interactive machine.
    AwaitInput,
    /// Stop on a fault.
    Fault(FaultKind),
}

/// A fault together with where it happened.
#[derive(Clone, Copy, Debug, PartialEq, Eq)]
pub struct Fault {
    pub kind: FaultKind,
    /// Address of the instruction that faulted.
    pub addr: usize,
    /// The opcode word at that address, where it lies in memory.
    pub opcode: Option<u16>,
}

/// How a run of the machine ended.
#[derive(Clone, Copy, Debug, PartialEq, Eq)]
pub enum Outcome {
    /// `halt`, `ret` on an empty stack, or `in` on an empty queue while not interactive.
    Halted,
    /// `in` on an empty queue while interactive: feed input and run again.
    AwaitingInput,
    Faulted(Fault),
    /// The step budget ran out; running again goes on where it stopped.
    OutOfFuel,
}

/// Why a program image was not loaded.
#[derive(Clone, Copy, Debug, PartialEq, Eq, Structural)]
pub enum LoadError {
    /// The image holds more than 32768 whole words.
    TooLarge,
}

/// Value of an argument, or the fault of an invalid one.
pub open spec fn value(s: MachineState, a: u16) -> Result<u16, FaultKind> {
    match resolve(s.regs, a) {
        Some(v) => Ok(v),
        None => Err(FaultKind::InvalidOperand(a)),
    }
}

/// Writing `v` to the register that `dest` names, then going on at `next`.
pub open spec fn assign(s: MachineState, dest: u16, v: u16, next: usize) -> (MachineState, Step) {
    match target(dest) {
        Some(i) => (MachineState { regs: s.regs.update(i, v), ..s }, Step::Next(next)),
        None => (s, Step::Fault(FaultKind::InvalidOperand(dest))),
    }
}

/// An instruction `dest <- f(a, b)`.
pub open spec fn binary(
    s: MachineState,
    dest: u16,
    a: u16,
    b: u16,
    f: spec_fn(u16, u16) -> u16,
    next: usize,
) -> (MachineState, Step) {
    match (value(s, a), value(s, b)) {
        (Ok(x), Ok(y)) => assign(s, dest, f(x, y), next),
        (Err(e), _) => (s, Step::Fault(e)),
        (_, Err(e)) => (s, Step::Fault(e)),
    }
}

/// The effect of executing `op`, where `next` is the address just past it.
/// On anything but `Step::Next` the state is left as it was.
pub open spec fn exec_spec(s: MachineState, op: Op, next: usize) -> (MachineState, Step) {
    match op {
        Op::Halt => (s, Step::Halt),
        Op::Assign(r, v) => match value(s, v) {
            Ok(x) => assign(s, r, x, next),
            Err(e) => (s, Step::Fault(e)),
        },
        Op::Push(v) => match value(s, v) {
            Ok(x) => (MachineState { stack: s.stack.push(x), ..s }, Step::Next(next)),
            Err(e) => (s, Step::Fault(e)),
        },
        Op::Pop(r) => if s.stack.len() == 0 {
            (s, Step::Fault(FaultKind::StackUnderflow))
        } else {
            match target(r) {
                Some(i) => (
                    MachineState {
                        regs: s.regs.update(i, s.stack.last()),
                        stack: s.stack.drop_last(),
                        ..s
                    },
                    Step::Next(next),
                ),
                None => (s, Step::Fault(FaultKind::InvalidOperand(r))),
            }
        },
        Op::Eq(r, a, b) => binary(s, r, a, b, |x: u16, y: u16| if x == y { 1u16 } else { 0u16 }, next),
        Op::Gt(r, a, b) => binary(s, r, a, b, |x: u16, y: u16| if x > y { 1u16 } else { 0u16 }, next),
        Op::Jmp(t) => match value(s, t) {
            Ok(x) => (s, Step::Next(x as usize)),
            Err(e) => (s, Step::Fault(e)),
        },
        Op::Jt(v, t) => match value(s, v) {
            Ok(x) => if x != 0 {
                match value(s, t) {
                    Ok(y) => (s, Step::Next(y as usize)),
                    Err(e) => (s, Step::Fault(e)),
                }
            } else {
                (s, Step::Next(next))
            },
            Err(e) => (s, Step::Fault(e)),
        },
        Op::Jf(v, t) => match value(s, v) {
            Ok(x) => if x == 0 {
                match value(s, t) {
                    Ok(y) => (s, Step::Next(y as usize)),
                    Err(e) => (s, Step::Fault(e)),
                }
            } else {
                (s, Step::Next(next))
            },
            Err(e) => (s, Step::Fault(e)),
        },
        Op::Add(r, a, b) => binary(s, r, a, b, |x: u16, y: u16| add_spec(x, y), next),
        Op::Mul(r, a, b) => binary(s, r, a, b, |x: u16, y: u16| mul_spec(x, y), next),
        Op::Mod(r, a, b) => match (value(s, a), value(s, b)) {
            (Ok(x), Ok(y)) => if y == 0 {
                (s, Step::Fault(FaultKind::DivisionByZero))
            } else {
                assign(s, r, (x % y) as u16, next)
            },
            (Err(e), _) => (s, Step::Fault(e)),
            (_, Err(e)) => (s, Step::Fault(e)),
        },
        Op::And(r, a, b) => binary(s, r, a, b, |x: u16, y: u16| x & y, next),
        Op::Or(r, a, b) => binary(s, r, a, b, |x: u16, y: u16| x | y, next),
        Op::Not(r, v) => match value(s, v) {
            Ok(x) => assign(s, r, not_spec(x), next),
            Err(e) => (s, Step::Fault(e)),
        },
        Op::Rmem(r, a) => match value(s, a) {
            Ok(x) => if (x as int) < s.mem.len() {
                assign(s, r, s.mem[x as int], next)
            } else {
                (s, Step::Fault(FaultKind::AddressOutOfRange(x as usize)))
            },
            Err(e) => (s, Step::Fault(e)),
        },
        Op::Wmem(a, v) => match (value(s, a), value(s, v)) {
            (Ok(x), Ok(y)) => if (x as int) < s.mem.len() {
                (MachineState { mem: s.mem.update(x as int, y), ..s }, Step::Next(next))
            } else {
                (s, Step::Fault(FaultKind::AddressOutOfRange(x as usize)))
            },
            (Err(e), _) => (s, Step::Fault(e)),
            (_, Err(e)) => (s, Step::Fault(e)),
        },
        Op::Call(t) => match value(s, t) {
            Ok(x) => (
                MachineState { stack: s.stack.push(next as u16), ..s },
                Step::Next(x as usize),
            ),
            Err(e) => (s, Step::Fault(e)),
        },
        Op::Ret => if s.stack.len() == 0 {
            (s, Step::Halt)
        } else {
            (MachineState { stack: s.stack.drop_last(), ..s }, Step::Next(s.stack.last() as usize))
        },
        Op::Out(v) => match value(s, v) {
            Ok(x) => (MachineState { output: s.output.push(x), ..s }, Step::Next(next)),
            Err(e) => (s, Step::Fault(e)),
        },
        Op::In(r) => if s.input.len() == 0 {
            (s, if s.interactive { Step::AwaitInput } else { Step::Halt })
        } else {
            match target(r) {
                Some(i) => (
                    MachineState {
                        regs: s.regs.update(i, s.input[0] as u16),
                        input: s.input.drop_first(),
                        ..s
                    },
                    Step::Next(next),
                ),
                None => (s, Step::Fault(FaultKind::InvalidOperand(r))),
            }
        },
        Op::Noop => (s, Step::Next(next)),
    }
}

/// The opcode word at `ip`, where `ip` lies in memory.
pub open spec fn opcode_at(mem: Seq<u16>, ip: usize) -> Option<u16> {
    if (ip as int) < mem.len() {
        Some(mem[ip as int])
    } else {
        None
    }
}

pub open spec fn fault_at(s: MachineState, kind: FaultKind) -> Outcome {
    Outcome::Faulted(Fault { kind, addr: s.ip, opcode: opcode_at(s.mem, s.ip) })
}

/// One fetch-decode-execute cycle: the next state, and how the run ended if it did.
pub open spec fn step_spec(s: MachineState) -> (MachineState, Option<Outcome>) {
    match decode_spec(s.mem, s.ip as int) {
        Err(k) => (s, Some(fault_at(s, k))),
        Ok((op, n)) => {
            let (t, st) = exec_spec(s, op, n as usize);
            match st {
                Step::Next(ip) => (MachineState { ip, ..t }, None),
                Step::Halt => (t, Some(Outcome::Halted)),
                Step::AwaitInput => (t, Some(Outcome::AwaitingInput)),
                Step::Fault(k) => (t, Some(fault_at(s, k))),
            }
        },
    }
}

/// Up to `fuel` cycles, stopping at the first that ends the run.
pub open spec fn run_spec(s: MachineState, fuel: nat) -> (MachineState, Outcome)
    decreases fuel,
{
    if fuel == 0 {
        (s, Outcome::OutOfFuel)
    } else {
        match step_spec(s) {
            (t, None) => run_spec(t, (fuel - 1) as nat),
            (t, Some(o)) => (t, o),
        }
    }
}

/// A fresh machine: everything zero and empty.
pub open spec fn initial(interactive: bool) -> MachineState {
    MachineState {
        regs: Seq::new(8, |i: int| 0u16),
        stack: Seq::empty(),
        mem: Seq::new(32768, |i: int| 0u16),
        ip: 0,
        input: Seq::empty(),
        output: Seq::empty(),
        interactive,
    }
}

/// The word that two bytes make, low byte first.
pub open spec fn le_word(lo: u8, hi: u8) -> u16 {
    (lo + 256 * hi) as u16
}

/// Memory after loading `bytes` at address 0: one word per whole pair of
/// bytes, the cells past them unchanged.
pub open spec fn loaded(mem: Seq<u16>, bytes: Seq<u8>) -> Seq<u16> {
    Seq::new(
        mem.len(),
        |i: int|
            if i < bytes.len() / 2 {
                le_word(bytes[2 * i], bytes[2 * i + 1])
            } else {
                mem[i]
            },
    )
}

/// A machine instance. Fields are private; `wf` is its invariant.
pub struct VM {
    regs: Vec<u16>,
    stack: Vec<u16>,
    mem: Vec<u16>,
    lastip: usize,
    inbuf: VecDeque<u8>,
    outbuf: Vec<u16>,
    readin: bool,
}

impl View for VM {
    type V = MachineState;

    closed spec fn view(&self) -> MachineState {
        MachineState {
            regs: self.regs@,
            stack: self.stack@,
            mem: self.mem@,
            ip: self.lastip,
            input: self.inbuf@,
            output: self.outbuf@,
            interactive: self.readin,
        }
    }
}

/// Exactly eight registers and 32768 memory cells.
pub open spec fn state_wf(s: MachineState) -> bool {
    s.regs.len() == 8 && s.mem.len() == 32768
}

impl VM {
    pub open spec fn wf(&self) -> bool {
        state_wf(self@)
    }

    /// A fresh machine; `readin` makes it wait for input rather than halt
    /// when `in` finds the queue empty.
    pub fn new(readin: bool) -> (r: VM)
        ensures
            r.wf(),
            r@ == initial(readin),
    {
        let regs: Vec<u16> = vec![0u16; NUM_REGS];
        let mem: Vec<u16> = vec![0u16; MEM_SIZE];
        let r = VM {
            regs,
            stack: Vec::new(),
            mem,
            lastip: 0,
            inbuf: VecDeque::new(),
            outbuf: Vec::new(),
            readin,
        };
        assert(r@.regs =~= initial(readin).regs);
        assert(r@.mem =~= initial(readin).mem);
        assert(r@.stack =~= Seq::<u16>::empty());
        assert(r@.input =~= Seq::<u8>::empty());
        assert(r@.output =~= Seq::<u16>::empty());
        r
    }

    /// The value an argument denotes: a literal itself, a register its content.
    pub fn val(&self, arg: u16) -> (r: Option<u16>)
        requires
            self.wf(),
        ensures
            r == resolve(self@.regs, arg),
    {
        if arg < REG_BASE {
            Some(arg)
        } else if arg < REG_END {
            Some(self.regs[(arg - REG_BASE) as usize])
        } else {
            None
        }
    }

    /// The register index a destination argument names.
    pub fn reg(&self, arg: u16) -> (r: Option<usize>)
        ensures
            match target(arg) {
                Some(i) => r == Some(i as usize),
                None => r is None,
            },
    {
        if REG_BASE <= arg && arg < REG_END {
            Some((arg - REG_BASE) as usize)
        } else {
            None
        }
    }

    fn operand(&self, arg: u16) -> (r: Result<u16, FaultKind>)
        requires
            self.wf(),
        ensures
            r == value(self@, arg),
    {
        match self.val(arg) {
            Some(v) => Ok(v),
            None => Err(FaultKind::InvalidOperand(arg)),
        }
    }

    fn store(&mut self, dest: u16, v: u16, next: usize) -> (r: Step)
        requires
            old(self).wf(),
        ensures
            final(self).wf(),
            (final(self)@, r) == assign(old(self)@, dest, v, next),
    {
        match self.reg(dest) {
            Some(i) => {
                self.regs.set(i, v);
                Step::Next(next)
            },
            None => Step::Fault(FaultKind::InvalidOperand(dest)),
        }
    }

    /// Reads the word at `*ip` and moves `*ip` past it; `None` (and `*ip`
    /// unchanged) where `*ip` lies outside memory.
    pub fn next(&self, ip: &mut usize) -> (r: Option<u16>)
        requires
            self.wf(),
        ensures
            (*old(ip) as int) < self@.mem.len() ==> r == Some(self@.mem[*old(ip) as int]) && *final(ip) == *old(ip) + 1,
            (*old(ip) as int) >= self@.mem.len() ==> r is None && *final(ip) == *old(ip),
    {
        if *ip < MEM_SIZE {
            let res = self.mem[*ip];
            *ip = *ip + 1;
            Some(res)
        } else {
            None
        }
    }

    fn word(&self, i: usize) -> (r: u16)
        requires
            self.wf(),
        ensures
            r == word_at(self@.mem, i as int),
    {
        if i < MEM_SIZE {
            self.mem[i]
        } else {
            0
        }
    }

    /// Decodes the instruction at `*ip` from memory as it is now, moving
    /// `*ip` past it.
    pub fn decode(&self, ip: &mut usize) -> (r: Result<Op, FaultKind>)
        requires
            self.wf(),
        ensures
            match decode_spec(self@.mem, *old(ip) as int) {
                Ok((op, n)) => r == Ok::<Op, FaultKind>(op) && *final(ip) as int == n,
                Err(k) => r == Err::<Op, FaultKind>(k),
            },
    {
        let start = *ip;
        let code = match self.next(ip) {
            Some(c) => c,
            None => return Err(FaultKind::AddressOutOfRange(start)),
        };
        if code > 21 {
            return Err(FaultKind::UnknownOpcode(code));
        }
        let n = op_arity(code);
        if *ip + n > MEM_SIZE {
            return Err(FaultKind::AddressOutOfRange(MEM_SIZE));
        }
        let a = self.word(*ip);
        let b = self.word(*ip + 1);
        let c = self.word(*ip + 2);
        *ip = *ip + n;
        Ok(build_op(code, a, b, c))
    }
}

impl VM {
    /// Executes `op`, where `nextip` is the address just past it, and says
    /// where to go on. Nothing changes unless the result is `Step::Next`.
    pub fn exec(&mut self, op: Op, nextip: usize) -> (r: Step)
        requires
            old(self).wf(),
            nextip <= MEM_SIZE,
        ensures
            final(self).wf(),
            (final(self)@, r) == exec_spec(old(self)@, op, nextip),
    {
        match op {
            Op::Halt => Step::Halt,
            Op::Assign(r, v) => match self.operand(v) {
                Ok(x) => self.store(r, x, nextip),
                Err(e) => Step::Fault(e),
            },
            Op::Push(v) => match self.operand(v) {
                Ok(x) => {
                    self.stack.push(x);
                    Step::Next(nextip)
                },
                Err(e) => Step::Fault(e),
            },
            Op::Pop(r) => {
                if self.stack.len() == 0 {
                    Step::Fault(FaultKind::StackUnderflow)
                } else {
                    match self.reg(r) {
                        Some(i) => {
                            let x = self.stack.pop().unwrap();
                            self.regs.set(i, x);
                            Step::Next(nextip)
                        },
                        None => Step::Fault(FaultKind::InvalidOperand(r)),
                    }
                }
            },
            Op::Eq(r, a, b) => match (self.operand(a), self.operand(b)) {
                (Ok(x), Ok(y)) => self.store(r, if x == y { 1 } else { 0 }, nextip),
                (Err(e), _) => Step::Fault(e),
                (_, Err(e)) => Step::Fault(e),
            },
            Op::Gt(r, a, b) => match (self.operand(a), self.operand(b)) {
                (Ok(x), Ok(y)) => self.store(r, if x > y { 1 } else { 0 }, nextip),
                (Err(e), _) => Step::Fault(e),
                (_, Err(e)) => Step::Fault(e),
            },
            Op::Jmp(t) => match self.operand(t) {
                Ok(x) => Step::Next(x as usize),
                Err(e) => Step::Fault(e),
            },
            Op::Jt(v, t) => match self.operand(v) {
                Ok(x) => {
                    if x != 0 {
                        match self.operand(t) {
                            Ok(y) => Step::Next(y as usize),
                            Err(e) => Step::Fault(e),
                        }
                    } else {
                        Step::Next(nextip)
                    }
                },
                Err(e) => Step::Fault(e),
            },
            Op::Jf(v, t) => match self.operand(v) {
                Ok(x) => {
                    if x == 0 {
                        match self.operand(t) {
                            Ok(y) => Step::Next(y as usize),
                            Err(e) => Step::Fault(e),
                        }
                    } else {
                        Step::Next(nextip)
                    }
                },
                Err(e) => Step::Fault(e),
            },
            Op::Add(r, a, b) => match (self.operand(a), self.operand(b)) {
                (Ok(x), Ok(y)) => self.store(r, wrap_add(x, y), nextip),
                (Err(e), _) => Step::Fault(e),
                (_, Err(e)) => Step::Fault(e),
            },
            Op::Mul(r, a, b) => match (self.operand(a), self.operand(b)) {
                (Ok(x), Ok(y)) => self.store(r, wrap_mul(x, y), nextip),
                (Err(e), _) => Step::Fault(e),
                (_, Err(e)) => Step::Fault(e),
            },
            Op::Mod(r, a, b) => match (self.operand(a), self.operand(b)) {
                (Ok(x), Ok(y)) => {
                    if y == 0 {
                        Step::Fault(FaultKind::DivisionByZero)
                    } else {
                        self.store(r, x % y, nextip)
                    }
                },
                (Err(e), _) => Step::Fault(e),
                (_, Err(e)) => Step::Fault(e),
            },
            Op::And(r, a, b) => match (self.operand(a), self.operand(b)) {
                (Ok(x), Ok(y)) => self.store(r, x & y, nextip),
                (Err(e), _) => Step::Fault(e),
                (_, Err(e)) => Step::Fault(e),
            },
            Op::Or(r, a, b) => match (self.operand(a), self.operand(b)) {
                (Ok(x), Ok(y)) => self.store(r, x | y, nextip),
                (Err(e), _) => Step::Fault(e),
                (_, Err(e)) => Step::Fault(e),
            },
            Op::Not(r, v) => match self.operand(v) {
                Ok(x) => self.store(r, mask_not(x), nextip),
                Err(e) => Step::Fault(e),
            },
            Op::Rmem(r, a) => match self.operand(a) {
                Ok(x) => {
                    if (x as usize) < MEM_SIZE {
                        let w = self.mem[x as usize];
                        self.store(r, w, nextip)
                    } else {
                        Step::Fault(FaultKind::AddressOutOfRange(x as usize))
                    }
                },
                Err(e) => Step::Fault(e),
            },
            Op::Wmem(a, v) => match (self.operand(a), self.operand(v)) {
                (Ok(x), Ok(y)) => {
                    if (x as usize) < MEM_SIZE {
                        self.mem.set(x as usize, y);
                        Step::Next(nextip)
                    } else {
                        Step::Fault(FaultKind::AddressOutOfRange(x as usize))
                    }
                },
                (Err(e), _) => Step::Fault(e),
                (_, Err(e)) => Step::Fault(e),
            },
            Op::Call(t) => match self.operand(t) {
                Ok(x) => {
                    self.stack.push(nextip as u16);
                    Step::Next(x as usize)
                },
                Err(e) => Step::Fault(e),
            },
            Op::Ret => match self.stack.pop() {
                Some(a) => Step::Next(a as usize),
                None => Step::Halt,
            },
            Op::Out(v) => match self.operand(v) {
                Ok(x) => {
                    self.outbuf.push(x);
                    Step::Next(nextip)
                },
                Err(e) => Step::Fault(e),
            },
            Op::In(r) => {
                if self.inbuf.len() == 0 {
                    if self.readin {
                        Step::AwaitInput
                    } else {
                        Step::Halt
                    }
                } else {
                    match self.reg(r) {
                        Some(i) => {
                            let c = self.inbuf.pop_front().unwrap();
                            self.regs.set(i, c as u16);
                            Step::Next(nextip)
                        },
                        None => Step::Fault(FaultKind::InvalidOperand(r)),
                    }
                }
            },
            Op::Noop => Step::Next(nextip),
        }
    }

    /// Decodes and executes the instruction at the current address; `None`
    /// where the run goes on, else how it ended.
    pub fn step(&mut self) -> (r: Option<Outcome>)
        requires
            old(self).wf(),
        ensures
            final(self).wf(),
            (final(self)@, r) == step_spec(old(self)@),
    {
        let here = self.lastip;
        let mut ip = here;
        match self.decode(&mut ip) {
            Err(k) => Some(Outcome::Faulted(Fault { kind: k, addr: here, opcode: self.opcode(here) })),
            Ok(op) => {
                let opcode = self.opcode(here);
                match self.exec(op, ip) {
                    Step::Next(n) => {
                        self.lastip = n;
                        None
                    },
                    Step::Halt => Some(Outcome::Halted),
                    Step::AwaitInput => Some(Outcome::AwaitingInput),
                    Step::Fault(k) => Some(Outcome::Faulted(Fault { kind: k, addr: here, opcode })),
                }
            },
        }
    }

    fn opcode(&self, ip: usize) -> (r: Option<u16>)
        requires
            self.wf(),
        ensures
            r == opcode_at(self@.mem, ip),
    {
        if ip < MEM_SIZE {
            Some(self.mem[ip])
        } else {
            None
        }
    }

    /// Runs at most `fuel` cycles from the current address. A run that ends
    /// leaves the address at the instruction that ended it, so that running
    /// again (after feeding input, say) resumes there.
    pub fn run(&mut self, fuel: u64) -> (r: Outcome)
        requires
            old(self).wf(),
        ensures
            final(self).wf(),
            (final(self)@, r) == run_spec(old(self)@, fuel as nat),
    {
        let mut left = fuel;
        while left > 0
            invariant
                self.wf(),
                run_spec(old(self)@, fuel as nat) == run_spec(self@, left as nat),
            decreases left,
        {
            match self.step() {
                None => left = left - 1,
                Some(o) => return o,
            }
        }
        Outcome::OutOfFuel
    }
}

/// The word that bytes `lo` and `hi` make, low byte first.
pub fn read_le(lo: u8, hi: u8) -> (r: u16)
    ensures
        r == le_word(lo, hi),
{
    lo as u16 + 256 * (hi as u16)
}

impl VM {
    /// Loads a program image at address 0, one little-endian word per two
    /// bytes; a trailing odd byte is ignored. An image of more than 32768
    /// whole words is refused and nothing changes.
    pub fn load(&mut self, program: Vec<u8>) -> (r: Result<(), LoadError>)
        requires
            old(self).wf(),
        ensures
            final(self).wf(),
            program@.len() / 2 > 32768 ==> r == Err::<(), LoadError>(LoadError::TooLarge)
                && final(self)@ == old(self)@,
            program@.len() / 2 <= 32768 ==> r is Ok
                && final(self)@ == (MachineState { mem: loaded(old(self)@.mem, program@), ..old(self)@ }),
    {
        let words = program.len() / 2;
        if words > MEM_SIZE {
            return Err(LoadError::TooLarge);
        }
        let mut i: usize = 0;
        while i < words
            invariant
                self.wf(),
                words == program@.len() / 2,
                words <= MEM_SIZE,
                i <= words,
                self@ == (MachineState { mem: self@.mem, ..old(self)@ }),
                forall|j: int| 0 <= j < 32768 ==> #[trigger] self@.mem[j] == (if j < i {
                    le_word(program@[2 * j], program@[2 * j + 1])
                } else {
                    old(self)@.mem[j]
                }),
            decreases words - i,
        {
            let w = read_le(program[2 * i], program[2 * i + 1]);
            self.mem.set(i, w);
            i = i + 1;
        }
        assert(self@.mem =~= loaded(old(self)@.mem, program@));
        Ok(())
    }

    /// Reads memory at `addr`.
    pub fn read_mem(&self, addr: usize) -> (r: Result<u16, FaultKind>)
        requires
            self.wf(),
        ensures
            addr < 32768 ==> r == Ok::<u16, FaultKind>(self@.mem[addr as int]),
            addr >= 32768 ==> r == Err::<u16, FaultKind>(FaultKind::AddressOutOfRange(addr)),
    {
        if addr < MEM_SIZE {
            Ok(self.mem[addr])
        } else {
            Err(FaultKind::AddressOutOfRange(addr))
        }
    }

    /// Writes `value` to memory at `addr`; the hook through which a driver
    /// patches a loaded image.
    pub fn write_mem(&mut self, addr: usize, value: u16) -> (r: Result<(), FaultKind>)
        requires
            old(self).wf(),
        ensures
            final(self).wf(),
            addr < 32768 ==> r is Ok && final(self)@ == (MachineState {
                mem: old(self)@.mem.update(addr as int, value),
                ..old(self)@
            }),
            addr >= 32768 ==> r == Err::<(), FaultKind>(FaultKind::AddressOutOfRange(addr))
                && final(self)@ == old(self)@,
    {
        if addr < MEM_SIZE {
            self.mem.set(addr, value);
            Ok(())
        } else {
            Err(FaultKind::AddressOutOfRange(addr))
        }
    }

    /// Appends `bytes` to the input queue.
    pub fn feed(&mut self, bytes: &Vec<u8>)
        requires
            old(self).wf(),
        ensures
            final(self).wf(),
            final(self)@ == (MachineState { input: old(self)@.input + bytes@, ..old(self)@ }),
    {
        let mut i: usize = 0;
        while i < bytes.len()
            invariant
                self.wf(),
                i <= bytes@.len(),
                self@ == (MachineState { input: old(self)@.input + bytes@.subrange(0, i as int), ..old(self)@ }),
            decreases bytes@.len() - i,
        {
            self.inbuf.push_back(bytes[i]);
            i = i + 1;
            assert(old(self)@.input + bytes@.subrange(0, i as int) =~= self@.input);
        }
        assert(bytes@.subrange(0, i as int) =~= bytes@);
    }

    /// The character codes emitted so far.
    pub fn output(&self) -> (r: &Vec<u16>)
        ensures
            r@ == self@.output,
    {
        &self.outbuf
    }

    /// Empties the output sink.
    pub fn clear_output(&mut self)
        requires
            old(self).wf(),
        ensures
            final(self).wf(),
            final(self)@ == (MachineState { output: Seq::empty(), ..old(self)@ }),
    {
        self.outbuf.clear();
    }

    /// Number of bytes waiting in the input queue.
    pub fn pending_input(&self) -> (r: usize)
        ensures
            r == self@.input.len(),
    {
        self.inbuf.len()
    }

    /// Content of register `i`.
    pub fn register(&self, i: usize) -> (r: u16)
        requires
            self.wf(),
            i < 8,
        ensures
            r == self@.regs[i as int],
    {
        self.regs[i]
    }

    /// The stack, bottom first.
    pub fn stack(&self) -> (r: &Vec<u16>)
        ensures
            r@ == self@.stack,
    {
        &self.stack
    }

    /// Address of the instruction that runs next.
    pub fn ip(&self) -> (r: usize)
        ensures
            r == self@.ip,
    {
        self.lastip
    }
}

/// Number of argument words after opcode `code`.
fn op_arity(code: u16) -> (r: usize)
    requires
        code <= 21,
    ensures
        r == arity(code),
{
    if code == 0 || code == 18 || code == 21 {
        0
    } else if code == 2 || code == 3 || code == 6 || code == 17 || code == 19 || code == 20 {
        1
    } else if code == 1 || code == 7 || code == 8 || code == 14 || code == 15 || code == 16 {
        2
    } else {
        3
    }
}

/// The instruction that opcode `code` names, with its argument words.
fn build_op(code: u16, a: u16, b: u16, c: u16) -> (r: Op)
    ensures
        r == op_of(code, a, b, c),
{
    match code {
        0 => Op::Halt,
        1 => Op::Assign(a, b),
        2 => Op::Push(a),
        3 => Op::Pop(a),
        4 => Op::Eq(a, b, c),
        5 => Op::Gt(a, b, c),
        6 => Op::Jmp(a),
        7 => Op::Jt(a, b),
        8 => Op::Jf(a, b),
        9 => Op::Add(a, b, c),
        10 => Op::Mul(a, b, c),
        11 => Op::Mod(a, b, c),
        12 => Op::And(a, b, c),
        13 => Op::Or(a, b, c),
        14 => Op::Not(a, b),
        15 => Op::Rmem(a, b),
        16 => Op::Wmem(a, b),
        17 => Op::Call(a),
        18 => Op::Ret,
        19 => Op::Out(a),
        20 => Op::In(a),
        _ => Op::Noop,
    }
}

} // verus!
