//! Human-readable text for arguments and instructions, and listings of
//! memory decoded without executing it.
use vstd::prelude::*;
use vstd::string::*;

use crate::op::{decode_spec, Op};
use crate::vm::VM;

verus! {

/// The text of one digit (below 16), lower-case for hexadecimal.
pub open spec fn digit_text(d: nat) -> Seq<char> {
    if d == 0 { "0"@ }
    else if d == 1 { "1"@ }
    else if d == 2 { "2"@ }
    else if d == 3 { "3"@ }
    else if d == 4 { "4"@ }
    else if d == 5 { "5"@ }
    else if d == 6 { "6"@ }
    else if d == 7 { "7"@ }
    else if d == 8 { "8"@ }
    else if d == 9 { "9"@ }
    else if d == 10 { "a"@ }
    else if d == 11 { "b"@ }
    else if d == 12 { "c"@ }
    else if d == 13 { "d"@ }
    else if d == 14 { "e"@ }
    else { "f"@ }
}

/// `n` written in base `base` (10 or 16), most significant digit first, with
/// no leading zeros.
pub open spec fn digits(n: nat, base: nat) -> Seq<char>
    decreases n,
    via digits_decreases
{
    if base < 2 || n < base {
        digit_text(n)
    } else {
        digits(n / base, base) + digit_text(n % base)
    }
}

#[via_fn]
proof fn digits_decreases(n: nat, base: nat) {
    if !(base < 2 || n < base) {
        assert(n / base < n) by (nonlinear_arith)
            requires
                base >= 2,
                n >= base,
        ;
    }
}

/// A literal in hexadecimal; a register reference as `r` and its 1-based
/// number.
pub open spec fn arg_text(arg: u16) -> Seq<char> {
    if arg < 32768 {
        digits(arg as nat, 16)
    } else {
        "r"@ + digits((arg - 32767) as nat, 10)
    }
}

/// `dest <- a <sym> b` for a three-operand instruction.
pub open spec fn binary_text(r: u16, a: u16, sym: Seq<char>, b: u16) -> Seq<char> {
    arg_text(r) + " <- "@ + arg_text(a) + sym + arg_text(b)
}

/// The one-line text of an instruction.
pub open spec fn op_text(op: Op) -> Seq<char> {
    match op {
        Op::Halt => "hlt"@,
        Op::Assign(t, v) => arg_text(t) + " <- "@ + arg_text(v),
        Op::Push(v) => "push "@ + arg_text(v),
        Op::Pop(r) => arg_text(r) + " <- pop"@,
        Op::Eq(r, a, b) => binary_text(r, a, " == "@, b),
        Op::Gt(r, a, b) => binary_text(r, a, " > "@, b),
        Op::Jmp(t) => "jmp "@ + arg_text(t),
        Op::Jt(v, t) => "jmp "@ + arg_text(t) + " if "@ + arg_text(v),
        Op::Jf(v, t) => "jmp "@ + arg_text(t) + " if not "@ + arg_text(v),
        Op::Add(r, a, b) => binary_text(r, a, " + "@, b),
        Op::Mul(r, a, b) => binary_text(r, a, " * "@, b),
        Op::Mod(r, a, b) => binary_text(r, a, " % "@, b),
        Op::And(r, a, b) => binary_text(r, a, " & "@, b),
        Op::Or(r, a, b) => binary_text(r, a, " | "@, b),
        Op::Not(t, v) => arg_text(t) + " <- ! "@ + arg_text(v),
        Op::Rmem(t, v) => arg_text(t) + " <- read mem at "@ + arg_text(v),
        Op::Wmem(t, v) => "write mem at "@ + arg_text(t) + " <- "@ + arg_text(v),
        Op::Call(a) => "call "@ + arg_text(a),
        Op::Ret => "ret"@,
        Op::Out(v) => "print "@ + arg_text(v),
        Op::In(t) => arg_text(t) + " <- input"@,
        Op::Noop => "---"@,
    }
}

fn digit_str(d: u16) -> (r: &'static str)
    requires
        d < 16,
    ensures
        r@ == digit_text(d as nat),
{
    if d == 0 { "0" }
    else if d == 1 { "1" }
    else if d == 2 { "2" }
    else if d == 3 { "3" }
    else if d == 4 { "4" }
    else if d == 5 { "5" }
    else if d == 6 { "6" }
    else if d == 7 { "7" }
    else if d == 8 { "8" }
    else if d == 9 { "9" }
    else if d == 10 { "a" }
    else if d == 11 { "b" }
    else if d == 12 { "c" }
    else if d == 13 { "d" }
    else if d == 14 { "e" }
    else { "f" }
}

fn push_digits(out: &mut String, n: u64, base: u64)
    requires
        base == 10 || base == 16,
    ensures
        final(out)@ == old(out)@ + digits(n as nat, base as nat),
    decreases n,
{
    if n >= base {
        push_digits(out, n / base, base);
        out.append(digit_str((n % base) as u16));
        assert(out@ =~= old(out)@ + digits(n as nat, base as nat));
    } else {
        out.append(digit_str(n as u16));
    }
}

/// The text of one argument word.
pub fn fmt_arg(arg: u16) -> (r: String)
    ensures
        r@ == arg_text(arg),
{
    if arg < 32768 {
        let mut s = String::new();
        push_digits(&mut s, arg as u64, 16);
        assert(s@ =~= arg_text(arg));
        s
    } else {
        let mut s = String::from_str("r");
        push_digits(&mut s, (arg - 32767) as u64, 10);
        s
    }
}

fn binary_str(r: u16, a: u16, sym: &str, b: u16) -> (s: String)
    ensures
        s@ == binary_text(r, a, sym@, b),
{
    let mut s = fmt_arg(r);
    s.append(" <- ");
    s.append(fmt_arg(a).as_str());
    s.append(sym);
    s.append(fmt_arg(b).as_str());
    s
}

/// `prefix`, then the text of `arg`.
fn prefixed(prefix: &str, arg: u16) -> (s: String)
    ensures
        s@ == prefix@ + arg_text(arg),
{
    let mut s = String::from_str(prefix);
    s.append(fmt_arg(arg).as_str());
    s
}

/// The text of `arg`, then `suffix`.
fn suffixed(arg: u16, suffix: &str) -> (s: String)
    ensures
        s@ == arg_text(arg) + suffix@,
{
    let mut s = fmt_arg(arg);
    s.append(suffix);
    s
}

impl Op {
    /// The one-line text of this instruction, as a listing shows it.
    pub fn text(&self) -> (r: String)
        ensures
            r@ == op_text(*self),
    {
        match *self {
            Op::Halt => String::from_str("hlt"),
            Op::Assign(t, v) => {
                let mut s = suffixed(t, " <- ");
                s.append(fmt_arg(v).as_str());
                s
            },
            Op::Push(v) => prefixed("push ", v),
            Op::Pop(r) => suffixed(r, " <- pop"),
            Op::Eq(r, a, b) => binary_str(r, a, " == ", b),
            Op::Gt(r, a, b) => binary_str(r, a, " > ", b),
            Op::Jmp(t) => prefixed("jmp ", t),
            Op::Jt(v, t) => {
                let mut s = prefixed("jmp ", t);
                s.append(" if ");
                s.append(fmt_arg(v).as_str());
                s
            },
            Op::Jf(v, t) => {
                let mut s = prefixed("jmp ", t);
                s.append(" if not ");
                s.append(fmt_arg(v).as_str());
                s
            },
            Op::Add(r, a, b) => binary_str(r, a, " + ", b),
            Op::Mul(r, a, b) => binary_str(r, a, " * ", b),
            Op::Mod(r, a, b) => binary_str(r, a, " % ", b),
            Op::And(r, a, b) => binary_str(r, a, " & ", b),
            Op::Or(r, a, b) => binary_str(r, a, " | ", b),
            Op::Not(t, v) => {
                let mut s = suffixed(t, " <- ! ");
                s.append(fmt_arg(v).as_str());
                s
            },
            Op::Rmem(t, v) => {
                let mut s = suffixed(t, " <- read mem at ");
                s.append(fmt_arg(v).as_str());
                s
            },
            Op::Wmem(t, v) => {
                let mut s = prefixed("write mem at ", t);
                s.append(" <- ");
                s.append(fmt_arg(v).as_str());
                s
            },
            Op::Call(a) => prefixed("call ", a),
            Op::Ret => String::from_str("ret"),
            Op::Out(v) => prefixed("print ", v),
            Op::In(t) => suffixed(t, " <- input"),
            Op::Noop => String::from_str("---"),
        }
    }
}

/// The low `width` hexadecimal digits of `n`, zeros in front.
pub open spec fn fixed_hex(n: nat, width: nat) -> Seq<char>
    decreases width,
{
    if width == 0 {
        Seq::empty()
    } else {
        fixed_hex(n / 16, (width - 1) as nat) + digit_text(n % 16)
    }
}

/// An address in a listing: six hexadecimal digits, or more where it needs them.
pub open spec fn addr_text(addr: nat) -> Seq<char> {
    if addr < 0x1000000 {
        fixed_hex(addr, 6)
    } else {
        digits(addr, 16)
    }
}

/// One line of a listing: `[address] instruction`.
pub open spec fn line_text(addr: nat, op: Op) -> Seq<char> {
    "["@ + addr_text(addr) + "] "@ + op_text(op)
}

fn push_fixed_hex(out: &mut String, n: u64, width: u64)
    ensures
        final(out)@ == old(out)@ + fixed_hex(n as nat, width as nat),
    decreases width,
{
    if width > 0 {
        push_fixed_hex(out, n / 16, width - 1);
        out.append(digit_str((n % 16) as u16));
        assert(out@ =~= old(out)@ + fixed_hex(n as nat, width as nat));
    } else {
        assert(out@ =~= old(out)@ + fixed_hex(n as nat, width as nat));
    }
}

/// The listing line for the instruction `op` at `addr`.
pub fn fmt_line(addr: usize, op: &Op) -> (r: String)
    ensures
        r@ == line_text(addr as nat, *op),
{
    let mut s = String::from_str("[");
    if addr < 0x1000000 {
        push_fixed_hex(&mut s, addr as u64, 6);
    } else {
        push_digits(&mut s, addr as u64, 16);
    }
    s.append("] ");
    s.append(op.text().as_str());
    s
}

/// Up to `count` instructions decoded one after another from `ip`, each with
/// its address; the listing stops early at the first that does not decode.
pub open spec fn listing(mem: Seq<u16>, ip: int, count: nat) -> Seq<(usize, Op)>
    decreases count,
{
    if count == 0 {
        Seq::empty()
    } else {
        match decode_spec(mem, ip) {
            Ok((op, n)) => seq![(ip as usize, op)] + listing(mem, n, (count - 1) as nat),
            Err(_) => Seq::empty(),
        }
    }
}

/// Decodes `count` instructions from `start` without executing them; the
/// machine is only read.
pub fn disassemble(vm: &VM, start: usize, count: usize) -> (r: Vec<(usize, Op)>)
    requires
        vm.wf(),
    ensures
        r@ == listing(vm@.mem, start as int, count as nat),
{
    let mut res: Vec<(usize, Op)> = Vec::new();
    let mut ip = start;
    let mut left = count;
    while left > 0
        invariant
            vm.wf(),
            res@ + listing(vm@.mem, ip as int, left as nat) == listing(vm@.mem, start as int, count as nat),
        decreases left,
    {
        let addr = ip;
        match vm.decode(&mut ip) {
            Ok(op) => {
                let ghost rest = listing(vm@.mem, ip as int, (left - 1) as nat);
                assert(seq![(addr, op)] + rest == listing(vm@.mem, addr as int, left as nat));
                let ghost before = res@;
                res.push((addr, op));
                assert(res@ + rest =~= before + (seq![(addr, op)] + rest));
                left = left - 1;
            },
            Err(_) => {
                assert(res@ + listing(vm@.mem, addr as int, left as nat) =~= res@);
                return res;
            },
        }
    }
    assert(res@ + listing(vm@.mem, ip as int, 0) =~= res@);
    res
}

} // verus!
