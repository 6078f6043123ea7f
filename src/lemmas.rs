//! Laws of the machine, proved over its model.
use vstd::prelude::*;

use crate::op::{decode_spec, Op};
use crate::vm::{state_wf, step_spec, MachineState};
use crate::word::{add_spec, mul_spec, not_spec, resolve};

verus! {

/// A literal argument resolves to itself, whatever the registers hold.
pub proof fn lemma_literal_resolves_to_itself(regs: Seq<u16>, v: u16)
    requires
        v < 32768,
    ensures
        resolve(regs, v) == Some(v),
{
}

/// A register argument resolves to that register's current value, and two
/// register files that agree on that register resolve it alike, however the
/// other registers differ.
pub proof fn lemma_register_resolves_to_its_value(regs: Seq<u16>, other: Seq<u16>, i: u16)
    requires
        regs.len() == 8,
        other.len() == 8,
        i < 8,
        regs[i as int] == other[i as int],
    ensures
        resolve(regs, (32768 + i) as u16) == Some(regs[i as int]),
        resolve(regs, (32768 + i) as u16) == resolve(other, (32768 + i) as u16),
{
}

/// Sums and products modulo 32768 lie below 32768.
pub proof fn lemma_wrapped_results_in_range(a: u16, b: u16)
    ensures
        add_spec(a, b) < 32768,
        mul_spec(a, b) < 32768,
{
}

/// The 15-bit complement lies below 32768.
pub proof fn lemma_not_is_15_bit(v: u16)
    ensures
        not_spec(v) == !v & 0x7FFFu16,
        not_spec(v) < 32768,
{
    assert(!v & 0x7FFFu16 <= 0x7FFFu16) by (bit_vector);
}

/// A `call` whose target holds `ret`: the two steps bring control back to
/// the word just past the `call` (two words long), with the stack and
/// everything else as before.
pub proof fn lemma_call_then_ret(s: MachineState)
    requires
        state_wf(s),
        s.ip + 1 < 32768,
        s.mem[s.ip as int] == 17,
        resolve(s.regs, s.mem[s.ip + 1]) matches Some(x) && x < 32768 && s.mem[x as int] == 18,
    ensures
        step_spec(s).1 is None,
        step_spec(step_spec(s).0).1 is None,
        step_spec(step_spec(s).0).0 == (MachineState { ip: (s.ip + 2) as usize, ..s }),
{
    let t = step_spec(s).0;
    assert(t.stack =~= s.stack.push((s.ip + 2) as u16));
    assert(t.stack.drop_last() =~= s.stack);
}

/// After a `wmem` of `y` at address `x`, decoding at `x` reads the new
/// memory: it gives what decoding the old memory with that one cell
/// replaced gives.
pub proof fn lemma_decode_sees_wmem(s: MachineState, x: u16, y: u16)
    requires
        state_wf(s),
        decode_spec(s.mem, s.ip as int) matches Ok((Op::Wmem(a, v), _)) && resolve(s.regs, a)
            == Some(x) && resolve(s.regs, v) == Some(y),
        x < 32768,
    ensures
        step_spec(s).1 is None,
        step_spec(s).0.mem[x as int] == y,
        decode_spec(step_spec(s).0.mem, x as int) == decode_spec(s.mem.update(x as int, y), x as int),
        y > 21 ==> decode_spec(step_spec(s).0.mem, x as int) == Err::<(Op, int), crate::op::FaultKind>(
            crate::op::FaultKind::UnknownOpcode(y),
        ),
{
}

} // verus!
