//! Words, arguments and the arithmetic of the machine (modulo 32768).
use vstd::prelude::*;

verus! {

/// Number of addressable memory cells; also the modulus of the arithmetic.
pub const MEM_SIZE: usize = 32768;

/// First argument value that refers to a register rather than a literal.
pub const REG_BASE: u16 = 32768;

/// First argument value past the last register reference.
pub const REG_END: u16 = 32776;

/// Number of general-purpose registers.
pub const NUM_REGS: usize = 8;

/// An argument below 32768 denotes itself.
pub open spec fn is_literal(arg: u16) -> bool {
    arg < 32768
}

/// An argument in [32768, 32776) denotes one of the eight registers.
pub open spec fn is_register(arg: u16) -> bool {
    32768 <= arg < 32776
}

/// The register index that a register argument refers to.
pub open spec fn target(arg: u16) -> Option<int> {
    if is_register(arg) {
        Some(arg - 32768)
    } else {
        None
    }
}

/// The value that an argument denotes, given the register contents.
pub open spec fn resolve(regs: Seq<u16>, arg: u16) -> Option<u16> {
    if is_literal(arg) {
        Some(arg)
    } else if is_register(arg) {
        Some(regs[arg - 32768])
    } else {
        None
    }
}

pub open spec fn add_spec(a: u16, b: u16) -> u16 {
    ((a + b) % 32768) as u16
}

pub open spec fn mul_spec(a: u16, b: u16) -> u16 {
    ((a * b) % 32768) as u16
}

pub open spec fn not_spec(v: u16) -> u16 {
    !v & 0x7FFFu16
}

/// Sum modulo 32768.
pub fn wrap_add(a: u16, b: u16) -> (r: u16)
    ensures
        r == add_spec(a, b),
        r < 32768,
{
    ((a as u32 + b as u32) % 32768) as u16
}

/// Product modulo 32768.
pub fn wrap_mul(a: u16, b: u16) -> (r: u16)
    ensures
        r == mul_spec(a, b),
        r < 32768,
{
    assert(0 <= a * b <= 65535 * 65535) by (nonlinear_arith);
    ((a as u32 * b as u32) % 32768) as u16
}

/// Bitwise complement restricted to 15 bits.
pub fn mask_not(v: u16) -> (r: u16)
    ensures
        r == not_spec(v),
        r == !v & 0x7FFFu16,
        r < 32768,
{
    let r = !v & 0x7FFF;
    assert(!v & 0x7FFFu16 <= 0x7FFFu16) by (bit_vector);
    r
}

} // verus!
