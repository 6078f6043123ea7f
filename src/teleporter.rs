//! The modified Ackermann function that the teleporter's check computes,
//! with memoisation tables; all values are taken modulo 32768.
use vstd::prelude::*;

verus! {

/// Rows of the memo tables: first arguments 0 to 5.
pub const ACK_ROWS: usize = 6;

/// Columns of the memo tables: every second argument below 32768.
pub const ACK_COLS: usize = 32768;

/// The function: `(n + 1) mod 32768` when `m` is 0; `A(m - 1, r)` when `n`
/// is 0; else `A(m - 1, A(m, n - 1))`.
pub open spec fn ack_spec(m: nat, n: nat, r: nat) -> nat
    decreases m, n,
{
    if m == 0 {
        (n + 1) % 32768
    } else if n == 0 {
        ack_spec((m - 1) as nat, r, r)
    } else {
        ack_spec((m - 1) as nat, ack_spec(m, (n - 1) as nat, r), r)
    }
}

/// Every value of the function lies below 32768.
pub proof fn lemma_ack_bound(m: nat, n: nat, r: nat)
    ensures
        ack_spec(m, n, r) < 32768,
    decreases m, n,
{
    if m == 0 {
    } else if n == 0 {
        lemma_ack_bound((m - 1) as nat, r, r);
    } else {
        lemma_ack_bound(m, (n - 1) as nat, r);
        lemma_ack_bound((m - 1) as nat, ack_spec(m, (n - 1) as nat, r), r);
    }
}

/// Tables of the right size where every cell marked done holds the
/// function's value at row `i / 32768`, column `i % 32768`.
pub open spec fn memo_ok(done: Seq<bool>, tab: Seq<u16>, r: nat) -> bool {
    &&& done.len() == ACK_ROWS * ACK_COLS
    &&& tab.len() == ACK_ROWS * ACK_COLS
    &&& forall|i: int|
        0 <= i < done.len() && #[trigger] done[i] ==> tab[i] as nat == ack_spec(
            (i / 32768) as nat,
            (i % 32768) as nat,
            r,
        )
}

/// Empty memo tables, good for any `r`.
pub fn ack_tables() -> (t: (Vec<bool>, Vec<u16>))
    ensures
        forall|r: nat| memo_ok(t.0@, t.1@, r),
{
    let done: Vec<bool> = vec![false; ACK_ROWS * ACK_COLS];
    let tab: Vec<u16> = vec![0u16; ACK_ROWS * ACK_COLS];
    (done, tab)
}

/// The function at `(m, n)` with parameter `r`, reading and filling the
/// memo tables.
pub fn ack(m: u16, n: u16, r: u16, done: &mut Vec<bool>, tab: &mut Vec<u16>) -> (res: u16)
    requires
        m < 6,
        n < 32768,
        r < 32768,
        memo_ok(old(done)@, old(tab)@, r as nat),
    ensures
        res as nat == ack_spec(m as nat, n as nat, r as nat),
        res < 32768,
        memo_ok(final(done)@, final(tab)@, r as nat),
    decreases m, n,
{
    let idx = ACK_COLS * m as usize + n as usize;
    assert(idx / 32768 == m && idx % 32768 == n) by (nonlinear_arith)
        requires
            idx == 32768 * m + n,
            n < 32768,
    ;
    proof {
        lemma_ack_bound(m as nat, n as nat, r as nat);
    }
    if done[idx] {
        tab[idx]
    } else if m == 0 {
        (n + 1) % 32768
    } else if n == 0 {
        ack(m - 1, r, r, done, tab)
    } else {
        let tmp = ack(m, n - 1, r, done, tab);
        let res = ack(m - 1, tmp, r, done, tab);
        tab.set(idx, res);
        done.set(idx, true);
        res
    }
}

} // verus!
