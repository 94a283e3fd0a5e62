//! What the boards' registers do, in terms of the bytes that CPU and PPU see.
use vstd::prelude::*;

pub mod bandai;
pub mod choice;
pub mod irem;
pub mod jaleco;
pub mod namco;
pub mod nintendo;
pub mod others;
pub mod passive;
pub mod patterns;
pub mod saves;
pub mod snapshots;
pub mod sunsoft;

verus! {

/// The byte at `addr` of bank `bank`, in a memory cut into banks of `size` bytes; a number past the
/// last bank wraps around.
pub open spec fn window(mem: Seq<u8>, size: int, bank: int, addr: int) -> u8 {
    mem[(bank % (mem.len() as int / size)) * size + addr % size]
}

/// A window lies inside its memory.
pub proof fn lemma_window(mem: Seq<u8>, size: int, bank: int, addr: int)
    requires
        0 < size <= mem.len(),
    ensures
        mem.len() as int / size >= 1,
        0 <= bank % (mem.len() as int / size) < mem.len() as int / size,
        0 <= addr % size < size,
        0 <= (bank % (mem.len() as int / size)) * size + addr % size < mem.len(),
        0 <= bank < mem.len() as int / size ==> bank % (mem.len() as int / size) == bank,
{
    let n = mem.len() as int;
    let count = n / size;
    assert(count >= 1 && count * size <= n) by (nonlinear_arith)
        requires
            count == n / size,
            0 < size <= n,
    ;
    let k = bank % count;
    vstd::arithmetic::div_mod::lemma_mod_bound(bank, count);
    vstd::arithmetic::div_mod::lemma_mod_bound(addr, size);
    assert(0 <= k * size && k * size + size <= count * size) by (nonlinear_arith)
        requires
            0 <= k < count,
            0 < size,
    ;
    if 0 <= bank < count {
        vstd::arithmetic::div_mod::lemma_small_mod(bank as nat, count as nat);
    }
}

} // verus!
