//! Byte memories and the bank arithmetic that every cartridge board shares.
use vstd::prelude::*;

use crate::rom::Cartridge;

verus! {

/// The byte at `i`, or `open` where the memory does not reach.
pub open spec fn byte_or(mem: Seq<u8>, i: int, open: u8) -> u8 {
    if 0 <= i < mem.len() {
        mem[i]
    } else {
        open
    }
}

/// The byte at `i`; an address past the end reads as zero.
pub open spec fn byte_at(mem: Seq<u8>, i: int) -> u8 {
    byte_or(mem, i, 0)
}

/// The memory with `data` stored at `i`; a store past the end is dropped.
pub open spec fn poked(mem: Seq<u8>, i: int, data: u8) -> Seq<u8> {
    if 0 <= i < mem.len() {
        mem.update(i, data)
    } else {
        mem
    }
}

/// `n` zero bytes.
pub open spec fn zeros(n: nat) -> Seq<u8> {
    Seq::new(n, |i: int| 0u8)
}

/// `data` where it has the length of `mem`, otherwise `mem` as it was.
pub open spec fn reloaded(mem: Seq<u8>, data: Seq<u8>) -> Seq<u8> {
    if data.len() == mem.len() {
        data
    } else {
        mem
    }
}

/// How many banks of `size` bytes a memory of `len` bytes holds, at least one.
pub open spec fn bank_count(len: nat, size: nat) -> int {
    if len / size > 1 {
        (len / size) as int
    } else {
        1
    }
}

/// Offset of `addr` inside bank `bank`, for windows aligned to the bank size.
pub open spec fn in_bank(bank: int, size: int, addr: int) -> int {
    bank * size + addr % size
}

/// Whether the cart's two RAM sizes can be allocated together.
pub open spec fn ram_fits(cart: Cartridge) -> bool {
    cart.prg_ram_size + cart.prg_nvram_size <= isize::MAX
}

/// Bytes of work RAM: what the header declares, and `least` at the least.
pub open spec fn ram_size(cart: Cartridge, least: nat) -> nat {
    let total = (cart.prg_ram_size + cart.prg_nvram_size) as nat;
    if total > least {
        total
    } else {
        least
    }
}

/// Whether the board's pattern memory is RAM: the header says so, or ships no CHR-ROM.
pub open spec fn has_chr_ram(cart: Cartridge) -> bool {
    cart.chr_ram || cart.chr_rom@.len() == 0
}

/// Pattern memory at power-on: blank RAM of `size` bytes, or the CHR-ROM.
pub open spec fn chr_image(cart: Cartridge, size: nat) -> Seq<u8> {
    if has_chr_ram(cart) {
        zeros(size)
    } else {
        cart.chr_rom@
    }
}

/// What a save state keeps of pattern memory: its bytes when it is RAM, else nothing.
pub open spec fn ram_copy(is_ram: bool, mem: Seq<u8>) -> Seq<u8> {
    if is_ram {
        mem
    } else {
        Seq::empty()
    }
}

/// Pattern memory after a save state is applied: only RAM of the same size is replaced.
pub open spec fn ram_restored(is_ram: bool, mem: Seq<u8>, data: Seq<u8>) -> Seq<u8> {
    if is_ram {
        reloaded(mem, data)
    } else {
        mem
    }
}

/// Battery RAM is dirty once a store has changed a byte.
pub open spec fn dirtied(ram: Seq<u8>, battery: bool, dirty: bool, i: int, data: u8) -> bool {
    dirty || (battery && 0 <= i < ram.len() && ram[i] != data)
}

/// `x` with `byte` for its low byte.
pub open spec fn with_low_byte(x: u16, byte: u8) -> u16 {
    (x / 0x100 * 0x100 + byte) as u16
}

/// `x` with `byte` for its high byte.
pub open spec fn with_high_byte(x: u16, byte: u8) -> u16 {
    (byte * 0x100 + x % 0x100) as u16
}

pub fn set_low_byte(x: u16, byte: u8) -> (y: u16)
    ensures
        y == with_low_byte(x, byte),
{
    x / 0x100 * 0x100 + byte as u16
}

pub fn set_high_byte(x: u16, byte: u8) -> (y: u16)
    ensures
        y == with_high_byte(x, byte),
{
    byte as u16 * 0x100 + x % 0x100
}

pub fn read_or(mem: &Vec<u8>, i: usize, open: u8) -> (byte: u8)
    ensures
        byte == byte_or(mem@, i as int, open),
{
    if i < mem.len() {
        mem[i]
    } else {
        open
    }
}

pub fn read_at(mem: &Vec<u8>, i: usize) -> (byte: u8)
    ensures
        byte == byte_at(mem@, i as int),
{
    read_or(mem, i, 0)
}

pub fn poke(mem: &mut Vec<u8>, i: usize, data: u8)
    ensures
        final(mem)@ == poked(old(mem)@, i as int, data),
{
    if i < mem.len() {
        mem[i] = data;
    }
}

/// Stores into work RAM and keeps the dirty flag of a battery-backed cart.
pub fn poke_ram(ram: &mut Vec<u8>, dirty: &mut bool, battery: bool, i: usize, data: u8)
    ensures
        final(ram)@ == poked(old(ram)@, i as int, data),
        *final(dirty) == dirtied(old(ram)@, battery, *old(dirty), i as int, data),
{
    if i < ram.len() {
        if ram[i] != data {
            ram[i] = data;
            if battery {
                *dirty = true;
            }
        } else {
            assert(ram@ =~= old(ram)@.update(i as int, data));
        }
    }
}

pub fn zeroed(n: usize) -> (mem: Vec<u8>)
    ensures
        mem@ == zeros(n as nat),
{
    let mem: Vec<u8> = vec![0u8; n];
    assert(mem@ =~= zeros(n as nat));
    mem
}

/// Overwrites `mem` with `data` when the lengths agree.
pub fn reload(mem: &mut Vec<u8>, data: &[u8])
    ensures
        final(mem)@ == reloaded(old(mem)@, data@),
{
    if data.len() == mem.len() {
        let n: usize = data.len();
        let mut i: usize = 0;
        while i < n
            invariant
                n == data@.len(),
                mem@.len() == n,
                i <= n,
                forall|j: int| 0 <= j < i ==> mem@[j] == data@[j],
            decreases n - i,
        {
            mem[i] = data[i];
            i = i + 1;
        }
        assert(mem@ =~= data@);
    }
}

pub fn slice_copy(bytes: &[u8]) -> (copy: Vec<u8>)
    ensures
        copy@ == bytes@,
{
    let mut copy: Vec<u8> = Vec::new();
    copy.extend_from_slice(bytes);
    assert(copy@ =~= bytes@);
    copy
}

pub fn copied(mem: &Vec<u8>) -> (copy: Vec<u8>)
    ensures
        copy@ == mem@,
{
    let copy: Vec<u8> = mem.clone();
    assert(copy@ =~= mem@);
    copy
}

pub fn copy_if_ram(is_ram: bool, mem: &Vec<u8>) -> (copy: Vec<u8>)
    ensures
        copy@ == ram_copy(is_ram, mem@),
{
    if is_ram {
        copied(mem)
    } else {
        Vec::new()
    }
}

pub fn restore_if_ram(is_ram: bool, mem: &mut Vec<u8>, data: &Vec<u8>)
    ensures
        final(mem)@ == ram_restored(is_ram, old(mem)@, data@),
{
    if is_ram {
        reload(mem, data.as_slice());
    }
}

/// How many banks of `size` bytes `mem` holds, at least one.
pub fn count_banks(mem: &Vec<u8>, size: usize) -> (count: usize)
    requires
        size > 0,
    ensures
        count == bank_count(mem@.len(), size as nat),
        count >= 1,
{
    let n: usize = mem.len() / size;
    if n > 1 {
        n
    } else {
        1
    }
}

/// Pattern memory at power-on, and whether it is RAM.
pub fn take_chr(chr_rom: Vec<u8>, chr_ram: bool, size: usize) -> (taken: (Vec<u8>, bool))
    ensures
        taken.1 == (chr_ram || chr_rom@.len() == 0),
        taken.0@ == (if taken.1 {
            zeros(size as nat)
        } else {
            chr_rom@
        }),
{
    if chr_ram || chr_rom.len() == 0 {
        (zeroed(size), true)
    } else {
        (chr_rom, false)
    }
}

pub fn work_ram(prg_ram_size: usize, prg_nvram_size: usize, least: usize) -> (mem: Vec<u8>)
    requires
        prg_ram_size + prg_nvram_size <= isize::MAX,
    ensures
        mem@ == zeros(
            if prg_ram_size + prg_nvram_size > least {
                (prg_ram_size + prg_nvram_size) as nat
            } else {
                least as nat
            },
        ),
{
    let total: usize = prg_ram_size + prg_nvram_size;
    zeroed(if total > least { total } else { least })
}

/// Offset of `addr` in bank `bank` of `mem`, which holds `count` banks of `size` bytes.
pub fn bank_offset(mem: &Vec<u8>, count: usize, bank: usize, size: usize, addr: u16) -> (i: usize)
    requires
        0 < size <= 0x8000,
        count == bank_count(mem@.len(), size as nat),
        bank < count,
    ensures
        i == in_bank(bank as int, size as int, addr as int),
{
    proof {
        lemma_bank_offset(bank as int, size as int, addr as int, count as int, mem.len() as nat);
    }
    bank * size + addr as usize % size
}

/// As [`bank_offset`], for a selector that wraps around the number of banks.
pub fn wrapped_offset(mem: &Vec<u8>, count: usize, selector: usize, size: usize, addr: u16) -> (i: usize)
    requires
        0 < size <= 0x8000,
        count == bank_count(mem@.len(), size as nat),
    ensures
        i == in_bank(selector as int % count as int, size as int, addr as int),
{
    bank_offset(mem, count, selector % count, size, addr)
}

/// As [`bank_offset`], for a selector that is masked with the number of banks less one.
pub fn masked_offset(mem: &Vec<u8>, mask: usize, selector: usize, size: usize, addr: u16) -> (i: usize)
    requires
        0 < size <= 0x8000,
        mask + 1 == bank_count(mem@.len(), size as nat),
    ensures
        i == in_bank((selector & mask) as int, size as int, addr as int),
{
    proof {
        crate::bits::lemma_mask_usize(selector, mask);
        lemma_count_fits(mem.len(), size);
    }
    bank_offset(mem, mask + 1, selector & mask, size, addr)
}

proof fn lemma_count_fits(len: usize, size: usize)
    requires
        size > 0,
    ensures
        bank_count(len as nat, size as nat) <= usize::MAX,
{
    assert(len as int / size as int <= len) by (nonlinear_arith)
        requires
            len >= 0,
            size > 0,
    ;
}

/// A bank inside a memory starts below `usize::MAX`, and so does every offset in it.
pub proof fn lemma_bank_offset(bank: int, size: int, addr: int, count: int, len: nat)
    requires
        0 < size <= 0x8000,
        count == bank_count(len, size as nat),
        len <= usize::MAX,
        0 <= bank < count,
    ensures
        0 <= bank * size,
        0 <= addr % size < size,
        bank * size + addr % size <= usize::MAX,
        bank * size + size <= usize::MAX + 1,
{
    assert(0 <= bank * size) by (nonlinear_arith)
        requires
            0 <= bank,
            0 < size,
    ;
    assert(bank * size <= (count - 1) * size) by (nonlinear_arith)
        requires
            bank <= count - 1,
            0 < size,
    ;
    if len / (size as nat) > 1 {
        assert(count * size <= len) by (nonlinear_arith)
            requires
                count == len as int / size,
                0 < size,
        ;
        assert((count - 1) * size == count * size - size) by (nonlinear_arith);
    } else {
        assert((count - 1) * size == 0) by (nonlinear_arith)
            requires
                count == 1,
        ;
    }
}

/// A store changes the byte it names and no other, and one past the end changes nothing. A read gives
/// the byte, or what is open past the end.
pub proof fn lemma_store_and_read(mem: Seq<u8>, i: int, data: u8, j: int, open: u8)
    requires
        0 <= i,
        0 <= j,
    ensures
        poked(mem, i, data).len() == mem.len(),
        i < mem.len() ==> poked(mem, i, data)[i] == data,
        j < mem.len() && j != i ==> poked(mem, i, data)[j] == mem[j],
        i >= mem.len() ==> poked(mem, i, data) == mem,
        j < mem.len() ==> byte_or(mem, j, open) == mem[j] && byte_at(mem, j) == mem[j],
        j >= mem.len() ==> byte_or(mem, j, open) == open && byte_at(mem, j) == 0,
{
}

/// A save is due once a byte of battery-backed memory has become another one, and stays due.
pub proof fn lemma_save_is_due(ram: Seq<u8>, battery: bool, dirty: bool, i: int, data: u8)
    requires
        0 <= i < ram.len(),
    ensures
        dirty ==> dirtied(ram, battery, dirty, i, data),
        !dirty ==> dirtied(ram, battery, dirty, i, data) == (battery && poked(ram, i, data) != ram),
{
    if ram[i] == data {
        assert(poked(ram, i, data) =~= ram);
    } else {
        assert(poked(ram, i, data)[i] != ram[i]);
    }
}

/// Memory is replaced as a whole, by data of its own length only.
pub proof fn lemma_replaced_as_a_whole(mem: Seq<u8>, data: Seq<u8>, is_ram: bool)
    ensures
        data.len() == mem.len() ==> reloaded(mem, data) == data,
        data.len() != mem.len() ==> reloaded(mem, data) == mem,
        is_ram ==> ram_restored(is_ram, mem, ram_copy(is_ram, mem)) == mem && ram_copy(is_ram, mem) == mem,
        !is_ram ==> ram_restored(is_ram, mem, data) == mem && ram_copy(is_ram, mem).len() == 0,
{
}

/// Work RAM is as large as the header's two sizes together, and never smaller than the board's own;
/// pattern memory is the cart's, or blank RAM where the header asks for it or brings none.
pub proof fn lemma_memories_of_a_cart(cart: Cartridge, least: nat, size: nat, i: int)
    requires
        0 <= i < size,
    ensures
        ram_size(cart, least) >= least,
        ram_size(cart, least) >= cart.prg_ram_size + cart.prg_nvram_size,
        ram_size(cart, least) == least || ram_size(cart, least) == cart.prg_ram_size + cart.prg_nvram_size,
        has_chr_ram(cart) == (cart.chr_ram || cart.chr_rom@.len() == 0),
        has_chr_ram(cart) ==> chr_image(cart, size).len() == size && chr_image(cart, size)[i] == 0,
        !has_chr_ram(cart) ==> chr_image(cart, size) == cart.chr_rom@,
        zeros(size).len() == size,
        zeros(size)[i] == 0,
{
}

/// A word's bytes are set apart from each other.
pub proof fn lemma_bytes_of_a_word(x: u16, byte: u8)
    ensures
        with_low_byte(x, byte) % 0x100 == byte,
        with_low_byte(x, byte) / 0x100 == x / 0x100,
        with_high_byte(x, byte) / 0x100 == byte,
        with_high_byte(x, byte) % 0x100 == x % 0x100,
{
}

/// Banks are whole: as many as fit, at least one, side by side.
pub proof fn lemma_banks(len: nat, bank: int, addr: int)
    ensures
        len >= 0x2000 ==> bank_count(len, 0x2000) * 0x2000 <= len < (bank_count(len, 0x2000) + 1) * 0x2000,
        len < 0x4000 ==> bank_count(len, 0x2000) == 1,
        in_bank(bank, 0x2000, addr) / 0x2000 == bank,
        in_bank(bank, 0x2000, addr) % 0x2000 == addr % 0x2000,
        in_bank(bank + 1, 0x2000, addr) == in_bank(bank, 0x2000, addr) + 0x2000,
{
}

} // verus!
