//! What the bus needs of a picture unit.
use vstd::prelude::*;

use crate::clock::Region;
use crate::mapper::Mapper;

verus! {

/// A picture unit on the bus of a cart `M`. Its registers are at `$2000-$3FFF`; it may use the
/// cart's PPU side in every call.
pub trait Ppu<M: Mapper>: Sized + View {
    spec fn ok(s: Self::V) -> bool;

    spec fn power_on(region: Region) -> Self::V;

    /// The picture unit and the cart one dot later.
    spec fn after_tick(s: Self::V, cart: M::V) -> (Self::V, M::V);

    /// The byte a register read returns.
    spec fn read_byte(s: Self::V, cart: M::V, addr: u16) -> u8;

    spec fn after_read(s: Self::V, cart: M::V, addr: u16) -> (Self::V, M::V);

    /// The byte of an aborted read, which indexed instructions make on a page crossing.
    spec fn dummy_byte(s: Self::V, cart: M::V, addr: u16) -> u8;

    spec fn after_dummy_read(s: Self::V, cart: M::V, addr: u16) -> (Self::V, M::V);

    spec fn after_write(s: Self::V, cart: M::V, addr: u16, data: u8) -> (Self::V, M::V);

    /// The level of the interrupt output.
    spec fn nmi(s: Self::V) -> bool;

    fn new(region: Region) -> (ppu: Self)
        ensures
            Self::ok(ppu@),
            ppu@ == Self::power_on(region),
    ;

    fn tick(&mut self, cart: &mut M)
        requires
            Self::ok(old(self)@),
            M::ok(old(cart)@),
        ensures
            Self::ok(final(self)@),
            M::ok(final(cart)@),
            (final(self)@, final(cart)@) == Self::after_tick(old(self)@, old(cart)@),
    ;

    fn cpu_read(&mut self, addr: u16, cart: &mut M) -> (byte: u8)
        requires
            Self::ok(old(self)@),
            M::ok(old(cart)@),
        ensures
            Self::ok(final(self)@),
            M::ok(final(cart)@),
            byte == Self::read_byte(old(self)@, old(cart)@, addr),
            (final(self)@, final(cart)@) == Self::after_read(old(self)@, old(cart)@, addr),
    ;

    fn cpu_read_dummy(&mut self, addr: u16, cart: &mut M) -> (byte: u8)
        requires
            Self::ok(old(self)@),
            M::ok(old(cart)@),
        ensures
            Self::ok(final(self)@),
            M::ok(final(cart)@),
            byte == Self::dummy_byte(old(self)@, old(cart)@, addr),
            (final(self)@, final(cart)@) == Self::after_dummy_read(old(self)@, old(cart)@, addr),
    ;

    fn cpu_write(&mut self, addr: u16, data: u8, cart: &mut M)
        requires
            Self::ok(old(self)@),
            M::ok(old(cart)@),
        ensures
            Self::ok(final(self)@),
            M::ok(final(cart)@),
            (final(self)@, final(cart)@) == Self::after_write(old(self)@, old(cart)@, addr, data),
    ;

    fn nmi_flag(&self) -> (level: bool)
        requires
            Self::ok(self@),
        ensures
            level == Self::nmi(self@),
    ;
}

/// A picture unit that draws nothing: it has sprite memory, reached through the address port
/// `$2003` and the data port `$2004`, and nothing else. Its other registers read as zero.
pub struct HeadlessPpu {
    pub oam: [u8; 256],
    pub oam_addr: u8,
}

pub struct HeadlessPpuState {
    pub oam: Seq<u8>,
    pub oam_addr: u8,
}

impl View for HeadlessPpu {
    type V = HeadlessPpuState;

    open spec fn view(&self) -> HeadlessPpuState {
        HeadlessPpuState { oam: self.oam@, oam_addr: self.oam_addr }
    }
}

impl<M: Mapper> Ppu<M> for HeadlessPpu {
    open spec fn ok(s: HeadlessPpuState) -> bool {
        s.oam.len() == 256
    }

    open spec fn power_on(region: Region) -> HeadlessPpuState {
        HeadlessPpuState { oam: crate::mem::zeros(256), oam_addr: 0 }
    }

    open spec fn after_tick(s: HeadlessPpuState, cart: M::V) -> (HeadlessPpuState, M::V) {
        (s, cart)
    }

    open spec fn read_byte(s: HeadlessPpuState, cart: M::V, addr: u16) -> u8 {
        if addr % 8 == 4 {
            s.oam[s.oam_addr as int]
        } else {
            0
        }
    }

    open spec fn after_read(s: HeadlessPpuState, cart: M::V, addr: u16) -> (HeadlessPpuState, M::V) {
        (s, cart)
    }

    open spec fn dummy_byte(s: HeadlessPpuState, cart: M::V, addr: u16) -> u8 {
        if addr % 8 == 4 {
            s.oam[s.oam_addr as int]
        } else {
            0
        }
    }

    open spec fn after_dummy_read(s: HeadlessPpuState, cart: M::V, addr: u16) -> (HeadlessPpuState, M::V) {
        (s, cart)
    }

    /// A store through the data port moves the address on.
    open spec fn after_write(s: HeadlessPpuState, cart: M::V, addr: u16, data: u8) -> (HeadlessPpuState, M::V) {
        if addr % 8 == 3 {
            (HeadlessPpuState { oam_addr: data, ..s }, cart)
        } else if addr % 8 == 4 {
            (
                HeadlessPpuState {
                    oam: s.oam.update(s.oam_addr as int, data),
                    oam_addr: ((s.oam_addr + 1) % 256) as u8,
                },
                cart,
            )
        } else {
            (s, cart)
        }
    }

    open spec fn nmi(s: HeadlessPpuState) -> bool {
        false
    }

    fn new(region: Region) -> (ppu: Self) {
        let ppu: HeadlessPpu = HeadlessPpu { oam: [0; 256], oam_addr: 0 };
        assert(ppu@.oam =~= crate::mem::zeros(256));
        ppu
    }

    fn tick(&mut self, cart: &mut M) {
    }

    fn cpu_read(&mut self, addr: u16, cart: &mut M) -> (byte: u8) {
        if addr % 8 == 4 {
            self.oam[self.oam_addr as usize]
        } else {
            0
        }
    }

    fn cpu_read_dummy(&mut self, addr: u16, cart: &mut M) -> (byte: u8) {
        if addr % 8 == 4 {
            self.oam[self.oam_addr as usize]
        } else {
            0
        }
    }

    fn cpu_write(&mut self, addr: u16, data: u8, cart: &mut M) {
        if addr % 8 == 3 {
            self.oam_addr = data;
        } else if addr % 8 == 4 {
            self.oam[self.oam_addr as usize] = data;
            self.oam_addr = self.oam_addr.wrapping_add(1);
        }
    }

    fn nmi_flag(&self) -> (level: bool) {
        false
    }
}

} // verus!
