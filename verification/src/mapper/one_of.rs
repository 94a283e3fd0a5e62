//! One of several boards, chosen when the cart is known.
use vstd::prelude::*;

use crate::mapper::{Mapper, NametableSource, NametableWriteTarget, PpuFetchKind};
use crate::rom::Mirroring;
use crate::save_state::mapper::MapperState;
use crate::save_state::SaveStateError;

verus! {

/// A board of one of five kinds. It does whatever the board inside does.
pub enum OneOf<A, B, C, D, E> {
    First(A),
    Second(B),
    Third(C),
    Fourth(D),
    Fifth(E),
}

/// The state of a [`OneOf`].
pub enum OneOfState<A, B, C, D, E> {
    First(A),
    Second(B),
    Third(C),
    Fourth(D),
    Fifth(E),
}

impl<A: Mapper, B: Mapper, C: Mapper, D: Mapper, E: Mapper> View for OneOf<A, B, C, D, E> {
    type V = OneOfState<A::V, B::V, C::V, D::V, E::V>;

    open spec fn view(&self) -> OneOfState<A::V, B::V, C::V, D::V, E::V> {
        match self {
            OneOf::First(m) => OneOfState::First(m@),
            OneOf::Second(m) => OneOfState::Second(m@),
            OneOf::Third(m) => OneOfState::Third(m@),
            OneOf::Fourth(m) => OneOfState::Fourth(m@),
            OneOf::Fifth(m) => OneOfState::Fifth(m@),
        }
    }
}

impl<A: Mapper, B: Mapper, C: Mapper, D: Mapper, E: Mapper> Mapper for OneOf<A, B, C, D, E> {
    open spec fn ok(s: Self::V) -> bool {
        match s {
            OneOfState::First(x) => A::ok(x),
            OneOfState::Second(x) => B::ok(x),
            OneOfState::Third(x) => C::ok(x),
            OneOfState::Fourth(x) => D::ok(x),
            OneOfState::Fifth(x) => E::ok(x),
        }
    }

    open spec fn cpu_byte(s: Self::V, addr: u16) -> u8 {
        match s {
            OneOfState::First(x) => A::cpu_byte(x, addr),
            OneOfState::Second(x) => B::cpu_byte(x, addr),
            OneOfState::Third(x) => C::cpu_byte(x, addr),
            OneOfState::Fourth(x) => D::cpu_byte(x, addr),
            OneOfState::Fifth(x) => E::cpu_byte(x, addr),
        }
    }

    open spec fn peeked(s: Self::V, addr: u16) -> u8 {
        match s {
            OneOfState::First(x) => A::peeked(x, addr),
            OneOfState::Second(x) => B::peeked(x, addr),
            OneOfState::Third(x) => C::peeked(x, addr),
            OneOfState::Fourth(x) => D::peeked(x, addr),
            OneOfState::Fifth(x) => E::peeked(x, addr),
        }
    }

    open spec fn after_cpu_read(s: Self::V, addr: u16) -> Self::V {
        match s {
            OneOfState::First(x) => OneOfState::First(A::after_cpu_read(x, addr)),
            OneOfState::Second(x) => OneOfState::Second(B::after_cpu_read(x, addr)),
            OneOfState::Third(x) => OneOfState::Third(C::after_cpu_read(x, addr)),
            OneOfState::Fourth(x) => OneOfState::Fourth(D::after_cpu_read(x, addr)),
            OneOfState::Fifth(x) => OneOfState::Fifth(E::after_cpu_read(x, addr)),
        }
    }

    open spec fn after_cpu_write(s: Self::V, addr: u16, data: u8) -> Self::V {
        match s {
            OneOfState::First(x) => OneOfState::First(A::after_cpu_write(x, addr, data)),
            OneOfState::Second(x) => OneOfState::Second(B::after_cpu_write(x, addr, data)),
            OneOfState::Third(x) => OneOfState::Third(C::after_cpu_write(x, addr, data)),
            OneOfState::Fourth(x) => OneOfState::Fourth(D::after_cpu_write(x, addr, data)),
            OneOfState::Fifth(x) => OneOfState::Fifth(E::after_cpu_write(x, addr, data)),
        }
    }

    open spec fn expansion_byte(s: Self::V, addr: u16) -> Option<u8> {
        match s {
            OneOfState::First(x) => A::expansion_byte(x, addr),
            OneOfState::Second(x) => B::expansion_byte(x, addr),
            OneOfState::Third(x) => C::expansion_byte(x, addr),
            OneOfState::Fourth(x) => D::expansion_byte(x, addr),
            OneOfState::Fifth(x) => E::expansion_byte(x, addr),
        }
    }

    open spec fn after_expansion_read(s: Self::V, addr: u16) -> Self::V {
        match s {
            OneOfState::First(x) => OneOfState::First(A::after_expansion_read(x, addr)),
            OneOfState::Second(x) => OneOfState::Second(B::after_expansion_read(x, addr)),
            OneOfState::Third(x) => OneOfState::Third(C::after_expansion_read(x, addr)),
            OneOfState::Fourth(x) => OneOfState::Fourth(D::after_expansion_read(x, addr)),
            OneOfState::Fifth(x) => OneOfState::Fifth(E::after_expansion_read(x, addr)),
        }
    }

    open spec fn ppu_byte(s: Self::V, addr: u16) -> u8 {
        match s {
            OneOfState::First(x) => A::ppu_byte(x, addr),
            OneOfState::Second(x) => B::ppu_byte(x, addr),
            OneOfState::Third(x) => C::ppu_byte(x, addr),
            OneOfState::Fourth(x) => D::ppu_byte(x, addr),
            OneOfState::Fifth(x) => E::ppu_byte(x, addr),
        }
    }

    open spec fn after_ppu_read(s: Self::V, addr: u16) -> Self::V {
        match s {
            OneOfState::First(x) => OneOfState::First(A::after_ppu_read(x, addr)),
            OneOfState::Second(x) => OneOfState::Second(B::after_ppu_read(x, addr)),
            OneOfState::Third(x) => OneOfState::Third(C::after_ppu_read(x, addr)),
            OneOfState::Fourth(x) => OneOfState::Fourth(D::after_ppu_read(x, addr)),
            OneOfState::Fifth(x) => OneOfState::Fifth(E::after_ppu_read(x, addr)),
        }
    }

    open spec fn after_ppu_write(s: Self::V, addr: u16, data: u8) -> Self::V {
        match s {
            OneOfState::First(x) => OneOfState::First(A::after_ppu_write(x, addr, data)),
            OneOfState::Second(x) => OneOfState::Second(B::after_ppu_write(x, addr, data)),
            OneOfState::Third(x) => OneOfState::Third(C::after_ppu_write(x, addr, data)),
            OneOfState::Fourth(x) => OneOfState::Fourth(D::after_ppu_write(x, addr, data)),
            OneOfState::Fifth(x) => OneOfState::Fifth(E::after_ppu_write(x, addr, data)),
        }
    }

    open spec fn mirrored(s: Self::V) -> Mirroring {
        match s {
            OneOfState::First(x) => A::mirrored(x),
            OneOfState::Second(x) => B::mirrored(x),
            OneOfState::Third(x) => C::mirrored(x),
            OneOfState::Fourth(x) => D::mirrored(x),
            OneOfState::Fifth(x) => E::mirrored(x),
        }
    }

    open spec fn after_cpu_cycle(s: Self::V) -> Self::V {
        match s {
            OneOfState::First(x) => OneOfState::First(A::after_cpu_cycle(x)),
            OneOfState::Second(x) => OneOfState::Second(B::after_cpu_cycle(x)),
            OneOfState::Third(x) => OneOfState::Third(C::after_cpu_cycle(x)),
            OneOfState::Fourth(x) => OneOfState::Fourth(D::after_cpu_cycle(x)),
            OneOfState::Fifth(x) => OneOfState::Fifth(E::after_cpu_cycle(x)),
        }
    }

    open spec fn irq(s: Self::V) -> bool {
        match s {
            OneOfState::First(x) => A::irq(x),
            OneOfState::Second(x) => B::irq(x),
            OneOfState::Third(x) => C::irq(x),
            OneOfState::Fourth(x) => D::irq(x),
            OneOfState::Fifth(x) => E::irq(x),
        }
    }

    open spec fn nametable_source(s: Self::V, slot: u8, offset: u16) -> NametableSource {
        match s {
            OneOfState::First(x) => A::nametable_source(x, slot, offset),
            OneOfState::Second(x) => B::nametable_source(x, slot, offset),
            OneOfState::Third(x) => C::nametable_source(x, slot, offset),
            OneOfState::Fourth(x) => D::nametable_source(x, slot, offset),
            OneOfState::Fifth(x) => E::nametable_source(x, slot, offset),
        }
    }

    open spec fn after_nametable_read(s: Self::V, slot: u8, offset: u16) -> Self::V {
        match s {
            OneOfState::First(x) => OneOfState::First(A::after_nametable_read(x, slot, offset)),
            OneOfState::Second(x) => OneOfState::Second(B::after_nametable_read(x, slot, offset)),
            OneOfState::Third(x) => OneOfState::Third(C::after_nametable_read(x, slot, offset)),
            OneOfState::Fourth(x) => OneOfState::Fourth(D::after_nametable_read(x, slot, offset)),
            OneOfState::Fifth(x) => OneOfState::Fifth(E::after_nametable_read(x, slot, offset)),
        }
    }

    open spec fn nametable_target(s: Self::V, slot: u8, offset: u16, data: u8) -> NametableWriteTarget {
        match s {
            OneOfState::First(x) => A::nametable_target(x, slot, offset, data),
            OneOfState::Second(x) => B::nametable_target(x, slot, offset, data),
            OneOfState::Third(x) => C::nametable_target(x, slot, offset, data),
            OneOfState::Fourth(x) => D::nametable_target(x, slot, offset, data),
            OneOfState::Fifth(x) => E::nametable_target(x, slot, offset, data),
        }
    }

    open spec fn after_nametable_write(s: Self::V, slot: u8, offset: u16, data: u8) -> Self::V {
        match s {
            OneOfState::First(x) => OneOfState::First(A::after_nametable_write(x, slot, offset, data)),
            OneOfState::Second(x) => OneOfState::Second(B::after_nametable_write(x, slot, offset, data)),
            OneOfState::Third(x) => OneOfState::Third(C::after_nametable_write(x, slot, offset, data)),
            OneOfState::Fourth(x) => OneOfState::Fourth(D::after_nametable_write(x, slot, offset, data)),
            OneOfState::Fifth(x) => OneOfState::Fifth(E::after_nametable_write(x, slot, offset, data)),
        }
    }

    open spec fn after_ppu_addr(s: Self::V, addr: u16, cycle: u64, kind: PpuFetchKind) -> Self::V {
        match s {
            OneOfState::First(x) => OneOfState::First(A::after_ppu_addr(x, addr, cycle, kind)),
            OneOfState::Second(x) => OneOfState::Second(B::after_ppu_addr(x, addr, cycle, kind)),
            OneOfState::Third(x) => OneOfState::Third(C::after_ppu_addr(x, addr, cycle, kind)),
            OneOfState::Fourth(x) => OneOfState::Fourth(D::after_ppu_addr(x, addr, cycle, kind)),
            OneOfState::Fifth(x) => OneOfState::Fifth(E::after_ppu_addr(x, addr, cycle, kind)),
        }
    }

    open spec fn battery_bytes(s: Self::V) -> Option<Seq<u8>> {
        match s {
            OneOfState::First(x) => A::battery_bytes(x),
            OneOfState::Second(x) => B::battery_bytes(x),
            OneOfState::Third(x) => C::battery_bytes(x),
            OneOfState::Fourth(x) => D::battery_bytes(x),
            OneOfState::Fifth(x) => E::battery_bytes(x),
        }
    }

    open spec fn after_load(s: Self::V, data: Seq<u8>) -> Self::V {
        match s {
            OneOfState::First(x) => OneOfState::First(A::after_load(x, data)),
            OneOfState::Second(x) => OneOfState::Second(B::after_load(x, data)),
            OneOfState::Third(x) => OneOfState::Third(C::after_load(x, data)),
            OneOfState::Fourth(x) => OneOfState::Fourth(D::after_load(x, data)),
            OneOfState::Fifth(x) => OneOfState::Fifth(E::after_load(x, data)),
        }
    }

    open spec fn save_due(s: Self::V) -> bool {
        match s {
            OneOfState::First(x) => A::save_due(x),
            OneOfState::Second(x) => B::save_due(x),
            OneOfState::Third(x) => C::save_due(x),
            OneOfState::Fourth(x) => D::save_due(x),
            OneOfState::Fifth(x) => E::save_due(x),
        }
    }

    open spec fn after_save(s: Self::V) -> Self::V {
        match s {
            OneOfState::First(x) => OneOfState::First(A::after_save(x)),
            OneOfState::Second(x) => OneOfState::Second(B::after_save(x)),
            OneOfState::Third(x) => OneOfState::Third(C::after_save(x)),
            OneOfState::Fourth(x) => OneOfState::Fourth(D::after_save(x)),
            OneOfState::Fifth(x) => OneOfState::Fifth(E::after_save(x)),
        }
    }

    open spec fn captures(s: Self::V, state: Option<MapperState>) -> bool {
        match s {
            OneOfState::First(x) => A::captures(x, state),
            OneOfState::Second(x) => B::captures(x, state),
            OneOfState::Third(x) => C::captures(x, state),
            OneOfState::Fourth(x) => D::captures(x, state),
            OneOfState::Fifth(x) => E::captures(x, state),
        }
    }

    open spec fn after_apply(s: Self::V, state: MapperState) -> Option<Self::V> {
        match s {
            OneOfState::First(x) => match A::after_apply(x, state) {
                Some(y) => Some(OneOfState::First(y)),
                None => None,
            },
            OneOfState::Second(x) => match B::after_apply(x, state) {
                Some(y) => Some(OneOfState::Second(y)),
                None => None,
            },
            OneOfState::Third(x) => match C::after_apply(x, state) {
                Some(y) => Some(OneOfState::Third(y)),
                None => None,
            },
            OneOfState::Fourth(x) => match D::after_apply(x, state) {
                Some(y) => Some(OneOfState::Fourth(y)),
                None => None,
            },
            OneOfState::Fifth(x) => match E::after_apply(x, state) {
                Some(y) => Some(OneOfState::Fifth(y)),
                None => None,
            },
        }
    }

    open spec fn snapshot_ok(s: Self::V, state: MapperState) -> bool {
        match s {
            OneOfState::First(x) => A::snapshot_ok(x, state),
            OneOfState::Second(x) => B::snapshot_ok(x, state),
            OneOfState::Third(x) => C::snapshot_ok(x, state),
            OneOfState::Fourth(x) => D::snapshot_ok(x, state),
            OneOfState::Fifth(x) => E::snapshot_ok(x, state),
        }
    }

    fn cpu_read(&mut self, addr: u16) -> (byte: u8) {
        match self {
            OneOf::First(m) => m.cpu_read(addr),
            OneOf::Second(m) => m.cpu_read(addr),
            OneOf::Third(m) => m.cpu_read(addr),
            OneOf::Fourth(m) => m.cpu_read(addr),
            OneOf::Fifth(m) => m.cpu_read(addr),
        }
    }

    fn cpu_write(&mut self, addr: u16, data: u8) {
        match self {
            OneOf::First(m) => m.cpu_write(addr, data),
            OneOf::Second(m) => m.cpu_write(addr, data),
            OneOf::Third(m) => m.cpu_write(addr, data),
            OneOf::Fourth(m) => m.cpu_write(addr, data),
            OneOf::Fifth(m) => m.cpu_write(addr, data),
        }
    }

    fn ppu_read(&mut self, addr: u16) -> (byte: u8) {
        match self {
            OneOf::First(m) => m.ppu_read(addr),
            OneOf::Second(m) => m.ppu_read(addr),
            OneOf::Third(m) => m.ppu_read(addr),
            OneOf::Fourth(m) => m.ppu_read(addr),
            OneOf::Fifth(m) => m.ppu_read(addr),
        }
    }

    fn ppu_write(&mut self, addr: u16, data: u8) {
        match self {
            OneOf::First(m) => m.ppu_write(addr, data),
            OneOf::Second(m) => m.ppu_write(addr, data),
            OneOf::Third(m) => m.ppu_write(addr, data),
            OneOf::Fourth(m) => m.ppu_write(addr, data),
            OneOf::Fifth(m) => m.ppu_write(addr, data),
        }
    }

    fn mirroring(&self) -> (mode: Mirroring) {
        match self {
            OneOf::First(m) => m.mirroring(),
            OneOf::Second(m) => m.mirroring(),
            OneOf::Third(m) => m.mirroring(),
            OneOf::Fourth(m) => m.mirroring(),
            OneOf::Fifth(m) => m.mirroring(),
        }
    }

    fn cpu_peek(&self, addr: u16) -> (byte: u8) {
        match self {
            OneOf::First(m) => m.cpu_peek(addr),
            OneOf::Second(m) => m.cpu_peek(addr),
            OneOf::Third(m) => m.cpu_peek(addr),
            OneOf::Fourth(m) => m.cpu_peek(addr),
            OneOf::Fifth(m) => m.cpu_peek(addr),
        }
    }

    fn cpu_read_ex(&mut self, addr: u16) -> (byte: Option<u8>) {
        match self {
            OneOf::First(m) => m.cpu_read_ex(addr),
            OneOf::Second(m) => m.cpu_read_ex(addr),
            OneOf::Third(m) => m.cpu_read_ex(addr),
            OneOf::Fourth(m) => m.cpu_read_ex(addr),
            OneOf::Fifth(m) => m.cpu_read_ex(addr),
        }
    }

    fn on_cpu_cycle(&mut self) {
        match self {
            OneOf::First(m) => m.on_cpu_cycle(),
            OneOf::Second(m) => m.on_cpu_cycle(),
            OneOf::Third(m) => m.on_cpu_cycle(),
            OneOf::Fourth(m) => m.on_cpu_cycle(),
            OneOf::Fifth(m) => m.on_cpu_cycle(),
        }
    }

    fn irq_line(&self) -> (asserted: bool) {
        match self {
            OneOf::First(m) => m.irq_line(),
            OneOf::Second(m) => m.irq_line(),
            OneOf::Third(m) => m.irq_line(),
            OneOf::Fourth(m) => m.irq_line(),
            OneOf::Fifth(m) => m.irq_line(),
        }
    }

    fn ppu_nametable_read(&mut self, slot: u8, offset: u16) -> (source: NametableSource) {
        match self {
            OneOf::First(m) => m.ppu_nametable_read(slot, offset),
            OneOf::Second(m) => m.ppu_nametable_read(slot, offset),
            OneOf::Third(m) => m.ppu_nametable_read(slot, offset),
            OneOf::Fourth(m) => m.ppu_nametable_read(slot, offset),
            OneOf::Fifth(m) => m.ppu_nametable_read(slot, offset),
        }
    }

    fn ppu_nametable_write(&mut self, slot: u8, offset: u16, data: u8) -> (target: NametableWriteTarget) {
        match self {
            OneOf::First(m) => m.ppu_nametable_write(slot, offset, data),
            OneOf::Second(m) => m.ppu_nametable_write(slot, offset, data),
            OneOf::Third(m) => m.ppu_nametable_write(slot, offset, data),
            OneOf::Fourth(m) => m.ppu_nametable_write(slot, offset, data),
            OneOf::Fifth(m) => m.ppu_nametable_write(slot, offset, data),
        }
    }

    fn on_ppu_addr(&mut self, addr: u16, ppu_cycle: u64, kind: PpuFetchKind) {
        match self {
            OneOf::First(m) => m.on_ppu_addr(addr, ppu_cycle, kind),
            OneOf::Second(m) => m.on_ppu_addr(addr, ppu_cycle, kind),
            OneOf::Third(m) => m.on_ppu_addr(addr, ppu_cycle, kind),
            OneOf::Fourth(m) => m.on_ppu_addr(addr, ppu_cycle, kind),
            OneOf::Fifth(m) => m.on_ppu_addr(addr, ppu_cycle, kind),
        }
    }

    fn save_data(&self) -> (bytes: Option<&[u8]>) {
        match self {
            OneOf::First(m) => m.save_data(),
            OneOf::Second(m) => m.save_data(),
            OneOf::Third(m) => m.save_data(),
            OneOf::Fourth(m) => m.save_data(),
            OneOf::Fifth(m) => m.save_data(),
        }
    }

    fn load_save_data(&mut self, data: &[u8]) {
        match self {
            OneOf::First(m) => m.load_save_data(data),
            OneOf::Second(m) => m.load_save_data(data),
            OneOf::Third(m) => m.load_save_data(data),
            OneOf::Fourth(m) => m.load_save_data(data),
            OneOf::Fifth(m) => m.load_save_data(data),
        }
    }

    fn save_dirty(&self) -> (dirty: bool) {
        match self {
            OneOf::First(m) => m.save_dirty(),
            OneOf::Second(m) => m.save_dirty(),
            OneOf::Third(m) => m.save_dirty(),
            OneOf::Fourth(m) => m.save_dirty(),
            OneOf::Fifth(m) => m.save_dirty(),
        }
    }

    fn mark_saved(&mut self) {
        match self {
            OneOf::First(m) => m.mark_saved(),
            OneOf::Second(m) => m.mark_saved(),
            OneOf::Third(m) => m.mark_saved(),
            OneOf::Fourth(m) => m.mark_saved(),
            OneOf::Fifth(m) => m.mark_saved(),
        }
    }

    fn save_state_capture(&self) -> (state: Option<MapperState>) {
        match self {
            OneOf::First(m) => m.save_state_capture(),
            OneOf::Second(m) => m.save_state_capture(),
            OneOf::Third(m) => m.save_state_capture(),
            OneOf::Fourth(m) => m.save_state_capture(),
            OneOf::Fifth(m) => m.save_state_capture(),
        }
    }

    fn save_state_apply(&mut self, state: &MapperState) -> (result: Result<(), SaveStateError>) {
        match self {
            OneOf::First(m) => m.save_state_apply(state),
            OneOf::Second(m) => m.save_state_apply(state),
            OneOf::Third(m) => m.save_state_apply(state),
            OneOf::Fourth(m) => m.save_state_apply(state),
            OneOf::Fifth(m) => m.save_state_apply(state),
        }
    }
}

} // verus!
