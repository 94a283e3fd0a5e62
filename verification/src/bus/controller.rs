//! Controllers.
use vstd::prelude::*;

use crate::save_state::bus::ControllerSnap;

verus! {

/// A controller: a shift register that the console latches and reads bit by bit.
#[derive(Debug, Clone, Copy, PartialEq, Eq, Structural)]
pub struct Controller {
    pub buttons: u8,
    pub strobe: bool,
    pub shifter: u8,
}

impl Controller {
    pub open spec fn power_on() -> Controller {
        Controller { buttons: 0, strobe: false, shifter: 0 }
    }

    pub open spec fn strobed(self, data: u8) -> Controller {
        Controller {
            strobe: data & 1 != 0,
            shifter: if data & 1 != 0 { self.buttons } else { self.shifter },
            ..self
        }
    }

    /// The bit a read returns.
    pub open spec fn bit(self) -> u8 {
        self.shifter & 1
    }

    /// The register after a read: it moves on unless it is held by the strobe, and ones come
    /// in at the top.
    pub open spec fn shifted(self) -> Controller {
        if self.strobe {
            self
        } else {
            Controller { shifter: (self.shifter >> 1) | 0x80, ..self }
        }
    }

    pub open spec fn snapshot(self) -> ControllerSnap {
        ControllerSnap { buttons: self.buttons, strobe: self.strobe, shifter: self.shifter }
    }

    pub open spec fn restored(snap: ControllerSnap) -> Controller {
        Controller { buttons: snap.buttons, strobe: snap.strobe, shifter: snap.shifter }
    }

    pub fn write_strobe(&mut self, data: u8)
        ensures
            *final(self) == old(self).strobed(data),
    {
        self.strobe = (data & 1) != 0;
        if self.strobe {
            self.shifter = self.buttons;
        }
    }

    pub fn read(&mut self) -> (bit: u8)
        ensures
            bit == old(self).bit(),
            *final(self) == old(self).shifted(),
    {
        let bit: u8 = self.shifter & 1;
        if !self.strobe {
            self.shifter = (self.shifter >> 1) | 0x80;
        }
        bit
    }

    pub fn save_state_capture(&self) -> (snap: ControllerSnap)
        ensures
            snap == self.snapshot(),
    {
        ControllerSnap { buttons: self.buttons, strobe: self.strobe, shifter: self.shifter }
    }

    pub fn save_state_apply(&mut self, snap: ControllerSnap)
        ensures
            *final(self) == Controller::restored(snap),
    {
        self.buttons = snap.buttons;
        self.strobe = snap.strobe;
        self.shifter = snap.shifter;
    }
}

impl Default for Controller {
    fn default() -> (controller: Self)
        ensures
            controller == Controller::power_on(),
    {
        Controller { buttons: 0, strobe: false, shifter: 0 }
    }
}

/// The controller after `n` reads.
pub open spec fn shifted_times(controller: Controller, n: nat) -> Controller
    decreases n,
{
    if n == 0 {
        controller
    } else {
        shifted_times(controller, (n - 1) as nat).shifted()
    }
}

/// After a strobe pulse the first eight reads give the buttons, lowest bit first, and every
/// later read gives one.
pub proof fn lemma_controller_reads_buttons(controller: Controller, high: u8, low: u8, n: nat)
    requires
        high & 1 == 1,
        low & 1 == 0,
    ensures
        ({
            let bit = shifted_times(controller.strobed(high).strobed(low), n).bit();
            if n < 8 {
                bit == (controller.buttons >> (n as u8)) & 1
            } else {
                bit == 1
            }
        }),
{
    let latched = controller.strobed(high).strobed(low);
    lemma_shifter(latched, n);
    let b = controller.buttons;
    let s = shifted_times(latched, n).shifter;
    if n < 8 {
        let k = n as u8;
        assert(((b >> k) | !(0xFFu8 >> k)) & 1 == (b >> k) & 1) by (bit_vector)
            requires
                k < 8,
        ;
    } else {
        assert(0xFFu8 & 1 == 1) by (bit_vector);
    }
}

proof fn lemma_shifter(latched: Controller, n: nat)
    requires
        !latched.strobe,
    ensures
        !shifted_times(latched, n).strobe,
        shifted_times(latched, n).shifter == (if n < 8 {
            (latched.shifter >> (n as u8)) | !(0xFFu8 >> (n as u8))
        } else {
            0xFF
        }),
    decreases n,
{
    let b = latched.shifter;
    if n == 0 {
        assert((b >> 0u8) | !(0xFFu8 >> 0u8) == b) by (bit_vector);
    } else {
        lemma_shifter(latched, (n - 1) as nat);
        if n < 8 {
            let k = n as u8;
            let j = (n - 1) as u8;
            assert((((b >> j) | !(0xFFu8 >> j)) >> 1) | 0x80 == (b >> k) | !(0xFFu8 >> k)) by (bit_vector)
                requires
                    k < 8,
                    k == j + 1,
            ;
        } else if n == 8 {
            assert((((b >> 7u8) | !(0xFFu8 >> 7u8)) >> 1) | 0x80 == 0xFF) by (bit_vector);
        } else {
            assert((0xFFu8 >> 1) | 0x80 == 0xFF) by (bit_vector);
        }
    }
}

/// While the strobe is high a controller follows its first button: reads give it and nothing moves.
/// Only the lowest bit of a write is the strobe.
pub proof fn lemma_held_strobe(controller: Controller, data: u8)
    requires
        data & 1 == 1,
    ensures
        controller.strobed(data).bit() == controller.buttons & 1,
        controller.strobed(data).shifted() == controller.strobed(data),
        controller.strobed(data).buttons == controller.buttons,
        Controller::power_on() == (Controller { buttons: 0, strobe: false, shifter: 0 }),
{
}

} // verus!
