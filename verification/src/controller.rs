//! The controller port protocol and the standard eight-button pad.

use vstd::prelude::*;
use crate::data_unit::Byte;

verus! {

pub const BUTTON_A: u8 = 0x01;
pub const BUTTON_B: u8 = 0x02;
pub const BUTTON_SELECT: u8 = 0x04;
pub const BUTTON_START: u8 = 0x08;
pub const BUTTON_UP: u8 = 0x10;
pub const BUTTON_DOWN: u8 = 0x20;
pub const BUTTON_LEFT: u8 = 0x40;
pub const BUTTON_RIGHT: u8 = 0x80;

/// A device on a controller port. The three spec functions say what each
/// operation does to the device; `output` says what a read returns.
pub trait Controller: Sized {
    /// The byte that a read returns.
    spec fn output(&self) -> u8;

    /// The device after a read.
    spec fn after_read(&self) -> Self;

    /// The device after `value` was written to its port.
    spec fn after_write(&self, value: u8) -> Self;

    /// The device after the host has set its buttons to `state`.
    spec fn after_update(&self, state: u8) -> Self;

    fn write(&mut self, value: Byte)
        ensures
            *final(self) == old(self).after_write(value.0),
    ;

    fn read(&mut self) -> (r: Byte)
        ensures
            r.0 == old(self).output(),
            *final(self) == old(self).after_read(),
    ;

    fn update(&mut self, state: Byte)
        ensures
            *final(self) == old(self).after_update(state.0),
    ;
}

/// A port with nothing plugged in: reads give 0, writes are lost.
#[derive(Clone, Copy, Debug, PartialEq, Eq, Structural)]
pub struct Empty {}

impl Controller for Empty {
    open spec fn output(&self) -> u8 {
        0
    }

    open spec fn after_read(&self) -> Self {
        *self
    }

    open spec fn after_write(&self, value: u8) -> Self {
        *self
    }

    open spec fn after_update(&self, state: u8) -> Self {
        *self
    }

    fn write(&mut self, value: Byte) {
    }

    fn read(&mut self) -> (r: Byte) {
        Byte(0)
    }

    fn update(&mut self, state: Byte) {
    }
}

/// The standard pad. `state` holds the eight buttons, `current` the bit that
/// the next read reports, `strobe` whether the pad is being reloaded.
#[derive(Clone, Copy, Debug, PartialEq, Eq, Structural)]
pub struct StandardController {
    pub state: u8,
    pub current: u8,
    pub strobe: bool,
}

impl StandardController {
    pub fn new() -> (r: Self)
        ensures
            r == (StandardController { state: 0, current: 0, strobe: false }),
    {
        StandardController { state: 0, current: 0, strobe: false }
    }
}

impl Controller for StandardController {
    /// Bit 0 is the button under `current` (button A while strobing); the
    /// open-bus bit 0x40 is always set.
    open spec fn output(&self) -> u8 {
        if self.strobe {
            if self.state & BUTTON_A != 0 {
                0x41
            } else {
                0x40
            }
        } else {
            if self.state & self.current != 0 {
                0x41
            } else {
                0x40
            }
        }
    }

    open spec fn after_read(&self) -> Self {
        if self.strobe {
            *self
        } else {
            StandardController { current: self.current << 1, ..*self }
        }
    }

    open spec fn after_write(&self, value: u8) -> Self {
        StandardController { strobe: value & 1 == 1, current: 1, ..*self }
    }

    open spec fn after_update(&self, state: u8) -> Self {
        StandardController { state, ..*self }
    }

    fn write(&mut self, value: Byte) {
        self.strobe = value.0 & 1 == 1;
        self.current = 1;
    }

    fn read(&mut self) -> (r: Byte) {
        if self.strobe {
            if self.state & BUTTON_A != 0 {
                Byte(0x41)
            } else {
                Byte(0x40)
            }
        } else {
            let input = self.state & self.current;
            self.current = self.current << 1;
            if input != 0 {
                Byte(0x41)
            } else {
                Byte(0x40)
            }
        }
    }

    fn update(&mut self, state: Byte) {
        self.state = state.0;
    }
}

} // verus!
