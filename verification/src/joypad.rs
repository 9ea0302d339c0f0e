//! Joypad: a one-byte shift register behind a strobe latch.
//!
//! While the strobe is high a read always reflects the A button. Dropping the
//! strobe snapshots the eight buttons (A, B, Select, Start, Up, Down, Left,
//! Right, least significant bit first) into the register; each following read
//! hands out one bit and shifts a 1 in from the top, so reads past the eighth
//! return 1.

use vstd::prelude::*;

verus! {

pub struct Joypad {
    pub register: u8,
    pub strobe: bool,
    pub a_button_down: bool,
    pub b_button_down: bool,
    pub select_button_down: bool,
    pub start_button_down: bool,
    pub up_button_down: bool,
    pub down_button_down: bool,
    pub left_button_down: bool,
    pub right_button_down: bool,
}

impl Joypad {
    /// The eight button states packed into one byte, A in bit 0 through
    /// Right in bit 7.
    pub open spec fn snapshot(self) -> u8 {
        (if self.a_button_down { 0x01u8 } else { 0u8 })
        | (if self.b_button_down { 0x02u8 } else { 0u8 })
        | (if self.select_button_down { 0x04u8 } else { 0u8 })
        | (if self.start_button_down { 0x08u8 } else { 0u8 })
        | (if self.up_button_down { 0x10u8 } else { 0u8 })
        | (if self.down_button_down { 0x20u8 } else { 0u8 })
        | (if self.left_button_down { 0x40u8 } else { 0u8 })
        | (if self.right_button_down { 0x80u8 } else { 0u8 })
    }

    /// The value a read returns: the live A button while the strobe is
    /// high, the low bit of the shift register otherwise.
    pub open spec fn read_value(self) -> u8 {
        if self.strobe {
            if self.a_button_down { 1u8 } else { 0u8 }
        } else {
            self.register & 1
        }
    }

    /// The joypad after a read: the register shifts one place, a 1
    /// entering from the top, unless the strobe is high.
    pub open spec fn after_read(self) -> Joypad {
        if self.strobe {
            self
        } else {
            Joypad { register: (self.register >> 1) | 0x80, ..self }
        }
    }

    /// The joypad after a write: bit 0 raises the strobe; dropping it
    /// latches the button snapshot.
    pub open spec fn after_write(self, value: u8) -> Joypad {
        if value & 1 == 1 {
            Joypad { strobe: true, ..self }
        } else if self.strobe {
            Joypad { strobe: false, register: self.snapshot(), ..self }
        } else {
            self
        }
    }

    pub fn new() -> (joypad: Joypad)
        ensures
            joypad == (Joypad {
                register: 0u8,
                strobe: false,
                a_button_down: false,
                b_button_down: false,
                select_button_down: false,
                start_button_down: false,
                up_button_down: false,
                down_button_down: false,
                left_button_down: false,
                right_button_down: false,
            }),
    {
        Joypad {
            register: 0,
            strobe: false,
            a_button_down: false,
            b_button_down: false,
            select_button_down: false,
            start_button_down: false,
            up_button_down: false,
            down_button_down: false,
            left_button_down: false,
            right_button_down: false,
        }
    }

    pub fn press_a_button(&mut self)
        ensures
            *final(self) == (Joypad { a_button_down: true, ..*old(self) }),
    {
        self.a_button_down = true;
    }

    pub fn press_b_button(&mut self)
        ensures
            *final(self) == (Joypad { b_button_down: true, ..*old(self) }),
    {
        self.b_button_down = true;
    }

    pub fn press_select_button(&mut self)
        ensures
            *final(self) == (Joypad { select_button_down: true, ..*old(self) }),
    {
        self.select_button_down = true;
    }

    pub fn press_start_button(&mut self)
        ensures
            *final(self) == (Joypad { start_button_down: true, ..*old(self) }),
    {
        self.start_button_down = true;
    }

    pub fn press_up_button(&mut self)
        ensures
            *final(self) == (Joypad { up_button_down: true, ..*old(self) }),
    {
        self.up_button_down = true;
    }

    pub fn press_down_button(&mut self)
        ensures
            *final(self) == (Joypad { down_button_down: true, ..*old(self) }),
    {
        self.down_button_down = true;
    }

    pub fn press_left_button(&mut self)
        ensures
            *final(self) == (Joypad { left_button_down: true, ..*old(self) }),
    {
        self.left_button_down = true;
    }

    pub fn press_right_button(&mut self)
        ensures
            *final(self) == (Joypad { right_button_down: true, ..*old(self) }),
    {
        self.right_button_down = true;
    }

    pub fn release_a_button(&mut self)
        ensures
            *final(self) == (Joypad { a_button_down: false, ..*old(self) }),
    {
        self.a_button_down = false;
    }

    pub fn release_b_button(&mut self)
        ensures
            *final(self) == (Joypad { b_button_down: false, ..*old(self) }),
    {
        self.b_button_down = false;
    }

    pub fn release_select_button(&mut self)
        ensures
            *final(self) == (Joypad { select_button_down: false, ..*old(self) }),
    {
        self.select_button_down = false;
    }

    pub fn release_start_button(&mut self)
        ensures
            *final(self) == (Joypad { start_button_down: false, ..*old(self) }),
    {
        self.start_button_down = false;
    }

    pub fn release_up_button(&mut self)
        ensures
            *final(self) == (Joypad { up_button_down: false, ..*old(self) }),
    {
        self.up_button_down = false;
    }

    pub fn release_down_button(&mut self)
        ensures
            *final(self) == (Joypad { down_button_down: false, ..*old(self) }),
    {
        self.down_button_down = false;
    }

    pub fn release_left_button(&mut self)
        ensures
            *final(self) == (Joypad { left_button_down: false, ..*old(self) }),
    {
        self.left_button_down = false;
    }

    pub fn release_right_button(&mut self)
        ensures
            *final(self) == (Joypad { right_button_down: false, ..*old(self) }),
    {
        self.right_button_down = false;
    }

    /// Read one bit of the shift register, or the live A button while the
    /// strobe is high. Bits shifted out are replaced by 1s, so the ninth and
    /// later reads return 1.
    pub fn read(&mut self) -> (state: u8)
        ensures
            old(self).strobe ==> {
                &&& state == (if old(self).a_button_down { 1u8 } else { 0u8 })
                &&& *final(self) == *old(self)
            },
            !old(self).strobe ==> {
                &&& state == old(self).register & 1
                &&& *final(self) == (Joypad { register: (old(self).register >> 1) | 0x80u8, ..*old(self) })
            },
    {
        if self.strobe {
            if self.a_button_down { 1 } else { 0 }
        } else {
            let state = self.register & 1;
            self.register = (self.register >> 1) | 0x80;
            state
        }
    }

    /// Read the bit a `read` would hand out, without shifting.
    pub fn read_debug(&self) -> (state: u8)
        ensures
            self.strobe ==> state == (if self.a_button_down { 1u8 } else { 0u8 }),
            !self.strobe ==> state == self.register & 1,
    {
        if self.strobe {
            if self.a_button_down { 1 } else { 0 }
        } else {
            self.register & 1
        }
    }

    /// Bit 0 high raises the strobe; bit 0 low while the strobe is high
    /// drops it and latches the current button states into the register.
    pub fn write(&mut self, value: u8)
        ensures
            value & 1 == 1 ==> *final(self) == (Joypad { strobe: true, ..*old(self) }),
            value & 1 != 1 && old(self).strobe ==> *final(self) == (Joypad {
                strobe: false,
                register: old(self).snapshot(),
                ..*old(self)
            }),
            value & 1 != 1 && !old(self).strobe ==> *final(self) == *old(self),
    {
        if (value & 1) == 1 {
            self.strobe = true;
        } else if self.strobe {
            self.strobe = false;
            self.register = (if self.a_button_down { 0x01u8 } else { 0u8 })
                | (if self.b_button_down { 0x02u8 } else { 0u8 })
                | (if self.select_button_down { 0x04u8 } else { 0u8 })
                | (if self.start_button_down { 0x08u8 } else { 0u8 })
                | (if self.up_button_down { 0x10u8 } else { 0u8 })
                | (if self.down_button_down { 0x20u8 } else { 0u8 })
                | (if self.left_button_down { 0x40u8 } else { 0u8 })
                | (if self.right_button_down { 0x80u8 } else { 0u8 });
        }
    }
}

} // verus!
