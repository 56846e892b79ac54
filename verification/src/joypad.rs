//! The input register: how the live key state is folded into the byte that
//! the bus returns, and when a key press raises the input interrupt.

use vstd::prelude::*;
use crate::memory::Memory;
use crate::util::INTERRUPT_F_ADDRESS;

verus! {

/// Which keys are held down. The first four form the button group, the last
/// four the direction group.
#[derive(Clone, Copy, Debug)]
pub struct Keys {
    pub a: bool,
    pub b: bool,
    pub select: bool,
    pub start: bool,
    pub right: bool,
    pub left: bool,
    pub up: bool,
    pub down: bool,
}

impl Keys {
    /// No key is held.
    pub open spec fn released() -> Keys {
        Keys {
            a: false,
            b: false,
            select: false,
            start: false,
            right: false,
            left: false,
            up: false,
            down: false,
        }
    }

    /// At least one key is held.
    pub open spec fn any(self) -> bool {
        self.a || self.b || self.select || self.start || self.right || self.left || self.up
            || self.down
    }

    /// The state with every key released.
    pub fn none() -> (k: Keys)
        ensures
            k == Keys::released(),
    {
        Keys {
            a: false,
            b: false,
            select: false,
            start: false,
            right: false,
            left: false,
            up: false,
            down: false,
        }
    }

    /// Whether at least one key is held.
    pub fn any_down(&self) -> (r: bool)
        ensures
            r == self.any(),
    {
        self.a || self.b || self.select || self.start || self.right || self.left || self.up
            || self.down
    }
}

/// One line of the input register: 0 while the key is held, the bit's weight
/// while it is released.
pub open spec fn line(held: bool, weight: u8) -> u8 {
    if held {
        0u8
    } else {
        weight
    }
}

/// The lower nibble for a group of four keys, bit `i` clear while key `i` is
/// held.
pub open spec fn group_lines(k0: bool, k1: bool, k2: bool, k3: bool) -> u8 {
    line(k0, 1) | line(k1, 2) | line(k2, 4) | line(k3, 8)
}

/// What a read of the input register returns, given the stored byte and the
/// keys: the stored upper nibble, with all lines high when no group is
/// selected, else the lines of the button group when bit 5 is clear, else
/// those of the direction group.
pub open spec fn joypad_value(stored: u8, keys: Keys) -> u8 {
    let upper = stored & 0xF0;
    if upper & 0x30 == 0x30 {
        upper | 0x0F
    } else if upper & 0x20 == 0 {
        upper | group_lines(keys.a, keys.b, keys.select, keys.start)
    } else {
        upper | group_lines(keys.right, keys.left, keys.up, keys.down)
    }
}

fn lines(k0: bool, k1: bool, k2: bool, k3: bool) -> (r: u8)
    ensures
        r == group_lines(k0, k1, k2, k3),
{
    let l0: u8 = if k0 { 0 } else { 1 };
    let l1: u8 = if k1 { 0 } else { 2 };
    let l2: u8 = if k2 { 0 } else { 4 };
    let l3: u8 = if k3 { 0 } else { 8 };
    l0 | l1 | l2 | l3
}

/// Composes the key state into the stored input register.
pub fn joypad(stored: u8, keys: Keys) -> (r: u8)
    ensures
        r == joypad_value(stored, keys),
{
    let upper_joypad = stored & 0b1111_0000;
    if upper_joypad & 0x30 == 0x30 {
        return upper_joypad | 0xF;
    }
    if upper_joypad & 0b0010_0000 == 0 {
        return upper_joypad | lines(keys.a, keys.b, keys.select, keys.start);
    }
    upper_joypad | lines(keys.right, keys.left, keys.up, keys.down)
}

/// Requests the input interrupt when any of the given keys has just been
/// pressed, whichever group the input register selects.
pub fn joypad_interrupt(mem: &mut Memory, pressed: Keys)
    requires
        old(mem).wf(),
    ensures
        final(mem).wf(),
        final(mem)@ == if pressed.any() {
            old(mem)@.request_input_interrupt()
        } else {
            old(mem)@
        },
{
    if pressed.any_down() {
        let interrupt = mem.read(INTERRUPT_F_ADDRESS);
        mem.write(INTERRUPT_F_ADDRESS, interrupt | 0b0001_0000);
    }
}

} // verus!
