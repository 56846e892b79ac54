//! The timer: a free-running 16-bit divider and a counter that steps on the
//! falling edges of one of the divider's bits.

use vstd::prelude::*;
use crate::memory::BusState;
use crate::util::{INTERRUPT_F_ADDRESS, TAC_ADDRESS, TIMA_ADDRESS, TMA_ADDRESS};

verus! {

/// The bit of the interrupt flag register that a counter overflow sets.
pub const TIMER_INTERRUPT: u8 = 0x04;

/// Whether the control register enables the counter.
pub open spec fn timer_enabled(tac: u8) -> bool {
    tac & 0x4 != 0
}

/// The divider bit that the control register's clock select watches.
pub open spec fn timer_bit(tac: u8) -> u16 {
    let select = tac & 0x3;
    if select == 0 {
        9
    } else if select == 1 {
        3
    } else if select == 2 {
        5
    } else {
        7
    }
}

/// Whether a bit of the divider is set.
pub open spec fn bit_set(divider: u16, bit: u16) -> bool {
    divider & 1u16 << bit != 0
}

/// The divider one unit later.
pub open spec fn next_divider(divider: u16) -> u16 {
    if divider == 0xFFFF {
        0u16
    } else {
        (divider + 1) as u16
    }
}

/// Whether the watched bit goes from 1 to 0 when the divider advances by one
/// unit.
pub open spec fn falling_edge(divider: u16, bit: u16) -> bool {
    bit_set(divider, bit) && !bit_set(next_divider(divider), bit)
}

impl BusState {
    /// The state after the counter steps once: it counts up, and past 255 it
    /// is reloaded from the reload register and the timer interrupt is
    /// flagged.
    pub open spec fn count_up(self) -> BusState {
        let tima = self.bytes[TIMA_ADDRESS as int];
        if tima == 0xFF {
            let reloaded = self.bytes.update(
                TIMA_ADDRESS as int,
                self.bytes[TMA_ADDRESS as int],
            );
            BusState {
                bytes: reloaded.update(
                    INTERRUPT_F_ADDRESS as int,
                    reloaded[INTERRUPT_F_ADDRESS as int] | TIMER_INTERRUPT,
                ),
                ..self
            }
        } else {
            BusState { bytes: self.bytes.update(TIMA_ADDRESS as int, (tima + 1) as u8), ..self }
        }
    }

    /// The state after the divider advances by one unit while the counter
    /// watches `bit`.
    pub open spec fn advance(self, bit: u16) -> BusState {
        let moved = BusState { divider: next_divider(self.divider), ..self };
        if falling_edge(self.divider, bit) {
            moved.count_up()
        } else {
            moved
        }
    }

    /// The state after the divider advances by `units`, one at a time.
    pub open spec fn advance_by(self, bit: u16, units: nat) -> BusState
        decreases units,
    {
        if units == 0 {
            self
        } else {
            self.advance(bit).advance_by(bit, (units - 1) as nat)
        }
    }

    /// The state after the given number of cycles have elapsed. The control
    /// register is read once, before the first cycle.
    pub open spec fn tick(self, cycles: nat) -> BusState {
        let tac = self.bytes[TAC_ADDRESS as int];
        if timer_enabled(tac) {
            self.advance_by(timer_bit(tac), cycles)
        } else {
            BusState { divider: ((self.divider + cycles) % 0x10000) as u16, ..self }
        }
    }
}

} // verus!
