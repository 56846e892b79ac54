//! Laws of the bus, proved of the model for every state and every input.

use vstd::prelude::*;
use crate::joypad::{group_lines, joypad_value, Keys};
use crate::mbc::{in_ram_window, in_rom_window};
use crate::memory::{boot_register, in_oam, BusState};
use crate::timer::{falling_edge, next_divider, timer_bit, timer_enabled};
use crate::util::{
    logo, DMA_ADDRESS, INTERRUPT_F_ADDRESS, JOYPAD_ADDRESS, TAC_ADDRESS, TIMA_ADDRESS, TMA_ADDRESS,
};

verus! {

/// Inside the cartridge's two windows the bus is the bank controller: a read
/// returns what the controller returns, whatever the store holds, and a
/// write changes the controller alone.
pub proof fn law_cartridge_windows_delegate(s: BusState, addr: u16, data: u8)
    requires
        in_rom_window(addr) || in_ram_window(addr),
    ensures
        in_rom_window(addr) ==> s.read(addr) == s.cartridge.read_rom(addr),
        in_rom_window(addr) ==> s.write(addr, data).cartridge == s.cartridge.write_rom(addr, data),
        in_ram_window(addr) ==> s.read(addr) == s.cartridge.read_ram(addr),
        in_ram_window(addr) ==> s.write(addr, data).cartridge == s.cartridge.write_ram(addr, data),
        s.write(addr, data).bytes == s.bytes,
        s.write(addr, data).divider == s.divider,
        s.write(addr, data).keys == s.keys,
{
}

/// A write to the ROM window never changes the ROM's contents.
pub proof fn law_rom_is_read_only(s: BusState, addr: u16, data: u8)
    requires
        in_rom_window(addr),
    ensures
        s.write(addr, data).cartridge.rom == s.cartridge.rom,
{
}

/// Echo of working RAM: a byte written to [0xC000, 0xDDFF] is read back
/// 0x2000 higher, and one written to [0xE000, 0xFDFF] is read back 0x2000
/// lower.
pub proof fn law_echo(s: BusState, addr: u16, data: u8)
    requires
        s.wf(),
    ensures
        0xC000 <= addr <= 0xDDFF ==> s.write(addr, data).read((addr + 0x2000) as u16) == data,
        0xE000 <= addr <= 0xFDFF ==> s.write(addr, data).read((addr - 0x2000) as u16) == data,
{
}

/// With both selection bits set, the input register reads as its stored
/// upper nibble with all four lines high, whichever keys are held.
pub proof fn law_unselected_input_ignores_keys(s: BusState, keys: Keys)
    requires
        s.wf(),
        s.bytes[JOYPAD_ADDRESS as int] & 0x30 == 0x30,
    ensures
        (BusState { keys, ..s }).read(JOYPAD_ADDRESS) == s.bytes[JOYPAD_ADDRESS as int] & 0xF0
            | 0x0F,
{
    let stored = s.bytes[JOYPAD_ADDRESS as int];
    assert((stored & 0xF0) & 0x30 == stored & 0x30) by (bit_vector);
}

/// In the lines of a group each key has its own bit, which is clear exactly
/// while the key is held.
pub proof fn lemma_group_lines_are_active_low(k0: bool, k1: bool, k2: bool, k3: bool)
    ensures
        group_lines(k0, k1, k2, k3) & 0x01 == 0 <==> k0,
        group_lines(k0, k1, k2, k3) & 0x02 == 0 <==> k1,
        group_lines(k0, k1, k2, k3) & 0x04 == 0 <==> k2,
        group_lines(k0, k1, k2, k3) & 0x08 == 0 <==> k3,
        group_lines(k0, k1, k2, k3) & 0xF0 == 0,
{
    let l0: u8 = if k0 { 0 } else { 1 };
    let l1: u8 = if k1 { 0 } else { 2 };
    let l2: u8 = if k2 { 0 } else { 4 };
    let l3: u8 = if k3 { 0 } else { 8 };
    assert(((l0 | l1 | l2 | l3) & 0x01 == 0 <==> l0 == 0) && ((l0 | l1 | l2 | l3) & 0x02 == 0 <==> l1
        == 0) && ((l0 | l1 | l2 | l3) & 0x04 == 0 <==> l2 == 0) && ((l0 | l1 | l2 | l3) & 0x08 == 0
        <==> l3 == 0) && (l0 | l1 | l2 | l3) & 0xF0 == 0) by (bit_vector)
        requires
            l0 == 0 || l0 == 1,
            l1 == 0 || l1 == 2,
            l2 == 0 || l2 == 4,
            l3 == 0 || l3 == 8,
    ;
}

/// With a group selected, the input register reads as its stored upper
/// nibble above the lines of one group: the buttons when bit 5 is clear, the
/// directions when bit 5 is set and bit 4 is clear. The stored lower nibble
/// does not show.
pub proof fn law_selection_bit_picks_group(stored: u8, keys: Keys)
    requires
        stored & 0x30 != 0x30,
    ensures
        joypad_value(stored, keys) & 0xF0 == stored & 0xF0,
        stored & 0x20 == 0 ==> joypad_value(stored, keys) & 0x0F == group_lines(
            keys.a,
            keys.b,
            keys.select,
            keys.start,
        ),
        stored & 0x20 != 0 ==> joypad_value(stored, keys) & 0x0F == group_lines(
            keys.right,
            keys.left,
            keys.up,
            keys.down,
        ),
{
    let buttons = group_lines(keys.a, keys.b, keys.select, keys.start);
    let directions = group_lines(keys.right, keys.left, keys.up, keys.down);
    lemma_group_lines_are_active_low(keys.a, keys.b, keys.select, keys.start);
    lemma_group_lines_are_active_low(keys.right, keys.left, keys.up, keys.down);
    assert((stored & 0xF0) & 0x30 == stored & 0x30) by (bit_vector);
    assert((stored & 0xF0) & 0x20 == stored & 0x20) by (bit_vector);
    assert(((stored & 0xF0) | buttons) & 0xF0 == stored & 0xF0 && ((stored & 0xF0) | buttons)
        & 0x0F == buttons) by (bit_vector)
        requires
            buttons & 0xF0 == 0,
    ;
    assert(((stored & 0xF0) | directions) & 0xF0 == stored & 0xF0 && ((stored & 0xF0)
        | directions) & 0x0F == directions) by (bit_vector)
        requires
            directions & 0xF0 == 0,
    ;
}

/// A write to the input register changes its two selection bits and no
/// other bit.
pub proof fn law_input_write_keeps_other_bits(s: BusState, data: u8)
    requires
        s.wf(),
    ensures
        s.write(JOYPAD_ADDRESS, data).bytes[JOYPAD_ADDRESS as int] & 0x30 == data & 0x30,
        s.write(JOYPAD_ADDRESS, data).bytes[JOYPAD_ADDRESS as int] & 0xCF
            == s.bytes[JOYPAD_ADDRESS as int] & 0xCF,
{
    let stored = s.bytes[JOYPAD_ADDRESS as int];
    assert((stored & 0xCF | data & 0x30) & 0x30 == data & 0x30) by (bit_vector);
    assert((stored & 0xCF | data & 0x30) & 0xCF == stored & 0xCF) by (bit_vector);
}

/// When the counter stands at 0xFF and the watched bit falls, the counter is
/// reloaded from the reload register and the timer interrupt is flagged.
pub proof fn law_overflow_reloads(s: BusState)
    requires
        s.wf(),
        timer_enabled(s.bytes[TAC_ADDRESS as int]),
        falling_edge(s.divider, timer_bit(s.bytes[TAC_ADDRESS as int])),
        s.bytes[TIMA_ADDRESS as int] == 0xFF,
    ensures
        s.tick(1).bytes[TIMA_ADDRESS as int] == s.bytes[TMA_ADDRESS as int],
        s.tick(1).bytes[INTERRUPT_F_ADDRESS as int] == s.bytes[INTERRUPT_F_ADDRESS as int] | 0x04,
        s.tick(1).bytes[INTERRUPT_F_ADDRESS as int] & 0x04 == 0x04,
{
    reveal_with_fuel(BusState::advance_by, 2);
    let flags = s.bytes[INTERRUPT_F_ADDRESS as int];
    assert((flags | 0x04) & 0x04 == 0x04) by (bit_vector);
}

/// A write to the DMA register copies the 0xA0 bytes that start at
/// `page * 0x100` into the sprite table, and changes nothing else. Outside
/// the cartridge's windows the bytes are those of the store.
pub proof fn law_dma_copies_page(s: BusState, page: u8, i: int)
    requires
        s.wf(),
        0 <= i < 0x10000,
    ensures
        0xFE00 <= i <= 0xFE9F ==> s.write(DMA_ADDRESS, page).bytes[i] == s.dma_source(
            (page * 0x100 + (i - 0xFE00)) as u16,
        ),
        0xFE00 <= i <= 0xFE9F && (0x80 <= page < 0xA0 || 0xC0 <= page) ==> s.write(
            DMA_ADDRESS,
            page,
        ).bytes[i] == s.bytes[page * 0x100 + (i - 0xFE00)],
        !(0xFE00 <= i <= 0xFE9F) ==> s.write(DMA_ADDRESS, page).bytes[i] == s.bytes[i],
        s.write(DMA_ADDRESS, page).divider == s.divider,
        s.write(DMA_ADDRESS, page).cartridge == s.cartridge,
{
}

/// Access blocking of the sprite table: in display mode 2 every read of it
/// returns 0xFF; in modes 0 and 1 the stored byte is returned.
pub proof fn law_sprite_table_blocking(s: BusState, addr: u16)
    requires
        s.wf(),
        in_oam(addr),
    ensures
        s.display_mode() == 2 ==> s.read(addr) == 0xFF,
        s.display_mode() == 3 ==> s.read(addr) == 0xFF,
        s.display_mode() == 0 || s.display_mode() == 1 ==> s.read(addr) == s.bytes[addr as int],
{
}

/// Writes are never blocked: whatever the display mode, a byte written to
/// the sprite table or to tile memory reaches the store.
pub proof fn law_writes_are_never_blocked(s: BusState, addr: u16, data: u8)
    requires
        s.wf(),
        0x8000 <= addr <= 0x9FFF || 0xFE00 <= addr <= 0xFE9F,
    ensures
        s.write(addr, data).bytes[addr as int] == data,
{
}

/// Number of divider units between two falling edges of a watched bit.
pub open spec fn period(bit: u16) -> int {
    if bit == 3 {
        16
    } else if bit == 5 {
        64
    } else if bit == 7 {
        256
    } else {
        1024
    }
}

/// How many times the watched bit falls while the divider advances by
/// `units` from `divider`.
pub open spec fn edges_within(divider: u16, units: nat, bit: u16) -> int {
    (divider + units) / period(bit) - (divider as int) / period(bit)
}

/// The watched bit falls exactly when the divider reaches a multiple of the
/// bit's period.
pub proof fn lemma_edge_at_period_end(divider: u16, bit: u16)
    requires
        bit == 3 || bit == 5 || bit == 7 || bit == 9,
    ensures
        falling_edge(divider, bit) <==> (divider + 1) % period(bit) == 0,
{
    let d = divider;
    let n = next_divider(d);
    if bit == 3 {
        assert((d & 1u16 << 3u16 != 0 && !(n & 1u16 << 3u16 != 0)) <==> n % 16 == 0)
            by (bit_vector)
            requires
                n == if d == 0xFFFF { 0u16 } else { (d + 1) as u16 },
        ;
    } else if bit == 5 {
        assert((d & 1u16 << 5u16 != 0 && !(n & 1u16 << 5u16 != 0)) <==> n % 64 == 0)
            by (bit_vector)
            requires
                n == if d == 0xFFFF { 0u16 } else { (d + 1) as u16 },
        ;
    } else if bit == 7 {
        assert((d & 1u16 << 7u16 != 0 && !(n & 1u16 << 7u16 != 0)) <==> n % 256 == 0)
            by (bit_vector)
            requires
                n == if d == 0xFFFF { 0u16 } else { (d + 1) as u16 },
        ;
    } else {
        assert((d & 1u16 << 9u16 != 0 && !(n & 1u16 << 9u16 != 0)) <==> n % 1024 == 0)
            by (bit_vector)
            requires
                n == if d == 0xFFFF { 0u16 } else { (d + 1) as u16 },
        ;
    }
}

/// The edges of a run are the edge of its first unit and the edges of the
/// rest.
proof fn lemma_edges_split(divider: u16, units: nat, bit: u16)
    requires
        bit == 3 || bit == 5 || bit == 7 || bit == 9,
        units > 0,
    ensures
        edges_within(divider, units, bit) == edges_within(divider, 1, bit) + edges_within(
            next_divider(divider),
            (units - 1) as nat,
            bit,
        ),
        edges_within(divider, 1, bit) == if (divider + 1) % period(bit) == 0 {
            1int
        } else {
            0int
        },
        edges_within(next_divider(divider), (units - 1) as nat, bit) >= 0,
{
}

/// While the counter does not overflow, a run of the enabled timer adds to
/// it the number of falling edges of the watched bit, advances the divider
/// by the units modulo 0x10000, and changes nothing else.
pub proof fn lemma_advance_counts_edges(s: BusState, bit: u16, units: nat)
    requires
        s.wf(),
        bit == 3 || bit == 5 || bit == 7 || bit == 9,
        s.bytes[TIMA_ADDRESS as int] + edges_within(s.divider, units, bit) <= 255,
    ensures
        s.advance_by(bit, units).bytes =~= s.bytes.update(
            TIMA_ADDRESS as int,
            (s.bytes[TIMA_ADDRESS as int] + edges_within(s.divider, units, bit)) as u8,
        ),
        s.advance_by(bit, units).divider == (s.divider + units) % 0x10000,
        s.advance_by(bit, units).cartridge == s.cartridge,
        s.advance_by(bit, units).keys == s.keys,
    decreases units,
{
    if units > 0 {
        let t = s.advance(bit);
        lemma_edge_at_period_end(s.divider, bit);
        lemma_edges_split(s.divider, units, bit);
        lemma_advance_counts_edges(t, bit, (units - 1) as nat);
    }
}

/// With the timer enabled, and while the counter does not overflow, a tick
/// adds to the counter one for each multiple of the selected period that the
/// divider reaches, and leaves the interrupt flags alone.
pub proof fn law_tick_counts_periods(s: BusState, cycles: nat)
    requires
        s.wf(),
        timer_enabled(s.bytes[TAC_ADDRESS as int]),
        s.bytes[TIMA_ADDRESS as int] + edges_within(
            s.divider,
            cycles,
            timer_bit(s.bytes[TAC_ADDRESS as int]),
        ) <= 255,
    ensures
        s.tick(cycles).bytes[TIMA_ADDRESS as int] == s.bytes[TIMA_ADDRESS as int] + edges_within(
            s.divider,
            cycles,
            timer_bit(s.bytes[TAC_ADDRESS as int]),
        ),
        s.tick(cycles).bytes[INTERRUPT_F_ADDRESS as int] == s.bytes[INTERRUPT_F_ADDRESS as int],
        s.tick(cycles).divider == (s.divider + cycles) % 0x10000,
{
    lemma_advance_counts_edges(s, timer_bit(s.bytes[TAC_ADDRESS as int]), cycles);
}

/// With the timer disabled a tick moves the divider and nothing else.
pub proof fn law_disabled_timer_only_divides(s: BusState, cycles: nat)
    requires
        s.wf(),
        !timer_enabled(s.bytes[TAC_ADDRESS as int]),
    ensures
        s.tick(cycles).bytes == s.bytes,
        s.tick(cycles).divider == (s.divider + cycles) % 0x10000,
{
}

/// A run of the timer keeps the store's size.
pub proof fn lemma_advance_keeps_size(s: BusState, bit: u16, units: nat)
    requires
        s.wf(),
    ensures
        s.advance_by(bit, units).wf(),
    decreases units,
{
    if units > 0 {
        lemma_advance_keeps_size(s.advance(bit), bit, (units - 1) as nat);
    }
}

/// The size of the store never changes: every write and every tick leaves a
/// store that covers the whole address space.
pub proof fn law_store_size_is_fixed(s: BusState, addr: u16, data: u8, cycles: nat)
    requires
        s.wf(),
    ensures
        s.write(addr, data).wf(),
        s.tick(cycles).wf(),
{
    lemma_advance_keeps_size(s, timer_bit(s.bytes[TAC_ADDRESS as int]), cycles);
}

/// A run of the timer never touches the control register.
pub proof fn lemma_advance_keeps_control(s: BusState, bit: u16, units: nat)
    requires
        s.wf(),
    ensures
        s.advance_by(bit, units).bytes[TAC_ADDRESS as int] == s.bytes[TAC_ADDRESS as int],
    decreases units,
{
    if units > 0 {
        lemma_advance_keeps_control(s.advance(bit), bit, (units - 1) as nat);
    }
}

/// A run of `a + b` units is a run of `a` units followed by one of `b`.
pub proof fn lemma_advance_splits(s: BusState, bit: u16, a: nat, b: nat)
    ensures
        s.advance_by(bit, a + b) == s.advance_by(bit, a).advance_by(bit, b),
    decreases a,
{
    if a > 0 {
        assert(a + b - 1 == (a - 1) + b);
        lemma_advance_splits(s.advance(bit), bit, (a - 1) as nat, b);
    }
}

/// Batching does not matter: a tick of `a + b` cycles leaves the state that
/// a tick of `a` cycles followed by a tick of `b` cycles leaves.
pub proof fn law_tick_splits(s: BusState, a: nat, b: nat)
    requires
        s.wf(),
    ensures
        s.tick(a + b) == s.tick(a).tick(b),
{
    let bit = timer_bit(s.bytes[TAC_ADDRESS as int]);
    lemma_advance_keeps_control(s, bit, a);
    lemma_advance_splits(s, bit, a, b);
}

/// A cartridge without external RAM reads the fill value in the RAM window
/// and ignores writes to it.
pub proof fn law_absent_ram(s: BusState, addr: u16, data: u8)
    requires
        in_ram_window(addr),
        s.cartridge.ram.len() == 0,
    ensures
        s.read(addr) == 0xFF,
        s.write(addr, data) == s,
{
}

/// Construction without a boot sequence puts the logo at its offset in the
/// header area; construction with one sets the registers to the values a
/// boot sequence leaves. Either way the store covers the address space.
pub proof fn law_initial_state(rom: Seq<u8>, i: int)
    ensures
        BusState::initial(rom, false).wf(),
        BusState::initial(rom, true).wf(),
        BusState::initial(rom, false).bytes.subrange(0x104, 0x134) == logo(),
        0 <= i < 0x10000 ==> BusState::initial(rom, true).bytes[i] == boot_register(i),
        BusState::initial(rom, true).bytes[0xFF00] == 0xFF,
        BusState::initial(rom, true).bytes[0xFF41] == 0x81,
        BusState::initial(rom, true).bytes[0xFF0F] == 0xE1,
{
    assert(BusState::initial(rom, false).bytes.subrange(0x104, 0x134) =~= logo());
}

} // verus!
