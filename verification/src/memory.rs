//! The address bus: the flat 64 KiB store, the cartridge's bank controller
//! and the divider, with every hardware quirk of address decoding.
//!
//! [`BusState`] is the mathematical model; its spec functions say what each
//! access does, and the methods of [`Memory`] are proved against them.

use vstd::prelude::*;
use crate::joypad::{joypad, joypad_value, Keys};
use crate::tile::{decode_row, tile_row};
use crate::timer::{bit_set, timer_bit, TIMER_INTERRUPT};
use crate::mbc::{create_mbc, in_ram_window, in_rom_window, supported, BankController, Cartridge};
use crate::util::{
    little_endian_combine, logo, nintendo_logo, word_of, DIV_ADDRESS, DMA_ADDRESS,
    INTERRUPT_F_ADDRESS, JOYPAD_ADDRESS, LCDC_ADDRESS, LOGO_LEN, LOGO_OFFSET, OAM_START,
    STAT_ADDRESS, TAC_ADDRESS, TIMA_ADDRESS, TMA_ADDRESS,
};

verus! {

/// Number of addressable bytes.
pub const MEMORY_SIZE: usize = 0x10000;

/// Number of bytes that one sprite DMA copies.
pub const DMA_LENGTH: usize = 0xA0;

/// The divider's value after construction.
pub const INITIAL_DIVIDER: u16 = 0x1800;

/// The sprite table [0xFE00, 0xFE9F].
pub open spec fn in_oam(addr: u16) -> bool {
    0xFE00 <= addr <= 0xFE9F
}

/// Tile memory [0x8000, 0x9FFF].
pub open spec fn in_vram(addr: u16) -> bool {
    0x8000 <= addr <= 0x9FFF
}

/// The address after `addr`, wrapping at the end of the address space.
pub open spec fn next_address(addr: u16) -> u16 {
    if addr == 0xFFFF {
        0u16
    } else {
        (addr + 1) as u16
    }
}

/// The less significant byte of a word.
pub open spec fn low_byte(word: u16) -> u8 {
    (word % 256) as u8
}

/// The more significant byte of a word.
pub open spec fn high_byte(word: u16) -> u8 {
    (word / 256) as u8
}

/// The value that a register holds after a boot sequence has run; 0 for
/// every address that the boot sequence leaves alone.
pub open spec fn boot_register(addr: int) -> u8 {
    if addr == 0xFF00 {
        0xFF
    } else if addr == 0xFF02 {
        0x7E
    } else if addr == 0xFF07 {
        0xF8
    } else if addr == 0xFF0F {
        0xE1
    } else if addr == 0xFF40 {
        0x91
    } else if addr == 0xFF41 {
        0x81
    } else if addr == 0xFF46 {
        0xFF
    } else {
        0x00
    }
}

/// The byte at an address before a boot sequence has run: the logo at its
/// place in the header area, 0 elsewhere.
pub open spec fn logo_byte(addr: int) -> u8 {
    if LOGO_OFFSET <= addr < LOGO_OFFSET + LOGO_LEN {
        logo()[addr - LOGO_OFFSET]
    } else {
        0x00
    }
}

/// A tile index read as a signed byte.
pub open spec fn signed_index(index: u8) -> int {
    if index < 128 {
        index as int
    } else {
        index - 256
    }
}

/// Where the data of a tile starts: counted up from 0x8000 with an unsigned
/// index, or around 0x9000 with a signed one.
pub open spec fn tile_address(index: u8, addressing: u16) -> u16 {
    if addressing == 0x8000 {
        (0x8000 + index * 16) as u16
    } else {
        (0x9000 + signed_index(index) * 16) as u16
    }
}

/// The mathematical state of the bus.
pub struct BusState {
    /// The flat store, one byte per address.
    pub bytes: Seq<u8>,
    /// The 16-bit divider, of which DIV shows the upper byte.
    pub divider: u16,
    /// The bank controller.
    pub cartridge: Cartridge,
    /// The keys that are held.
    pub keys: Keys,
}

impl BusState {
    /// The store covers the whole address space.
    pub open spec fn wf(self) -> bool {
        self.bytes.len() == MEMORY_SIZE
    }

    /// The state right after construction.
    pub open spec fn initial(rom: Seq<u8>, booted: bool) -> BusState {
        BusState {
            bytes: if booted {
                Seq::new(MEMORY_SIZE as nat, |i: int| boot_register(i))
            } else {
                Seq::new(MEMORY_SIZE as nat, |i: int| logo_byte(i))
            },
            divider: INITIAL_DIVIDER,
            cartridge: Cartridge::fresh(rom),
            keys: Keys::released(),
        }
    }

    /// The mode that the display reports in the low two bits of its status
    /// register.
    pub open spec fn display_mode(self) -> u8 {
        self.bytes[STAT_ADDRESS as int] & 0b0000_0011
    }

    /// Whether the display keeps the bus from reading an address: the sprite
    /// table in mode 2, the sprite table and tile memory in mode 3.
    pub open spec fn blocked(self, addr: u16) -> bool {
        (self.display_mode() == 2 && in_oam(addr)) || (self.display_mode() == 3 && (in_oam(addr)
            || in_vram(addr)))
    }

    /// What a read returns.
    pub open spec fn read(self, addr: u16) -> u8 {
        if in_rom_window(addr) {
            self.cartridge.read_rom(addr)
        } else if in_ram_window(addr) {
            self.cartridge.read_ram(addr)
        } else if addr == JOYPAD_ADDRESS {
            joypad_value(self.bytes[JOYPAD_ADDRESS as int], self.keys)
        } else if addr == DIV_ADDRESS {
            (self.divider >> 8) as u8
        } else if self.blocked(addr) {
            0xFF
        } else {
            self.bytes[addr as int]
        }
    }

    /// The word read from two consecutive addresses, low byte first.
    pub open spec fn read_word(self, addr: u16) -> u16 {
        word_of(self.read(addr), self.read(next_address(addr)))
    }

    /// The byte that a sprite DMA takes from an address: the bank
    /// controller's inside the cartridge's windows, the stored one elsewhere.
    pub open spec fn dma_source(self, addr: u16) -> u8 {
        if in_rom_window(addr) {
            self.cartridge.read_rom(addr)
        } else if in_ram_window(addr) {
            self.cartridge.read_ram(addr)
        } else {
            self.bytes[addr as int]
        }
    }

    /// The store after a sprite DMA from the given page: the 0xA0 bytes from
    /// `page * 0x100` onward appear in the sprite table.
    pub open spec fn dma_bytes(self, page: u8) -> Seq<u8> {
        Seq::new(
            MEMORY_SIZE as nat,
            |i: int|
                if OAM_START <= i < OAM_START + DMA_LENGTH {
                    self.dma_source((page * 0x100 + (i - OAM_START)) as u16)
                } else {
                    self.bytes[i]
                },
        )
    }

    /// The store after a plain write, with the echo of working RAM:
    /// [0xC000, 0xDE00) is mirrored 0x2000 higher, [0xE000, 0xFE00) 0x2000
    /// lower.
    pub open spec fn stored_bytes(self, addr: u16, data: u8) -> Seq<u8> {
        let direct = self.bytes.update(addr as int, data);
        if 0xC000 <= addr < 0xDE00 {
            direct.update(addr + 0x2000, data)
        } else if 0xE000 <= addr < 0xFE00 {
            direct.update(addr - 0x2000, data)
        } else {
            direct
        }
    }

    /// The state after a write.
    pub open spec fn write(self, addr: u16, data: u8) -> BusState {
        if in_rom_window(addr) {
            BusState { cartridge: self.cartridge.write_rom(addr, data), ..self }
        } else if in_ram_window(addr) {
            BusState { cartridge: self.cartridge.write_ram(addr, data), ..self }
        } else if addr == JOYPAD_ADDRESS {
            let stored = self.bytes[JOYPAD_ADDRESS as int];
            BusState {
                bytes: self.bytes.update(JOYPAD_ADDRESS as int, stored & 0xCF | data & 0x30),
                ..self
            }
        } else if addr == DIV_ADDRESS {
            BusState { divider: 0, ..self }
        } else if addr == DMA_ADDRESS {
            BusState { bytes: self.dma_bytes(data), ..self }
        } else if addr == LCDC_ADDRESS && data & 0b1000_0000 == 0 {
            let status = self.bytes[STAT_ADDRESS as int];
            BusState {
                bytes: self.bytes.update(STAT_ADDRESS as int, status & 0b1111_1100).update(
                    LCDC_ADDRESS as int,
                    data,
                ),
                ..self
            }
        } else {
            BusState { bytes: self.stored_bytes(addr, data), ..self }
        }
    }

    /// The state after the input interrupt is requested: bit 4 of the
    /// interrupt flag register is set through an ordinary read and write.
    pub open spec fn request_input_interrupt(self) -> BusState {
        self.write(INTERRUPT_F_ADDRESS, self.read(INTERRUPT_F_ADDRESS) | 0b0001_0000)
    }

    /// The stored byte at `base + offset`, the sum taken modulo the size of
    /// the address space.
    pub open spec fn byte_at(self, base: int, offset: int) -> u8 {
        self.bytes[(base + offset) % (MEMORY_SIZE as int)]
    }

    /// The four descriptor bytes of a sprite slot.
    pub open spec fn sprite(self, index: u8) -> Seq<u8> {
        Seq::new(4, |k: int| self.byte_at(OAM_START + 4 * index, k))
    }

    /// The eight packed rows of the tile whose data starts at `addr`: row
    /// `i` is decoded from the bytes at `addr + 2i` (low) and `addr + 2i + 1`
    /// (high).
    pub open spec fn tile(self, addr: u16) -> Seq<u16> {
        Seq::new(
            8,
            |i: int| tile_row(self.byte_at(addr as int, 2 * i), self.byte_at(addr as int, 2 * i + 1)),
        )
    }

    /// The state after a word is written to two consecutive addresses, low
    /// byte first.
    pub open spec fn write_word(self, addr: u16, data: u16) -> BusState {
        self.write(addr, low_byte(data)).write(next_address(addr), high_byte(data))
    }
}

/// The address bus.
pub struct Memory {
    pub(crate) mem: Vec<u8>,
    pub(crate) mbc: BankController,
    pub(crate) div: u16,
    pub(crate) keys: Keys,
}

impl View for Memory {
    type V = BusState;

    closed spec fn view(&self) -> BusState {
        BusState { bytes: self.mem@, divider: self.div, cartridge: self.mbc@, keys: self.keys }
    }
}

/// Whether an index lies in the sprite table.
pub fn is_within_oam(index: usize) -> (r: bool)
    ensures
        r == (0xFE00 <= index <= 0xFE9F),
{
    index >= 0xFE00 && index <= 0xFE9F
}

/// Whether an index lies in tile memory.
pub fn is_within_vram(index: usize) -> (r: bool)
    ensures
        r == (0x8000 <= index <= 0x9FFF),
{
    index >= 0x8000 && index <= 0x9FFF
}

/// Whether an index lies in the cartridge's ROM window.
pub fn is_within_rom(index: usize) -> (r: bool)
    ensures
        r == (index <= 0x7FFF),
{
    index <= 0x7FFF
}

/// Whether an index lies in the cartridge's RAM window.
pub fn is_within_ram(index: usize) -> (r: bool)
    ensures
        r == (0xA000 <= index <= 0xBFFF),
{
    index >= 0xA000 && index <= 0xBFFF
}

/// Copies the 0xA0 bytes that start at `address * 0x100` into the sprite
/// table.
pub fn process_dma(mem: &mut Memory, address: u8)
    requires
        old(mem).wf(),
    ensures
        final(mem).wf(),
        final(mem)@ == (BusState { bytes: old(mem)@.dma_bytes(address), ..old(mem)@ }),
{
    let real_address = address as usize * 0x100;
    let ghost before = mem@;
    let mut i: usize = 0;
    while i < DMA_LENGTH
        invariant
            i <= DMA_LENGTH,
            real_address == address as usize * 0x100,
            before.bytes.len() == MEMORY_SIZE,
            mem.mem@.len() == MEMORY_SIZE,
            mem.div == before.divider,
            mem.mbc@ == before.cartridge,
            mem.keys == before.keys,
            forall|k: int|
                0 <= k < MEMORY_SIZE ==> #[trigger] mem.mem@[k] == if 0xFE00 <= k < 0xFE00 + i {
                    before.dma_source((real_address + (k - 0xFE00)) as u16)
                } else {
                    before.bytes[k]
                },
        decreases DMA_LENGTH - i,
    {
        let source = real_address + i;
        let value = if is_within_rom(source) {
            mem.mbc.read_rom(source as u16)
        } else if is_within_ram(source) {
            mem.mbc.read_ram(source as u16)
        } else {
            mem.mem[source]
        };
        mem.mem.set(0xFE00 + i, value);
        i += 1;
    }
    assert(mem.mem@ =~= before.dma_bytes(address));
}

impl Memory {
    /// The store covers the whole address space.
    pub open spec fn wf(&self) -> bool {
        self@.wf()
    }

    /// Builds the bus for a cartridge. With `booted` the registers hold what
    /// a boot sequence leaves in them; without it the logo stands where the
    /// boot sequence looks for it.
    pub fn new(rom: Vec<u8>, booted: bool) -> (memory: Memory)
        requires
            supported(rom@),
        ensures
            memory.wf(),
            memory@ == BusState::initial(rom@, booted),
    {
        let ghost contents = rom@;
        let mut memory = Memory::new_unbooted(rom);
        if !booted {
            let signature = nintendo_logo();
            let mut i: usize = 0;
            while i < LOGO_LEN
                invariant
                    i <= LOGO_LEN,
                    signature@ == logo(),
                    memory.mem@.len() == MEMORY_SIZE,
                    memory.div == INITIAL_DIVIDER,
                    memory.mbc@ == Cartridge::fresh(contents),
                    memory.keys == Keys::released(),
                    forall|k: int|
                        0 <= k < MEMORY_SIZE ==> #[trigger] memory.mem@[k] == if LOGO_OFFSET <= k
                            < LOGO_OFFSET + i {
                            logo()[k - LOGO_OFFSET]
                        } else {
                            0u8
                        },
                decreases LOGO_LEN - i,
            {
                memory.mem.set(LOGO_OFFSET + i, signature[i]);
                i += 1;
            }
            assert(memory.mem@ =~= BusState::initial(contents, booted).bytes);
            return memory;
        }
        memory.mem.set(0xFF00, 0xFF);
        memory.mem.set(0xFF02, 0x7E);
        memory.div = INITIAL_DIVIDER;
        memory.mem.set(0xFF07, 0xF8);
        memory.mem.set(0xFF0F, 0xE1);
        memory.mem.set(0xFF40, 0x91);
        memory.mem.set(0xFF41, 0x81);
        memory.mem.set(0xFF44, 0x00);
        memory.mem.set(0xFF46, 0xFF);
        assert(memory.mem@ =~= BusState::initial(contents, booted).bytes);
        memory
    }

    fn new_unbooted(rom: Vec<u8>) -> (memory: Memory)
        requires
            supported(rom@),
        ensures
            memory.mem@ == Seq::new(MEMORY_SIZE as nat, |i: int| 0u8),
            memory.div == INITIAL_DIVIDER,
            memory.mbc@ == Cartridge::fresh(rom@),
            memory.keys == Keys::released(),
    {
        let memory = vec![0u8; MEMORY_SIZE];
        assert(memory@ =~= Seq::new(MEMORY_SIZE as nat, |i: int| 0u8));
        let mbc = create_mbc(rom);
        Memory { mem: memory, div: INITIAL_DIVIDER, mbc, keys: Keys::none() }
    }

    /// Records which keys are held; reads of the input register compose
    /// this state until the next call.
    pub fn set_keys(&mut self, keys: Keys)
        ensures
            final(self)@ == (BusState { keys, ..old(self)@ }),
    {
        self.keys = keys;
    }

    /// Writes a byte, with the side effects of the address it goes to.
    pub fn write(&mut self, address: u16, data: u8)
        requires
            old(self).wf(),
        ensures
            final(self).wf(),
            final(self)@ == old(self)@.write(address, data),
    {
        let index = address as usize;
        if is_within_rom(index) {
            self.mbc.write_rom(address, data);
            return;
        }
        if is_within_ram(index) {
            self.mbc.write_ram(address, data);
            return;
        }
        if address == JOYPAD_ADDRESS {
            // only the two selection bits are writable
            let stored = self.mem[0xFF00];
            self.mem.set(0xFF00, stored & 0xCF | data & 0x30);
        } else if address == DIV_ADDRESS {
            self.div = 0;
        } else if address == DMA_ADDRESS {
            process_dma(self, data);
        } else if address == LCDC_ADDRESS && data & 0b1000_0000 == 0 {
            let status = self.mem[0xFF41];
            self.mem.set(0xFF41, status & 0b1111_1100);
            self.mem.set(0xFF40, data);
        } else {
            self.store(address, data);
        }
    }

    fn store(&mut self, address: u16, data: u8)
        requires
            old(self).wf(),
        ensures
            final(self)@ == (BusState {
                bytes: old(self)@.stored_bytes(address, data),
                ..old(self)@
            }),
            final(self).wf(),
    {
        let index = address as usize;
        self.mem.set(index, data);
        if index >= 0xC000 && index < 0xDE00 {
            self.mem.set(index + 0x2000, data);
        } else if index >= 0xE000 && index < 0xFE00 {
            self.mem.set(index - 0x2000, data);
        }
    }

    /// Writes a word as two byte writes, the low byte to the lower address.
    pub fn write_word(&mut self, address: u16, data: u16)
        requires
            old(self).wf(),
        ensures
            final(self).wf(),
            final(self)@ == old(self)@.write_word(address, data),
    {
        proof {
            assert(data & 0xFF == data % 256) by (bit_vector);
            assert(data >> 8 == data / 256) by (bit_vector);
        }
        self.write(address, (data & 0xFF) as u8);
        self.write(address.wrapping_add(1), (data >> 8) as u8);
    }

    /// The stored byte at an address, with no quirk applied.
    pub fn unchecked_read(&self, address: u16) -> (r: u8)
        requires
            self.wf(),
        ensures
            r == self@.bytes[address as int],
    {
        self.mem[address as usize]
    }

    /// Reads a byte as the processor sees it.
    pub fn read(&self, address: u16) -> (r: u8)
        requires
            self.wf(),
        ensures
            r == self@.read(address),
    {
        let index = address as usize;
        if is_within_rom(index) {
            return self.mbc.read_rom(address);
        }
        if is_within_ram(index) {
            return self.mbc.read_ram(address);
        }
        if address == JOYPAD_ADDRESS {
            return joypad(self.mem[0xFF00], self.keys);
        }
        if address == DIV_ADDRESS {
            return (self.div >> 8) as u8;
        }
        let blocker = self.mem[0xFF41] & 0b0000_0011;
        let oam = is_within_oam(index);
        if (blocker == 2 && oam) || (blocker == 3 && (oam || is_within_vram(index))) {
            0xFF
        } else {
            self.mem[index]
        }
    }

    /// Reads a word as two byte reads, the low byte from the lower address.
    pub fn read_word(&mut self, address: u16) -> (r: u16)
        requires
            old(self).wf(),
        ensures
            *final(self) == *old(self),
            r == old(self)@.read_word(address),
    {
        little_endian_combine(self.read(address), self.read(address.wrapping_add(1)))
    }

    /// The four raw descriptor bytes of a sprite slot.
    pub fn oam_search(&self, index: u8) -> (r: [u8; 4])
        requires
            self.wf(),
        ensures
            r@ == self@.sprite(index),
    {
        // the start of the sprite table plus the index spacing
        let start = 0xFE00 + (index as usize * 4);
        let r = [
            self.mem[start % MEMORY_SIZE],
            self.mem[(start + 1) % MEMORY_SIZE],
            self.mem[(start + 2) % MEMORY_SIZE],
            self.mem[(start + 3) % MEMORY_SIZE],
        ];
        assert(r@ =~= self@.sprite(index));
        r
    }

    /// Decodes the tile that a tile-map entry names. `address` is that of
    /// the entry, not of the tile's data.
    pub fn read_bg_tile(&self, address: u16, addressing: u16) -> (tile: [u16; 8])
        requires
            self.wf(),
            addressing == 0x8000 || addressing == 0x8800,
        ensures
            tile@ == self@.tile(tile_address(self@.bytes[address as int], addressing)),
    {
        let tile_index = self.mem[address as usize];
        let tile_address = if addressing == 0x8000 {
            addressing + (tile_index as u16) * 16
        } else if tile_index < 128 {
            0x9000 + (tile_index as u16) * 16
        } else {
            0x9000 - (256 - tile_index as u16) * 16
        };
        self.read_tile(tile_address)
    }

    /// Decodes the eight rows of the tile whose data starts at `address`.
    pub fn read_tile(&self, address: u16) -> (tile: [u16; 8])
        requires
            self.wf(),
        ensures
            tile@ == self@.tile(address),
    {
        let mut tile_data = [0u16;8];
        let mut i: usize = 0;
        while i < 8
            invariant
                i <= 8,
                self.wf(),
                forall|k: int|
                    0 <= k < i ==> #[trigger] tile_data@[k] == tile_row(
                        self@.byte_at(address as int, 2 * k),
                        self@.byte_at(address as int, 2 * k + 1),
                    ),
            decreases 8 - i,
        {
            let low = i * 2;
            let high = (i * 2) + 1;
            let low_data = self.mem[(address as usize + low) % MEMORY_SIZE];
            let high_data = self.mem[(address as usize + high) % MEMORY_SIZE];
            tile_data[i] = decode_row(low_data, high_data);
            i += 1;
        }
        assert(tile_data@ =~= self@.tile(address));
        tile_data
    }
}

fn watched_bit(tac: u8) -> (bit: u16)
    ensures
        bit == timer_bit(tac),
        bit < 16,
{
    let select = tac & 0x3;
    if select == 0 {
        9
    } else if select == 1 {
        3
    } else if select == 2 {
        5
    } else {
        7
    }
}

impl Memory {
    fn count_up(&mut self)
        requires
            old(self).wf(),
        ensures
            final(self).wf(),
            final(self)@ == old(self)@.count_up(),
    {
        let tima = self.mem[0xFF05];
        if tima == 0xFF {
            // the counter is reloaded from the reload register
            let tma = self.mem[0xFF06];
            self.mem.set(0xFF05, tma);
            let flags = self.mem[0xFF0F];
            self.mem.set(0xFF0F, flags | TIMER_INTERRUPT);
        } else {
            self.mem.set(0xFF05, tima + 1);
        }
    }

    /// Advances the timer by the given number of cycles.
    pub fn tick(&mut self, cycles: u32)
        requires
            old(self).wf(),
        ensures
            final(self).wf(),
            final(self)@ == old(self)@.tick(cycles as nat),
    {
        let tac = self.mem[0xFF07];
        let timer_enable = tac & 0x4 != 0;
        if !timer_enable {
            self.div = ((self.div as u64 + cycles as u64) % 0x10000) as u16;
            return;
        }
        let bit_position = watched_bit(tac);
        let ghost before = self@;
        let mut prev_edge = self.div & 1u16 << bit_position != 0;
        let mut i: u32 = 0;
        while i < cycles
            invariant
                i <= cycles,
                bit_position < 16,
                self.wf(),
                prev_edge == bit_set(self.div, bit_position),
                before.advance_by(bit_position, cycles as nat) == self@.advance_by(
                    bit_position,
                    (cycles - i) as nat,
                ),
            decreases cycles - i,
        {
            self.div = self.div.wrapping_add(1);
            let anded_result = self.div & 1u16 << bit_position != 0;
            if prev_edge && !anded_result {
                self.count_up();
            }
            prev_edge = anded_result;
            i += 1;
        }
    }
}

/// Advances the timer by the cycles that one processor step took.
pub fn update_timer(memory: &mut Memory, cycles: u8)
    requires
        old(memory).wf(),
    ensures
        final(memory).wf(),
        final(memory)@ == old(memory)@.tick(cycles as nat),
{
    memory.tick(cycles as u32);
}

} // verus!
