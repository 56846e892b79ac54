//! The cartridge's bank controller: the closed set of bank-switching
//! strategies, chosen once from the cartridge header, that serves the ROM
//! window and the external RAM window of the bus.

use vstd::prelude::*;

verus! {

/// Offset of the header byte that names the cartridge's bank controller.
pub const CARTRIDGE_TYPE_OFFSET: usize = 0x147;

/// Size of the external RAM of a cartridge that carries one.
pub const EXTERNAL_RAM_SIZE: usize = 0x8000;

/// What an address outside the cartridge's contents reads as.
pub const OPEN_BUS: u8 = 0xFF;

/// The bank-switching strategies.
#[derive(Clone, Copy, Debug, PartialEq, Eq, Structural)]
pub enum CartridgeKind {
    /// 32 KiB of ROM mapped directly, no RAM, no registers.
    RomOnly,
    /// A ROM bank register for the upper half of the ROM window and,
    /// optionally, gated and banked external RAM.
    Mbc1,
}

/// The strategy that a header byte selects, if it is a supported one.
pub open spec fn kind_of_header(byte: u8) -> Option<CartridgeKind> {
    if byte == 0x00 {
        Some(CartridgeKind::RomOnly)
    } else if byte == 0x01 || byte == 0x02 || byte == 0x03 {
        Some(CartridgeKind::Mbc1)
    } else {
        None
    }
}

/// Whether a header byte announces external RAM.
pub open spec fn header_has_ram(byte: u8) -> bool {
    byte == 0x02 || byte == 0x03
}

/// Whether a bank controller can be built for these ROM bytes: the header
/// byte exists and selects a supported strategy.
pub open spec fn supported(rom: Seq<u8>) -> bool {
    rom.len() > CARTRIDGE_TYPE_OFFSET && kind_of_header(
        rom[CARTRIDGE_TYPE_OFFSET as int],
    ).is_some()
}

/// The window [0x0000, 0x7FFF].
pub open spec fn in_rom_window(addr: u16) -> bool {
    addr <= 0x7FFF
}

/// The window [0xA000, 0xBFFF].
pub open spec fn in_ram_window(addr: u16) -> bool {
    0xA000 <= addr <= 0xBFFF
}

/// The mathematical state of a bank controller.
pub struct Cartridge {
    pub kind: CartridgeKind,
    pub rom: Seq<u8>,
    pub ram: Seq<u8>,
    pub rom_bank: u8,
    pub ram_bank: u8,
    pub ram_enabled: bool,
}

impl Cartridge {
    /// The controller as it is right after construction: bank 1 in the upper
    /// half of the ROM window, RAM zeroed and disabled.
    pub open spec fn fresh(rom: Seq<u8>) -> Cartridge
        recommends
            supported(rom),
    {
        let header = rom[CARTRIDGE_TYPE_OFFSET as int];
        Cartridge {
            kind: kind_of_header(header).unwrap(),
            rom,
            ram: if header_has_ram(header) {
                Seq::new(EXTERNAL_RAM_SIZE as nat, |i: int| 0u8)
            } else {
                Seq::empty()
            },
            rom_bank: 1,
            ram_bank: 0,
            ram_enabled: false,
        }
    }

    /// The ROM byte at an offset, or the fill value past the end of the ROM.
    pub open spec fn rom_at(self, offset: int) -> u8 {
        if 0 <= offset < self.rom.len() {
            self.rom[offset]
        } else {
            OPEN_BUS
        }
    }

    /// Offset into the ROM that an address of the ROM window maps to.
    pub open spec fn rom_offset(self, addr: u16) -> int {
        if self.kind == CartridgeKind::Mbc1 && addr >= 0x4000 {
            self.rom_bank as int * 0x4000 + (addr as int - 0x4000)
        } else {
            addr as int
        }
    }

    /// Offset into the external RAM that an address of the RAM window maps to.
    pub open spec fn ram_offset(self, addr: u16) -> int {
        self.ram_bank as int * 0x2000 + (addr as int - 0xA000)
    }

    /// Whether an access to the RAM window reaches external RAM.
    pub open spec fn ram_mapped(self, addr: u16) -> bool {
        self.kind == CartridgeKind::Mbc1 && self.ram_enabled && in_ram_window(addr)
            && self.ram_offset(addr) < self.ram.len()
    }

    /// What a read of the ROM window returns.
    pub open spec fn read_rom(self, addr: u16) -> u8 {
        self.rom_at(self.rom_offset(addr))
    }

    /// The state after a write to the ROM window. The ROM's contents never
    /// change; a banked controller decodes the write as a register write.
    pub open spec fn write_rom(self, addr: u16, data: u8) -> Cartridge {
        if self.kind == CartridgeKind::RomOnly {
            self
        } else if addr < 0x2000 {
            Cartridge { ram_enabled: data & 0x0F == 0x0A, ..self }
        } else if addr < 0x4000 {
            Cartridge { rom_bank: if data & 0x1F == 0 { 1u8 } else { data & 0x1F }, ..self }
        } else if addr < 0x6000 {
            Cartridge { ram_bank: data & 0x03, ..self }
        } else {
            self
        }
    }

    /// What a read of the external RAM window returns: the fill value where
    /// no RAM is mapped.
    pub open spec fn read_ram(self, addr: u16) -> u8 {
        if self.ram_mapped(addr) {
            self.ram[self.ram_offset(addr)]
        } else {
            OPEN_BUS
        }
    }

    /// The state after a write to the external RAM window: ignored where no
    /// RAM is mapped.
    pub open spec fn write_ram(self, addr: u16, data: u8) -> Cartridge {
        if self.ram_mapped(addr) {
            Cartridge { ram: self.ram.update(self.ram_offset(addr), data), ..self }
        } else {
            self
        }
    }
}

/// A cartridge's bank controller.
pub struct BankController {
    kind: CartridgeKind,
    rom: Vec<u8>,
    ram: Vec<u8>,
    rom_bank: u8,
    ram_bank: u8,
    ram_enabled: bool,
}

impl View for BankController {
    type V = Cartridge;

    closed spec fn view(&self) -> Cartridge {
        Cartridge {
            kind: self.kind,
            rom: self.rom@,
            ram: self.ram@,
            rom_bank: self.rom_bank,
            ram_bank: self.ram_bank,
            ram_enabled: self.ram_enabled,
        }
    }
}

/// The strategy that the ROM's header selects: `None` where the ROM is too
/// short to hold the header byte or the byte names an unsupported controller.
pub fn cartridge_kind(rom: &Vec<u8>) -> (kind: Option<CartridgeKind>)
    ensures
        kind.is_some() == supported(rom@),
        supported(rom@) ==> kind == kind_of_header(rom@[CARTRIDGE_TYPE_OFFSET as int]),
{
    if rom.len() <= CARTRIDGE_TYPE_OFFSET {
        return None;
    }
    let header = rom[CARTRIDGE_TYPE_OFFSET];
    if header == 0x00 {
        Some(CartridgeKind::RomOnly)
    } else if header == 0x01 || header == 0x02 || header == 0x03 {
        Some(CartridgeKind::Mbc1)
    } else {
        None
    }
}

/// Builds the bank controller that the ROM's header selects.
pub fn create_mbc(rom: Vec<u8>) -> (mbc: BankController)
    requires
        supported(rom@),
    ensures
        mbc@ == Cartridge::fresh(rom@),
{
    let header = rom[CARTRIDGE_TYPE_OFFSET];
    let kind = if header == 0x00 {
        CartridgeKind::RomOnly
    } else {
        CartridgeKind::Mbc1
    };
    let ram: Vec<u8> = if header == 0x02 || header == 0x03 {
        vec![0u8; EXTERNAL_RAM_SIZE]
    } else {
        Vec::new()
    };
    assert(ram@ =~= Cartridge::fresh(rom@).ram);
    BankController { kind, rom, ram, rom_bank: 1, ram_bank: 0, ram_enabled: false }
}

impl BankController {
    fn rom_byte(&self, offset: usize) -> (r: u8)
        ensures
            r == self@.rom_at(offset as int),
    {
        if offset < self.rom.len() {
            self.rom[offset]
        } else {
            OPEN_BUS
        }
    }

    /// Reads the ROM window.
    pub fn read_rom(&self, addr: u16) -> (r: u8)
        requires
            in_rom_window(addr),
        ensures
            r == self@.read_rom(addr),
    {
        match self.kind {
            CartridgeKind::RomOnly => self.rom_byte(addr as usize),
            CartridgeKind::Mbc1 => {
                if addr < 0x4000 {
                    self.rom_byte(addr as usize)
                } else {
                    self.rom_byte(self.rom_bank as usize * 0x4000 + (addr as usize - 0x4000))
                }
            },
        }
    }

    /// Writes to the ROM window, which sets bank registers and leaves the
    /// ROM's contents alone.
    pub fn write_rom(&mut self, addr: u16, data: u8)
        requires
            in_rom_window(addr),
        ensures
            final(self)@ == old(self)@.write_rom(addr, data),
    {
        match self.kind {
            CartridgeKind::RomOnly => {},
            CartridgeKind::Mbc1 => {
                if addr < 0x2000 {
                    self.ram_enabled = data & 0x0F == 0x0A;
                } else if addr < 0x4000 {
                    let bank = data & 0x1F;
                    self.rom_bank = if bank == 0 { 1 } else { bank };
                } else if addr < 0x6000 {
                    self.ram_bank = data & 0x03;
                }
            },
        }
    }

    /// Reads the external RAM window.
    pub fn read_ram(&self, addr: u16) -> (r: u8)
        requires
            in_ram_window(addr),
        ensures
            r == self@.read_ram(addr),
    {
        match self.kind {
            CartridgeKind::RomOnly => OPEN_BUS,
            CartridgeKind::Mbc1 => {
                let offset = self.ram_bank as usize * 0x2000 + (addr as usize - 0xA000);
                if self.ram_enabled && offset < self.ram.len() {
                    self.ram[offset]
                } else {
                    OPEN_BUS
                }
            },
        }
    }

    /// Writes to the external RAM window.
    pub fn write_ram(&mut self, addr: u16, data: u8)
        requires
            in_ram_window(addr),
        ensures
            final(self)@ == old(self)@.write_ram(addr, data),
    {
        match self.kind {
            CartridgeKind::RomOnly => {},
            CartridgeKind::Mbc1 => {
                let offset = self.ram_bank as usize * 0x2000 + (addr as usize - 0xA000);
                if self.ram_enabled && offset < self.ram.len() {
                    self.ram.set(offset, data);
                }
            },
        }
    }
}

} // verus!
