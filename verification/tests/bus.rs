use gameboy_memory::joypad::{joypad_interrupt, Keys};
use gameboy_memory::memory::{
    is_within_oam, is_within_ram, is_within_rom, is_within_vram, process_dma, Memory,
};
use gameboy_memory::util::{little_endian_combine, nintendo_logo, INTERRUPT_F_ADDRESS};

fn plain_rom() -> Vec<u8> {
    let mut rom = vec![0u8; 0x8000];
    for i in 0..0x8000usize {
        rom[i] = (i % 251) as u8;
    }
    rom[0x147] = 0x00;
    rom
}

fn no_keys() -> Keys {
    Keys {
        a: false,
        b: false,
        select: false,
        start: false,
        right: false,
        left: false,
        up: false,
        down: false,
    }
}

#[test]
fn unbooted_memory_holds_the_logo() {
    let memory = Memory::new(plain_rom(), false);
    let logo = nintendo_logo();
    assert_eq!(logo.len(), 48);
    for i in 0..48u16 {
        assert_eq!(memory.unchecked_read(0x104 + i), logo[i as usize]);
    }
    assert_eq!(memory.unchecked_read(0x104), 0xCE);
    assert_eq!(memory.unchecked_read(0x105), 0xED);
    assert_eq!(memory.unchecked_read(0x133), 0x3E);
    assert_eq!(memory.unchecked_read(0x103), 0x00);
    assert_eq!(memory.unchecked_read(0x134), 0x00);
    assert_eq!(memory.unchecked_read(0xFF41), 0x00);
    assert_eq!(memory.read(0xFF04), 0x18);
}

#[test]
fn booted_memory_holds_the_register_table() {
    let memory = Memory::new(plain_rom(), true);
    assert_eq!(memory.read(0xFF00), 0xFF);
    assert_eq!(memory.unchecked_read(0xFF00), 0xFF);
    assert_eq!(memory.read(0xFF02), 0x7E);
    assert_eq!(memory.read(0xFF04), 0x18);
    assert_eq!(memory.read(0xFF07), 0xF8);
    assert_eq!(memory.read(0xFF0F), 0xE1);
    assert_eq!(memory.read(0xFF40), 0x91);
    assert_eq!(memory.read(0xFF41), 0x81);
    assert_eq!(memory.read(0xFF44), 0x00);
    assert_eq!(memory.read(0xFF46), 0xFF);
    assert_eq!(memory.unchecked_read(0x104), 0x00);
    assert_eq!(memory.read(0xFF01), 0x00);
    assert_eq!(memory.read(0xC000), 0x00);
}

#[test]
fn rom_window_reads_the_cartridge_and_not_the_store() {
    let mut memory = Memory::new(plain_rom(), false);
    assert_eq!(memory.read(0x0000), 0);
    assert_eq!(memory.read(0x1234), 142);
    assert_eq!(memory.read(0x7FFF), (0x7FFFusize % 251) as u8);
    assert_eq!(memory.unchecked_read(0x1234), 0);
    memory.write(0x1234, 0x55);
    assert_eq!(memory.read(0x1234), 142);
    assert_eq!(memory.unchecked_read(0x1234), 0);
    // the logo in the store is not what the bus reads in the ROM window
    assert_eq!(memory.read(0x104), (0x104usize % 251) as u8);
}

#[test]
fn ram_window_without_ram_reads_the_fill_value() {
    let mut memory = Memory::new(plain_rom(), false);
    assert_eq!(memory.read(0xA000), 0xFF);
    memory.write(0xA000, 0x12);
    memory.write(0xBFFF, 0x34);
    assert_eq!(memory.read(0xA000), 0xFF);
    assert_eq!(memory.read(0xBFFF), 0xFF);
    assert_eq!(memory.unchecked_read(0xA000), 0);
    assert_eq!(memory.unchecked_read(0xBFFF), 0);
}

#[test]
fn working_ram_is_echoed_upward() {
    let mut memory = Memory::new(plain_rom(), false);
    memory.write(0xC000, 0x11);
    memory.write(0xC123, 0x22);
    memory.write(0xDDFF, 0x33);
    assert_eq!(memory.read(0xE000), 0x11);
    assert_eq!(memory.read(0xE123), 0x22);
    assert_eq!(memory.read(0xFDFF), 0x33);
    assert_eq!(memory.read(0xC123), 0x22);
}

#[test]
fn echo_ram_is_echoed_downward() {
    let mut memory = Memory::new(plain_rom(), false);
    memory.write(0xE000, 0x44);
    memory.write(0xF00F, 0x55);
    memory.write(0xFDFF, 0x66);
    assert_eq!(memory.read(0xC000), 0x44);
    assert_eq!(memory.read(0xD00F), 0x55);
    assert_eq!(memory.read(0xDDFF), 0x66);
    assert_eq!(memory.read(0xF00F), 0x55);
}

#[test]
fn echo_stops_at_its_bounds() {
    let mut memory = Memory::new(plain_rom(), false);
    memory.write(0xDE00, 0x77);
    assert_eq!(memory.read(0xDE00), 0x77);
    assert_eq!(memory.unchecked_read(0xFE00), 0x00);
    memory.write(0xFE00, 0x88);
    assert_eq!(memory.unchecked_read(0xFE00), 0x88);
    assert_eq!(memory.read(0xDE00), 0x77);
    memory.write(0xDFFF, 0x99);
    assert_eq!(memory.unchecked_read(0xFFFF), 0x00);
    memory.write(0x9FFF, 0x12);
    assert_eq!(memory.unchecked_read(0xBFFF), 0x00);
}

#[test]
fn div_write_resets_the_divider() {
    let mut memory = Memory::new(plain_rom(), true);
    assert_eq!(memory.read(0xFF04), 0x18);
    memory.write(0xFF04, 0xAB);
    assert_eq!(memory.read(0xFF04), 0x00);
    assert_eq!(memory.unchecked_read(0xFF04), 0x00);
}

#[test]
fn disabling_the_display_clears_the_status_mode() {
    let mut memory = Memory::new(plain_rom(), true);
    memory.write(0xFF41, 0x83);
    memory.write(0xFF40, 0x91);
    assert_eq!(memory.read(0xFF41), 0x83);
    memory.write(0xFF40, 0x11);
    assert_eq!(memory.read(0xFF41), 0x80);
    assert_eq!(memory.read(0xFF40), 0x11);
}

#[test]
fn dma_copies_a_page_into_the_sprite_table() {
    let mut memory = Memory::new(plain_rom(), false);
    for i in 0..0xA0u16 {
        memory.write(0xC000 + i, (i as u8).wrapping_mul(3).wrapping_add(1));
    }
    memory.write(0xC0A0, 0xEE);
    memory.write(0xFF46, 0xC0);
    for i in 0..0xA0u16 {
        assert_eq!(memory.unchecked_read(0xFE00 + i), (i as u8).wrapping_mul(3).wrapping_add(1));
        assert_eq!(memory.unchecked_read(0xC000 + i), (i as u8).wrapping_mul(3).wrapping_add(1));
    }
    assert_eq!(memory.unchecked_read(0xFE00), 1);
    assert_eq!(memory.unchecked_read(0xFE9F), 0xDE);
    assert_eq!(memory.unchecked_read(0xFEA0), 0x00);
    // the trigger register itself stores nothing
    assert_eq!(memory.unchecked_read(0xFF46), 0x00);
}

#[test]
fn process_dma_copies_from_the_store() {
    let mut memory = Memory::new(plain_rom(), false);
    memory.write(0xFF80, 0x5A);
    memory.write(0xFF9F, 0xA5);
    process_dma(&mut memory, 0xFF);
    assert_eq!(memory.unchecked_read(0xFE80), 0x5A);
    assert_eq!(memory.unchecked_read(0xFE9F), 0xA5);
    // the sprite table itself as the source changes nothing
    process_dma(&mut memory, 0xFE);
    assert_eq!(memory.unchecked_read(0xFE80), 0x5A);
    assert_eq!(memory.unchecked_read(0xFE9F), 0xA5);
}

#[test]
fn dma_from_the_cartridge_reads_the_bank_controller() {
    let mut memory = Memory::new(plain_rom(), false);
    memory.write(0xFF46, 0x01);
    assert_eq!(memory.unchecked_read(0xFE00), 5);
    assert_eq!(memory.unchecked_read(0xFE04), 9);
    assert_eq!(memory.unchecked_read(0xFE9F), 164);
    memory.write(0xFF46, 0xA0);
    assert_eq!(memory.unchecked_read(0xFE00), 0xFF);
    assert_eq!(memory.unchecked_read(0xFE9F), 0xFF);
    assert_eq!(memory.unchecked_read(0xFEA0), 0x00);
}

#[test]
fn sprite_table_is_blocked_in_mode_two() {
    let mut memory = Memory::new(plain_rom(), false);
    memory.write(0xFE10, 0x77);
    memory.write(0xFE9F, 0x78);
    memory.write(0x8000, 0x12);
    memory.write(0xFF41, 0x02);
    assert_eq!(memory.read(0xFE10), 0xFF);
    assert_eq!(memory.read(0xFE00), 0xFF);
    assert_eq!(memory.read(0xFE9F), 0xFF);
    assert_eq!(memory.read(0xFEA0), 0x00);
    assert_eq!(memory.read(0x8000), 0x12);
    assert_eq!(memory.unchecked_read(0xFE10), 0x77);
}

#[test]
fn sprite_table_is_open_in_modes_zero_and_one() {
    let mut memory = Memory::new(plain_rom(), false);
    memory.write(0xFE10, 0x77);
    memory.write(0xFF41, 0x00);
    assert_eq!(memory.read(0xFE10), 0x77);
    memory.write(0xFF41, 0x01);
    assert_eq!(memory.read(0xFE10), 0x77);
    memory.write(0xFF41, 0xFD);
    assert_eq!(memory.read(0xFE10), 0x77);
}

#[test]
fn sprite_table_and_tile_memory_are_blocked_in_mode_three() {
    let mut memory = Memory::new(plain_rom(), false);
    memory.write(0xFE10, 0x77);
    memory.write(0x8000, 0x12);
    memory.write(0x9FFF, 0x13);
    memory.write(0xC000, 0x14);
    memory.write(0xFF41, 0x03);
    assert_eq!(memory.read(0xFE10), 0xFF);
    assert_eq!(memory.read(0x8000), 0xFF);
    assert_eq!(memory.read(0x9FFF), 0xFF);
    assert_eq!(memory.read(0xC000), 0x14);
    assert_eq!(memory.unchecked_read(0x8000), 0x12);
}

#[test]
fn writes_are_never_blocked() {
    let mut memory = Memory::new(plain_rom(), false);
    memory.write(0xFF41, 0x03);
    memory.write(0xFE10, 0x21);
    memory.write(0x8123, 0x43);
    assert_eq!(memory.unchecked_read(0xFE10), 0x21);
    assert_eq!(memory.unchecked_read(0x8123), 0x43);
}

#[test]
fn words_are_little_endian() {
    let mut memory = Memory::new(plain_rom(), false);
    memory.write_word(0xC000, 0xBEEF);
    assert_eq!(memory.read(0xC000), 0xEF);
    assert_eq!(memory.read(0xC001), 0xBE);
    assert_eq!(memory.read_word(0xC000), 0xBEEF);
    // both bytes are echoed
    assert_eq!(memory.read_word(0xE000), 0xBEEF);
    assert_eq!(little_endian_combine(0x34, 0x12), 0x1234);
    assert_eq!(little_endian_combine(0xFF, 0x00), 0x00FF);
}

#[test]
fn word_access_applies_side_effects_to_both_bytes() {
    let mut memory = Memory::new(plain_rom(), true);
    memory.write_word(0xFF03, 0xAB12);
    assert_eq!(memory.read(0xFF03), 0x12);
    assert_eq!(memory.read(0xFF04), 0x00);
    assert_eq!(memory.unchecked_read(0xFF04), 0x00);
    memory.write(0xFE00, 0x31);
    memory.write(0xFE01, 0x32);
    memory.write(0xFF41, 0x02);
    assert_eq!(memory.read_word(0xFE00), 0xFFFF);
}

#[test]
fn word_access_wraps_at_the_end_of_the_address_space() {
    let mut rom = plain_rom();
    rom[0] = 0x99;
    let mut memory = Memory::new(rom, false);
    memory.write_word(0xFFFF, 0x1234);
    assert_eq!(memory.read(0xFFFF), 0x34);
    assert_eq!(memory.read(0x0000), 0x99);
    assert_eq!(memory.unchecked_read(0x0000), 0x00);
    assert_eq!(memory.read_word(0xFFFF), 0x9934);
}

#[test]
fn oam_search_returns_the_four_descriptor_bytes() {
    let mut memory = Memory::new(plain_rom(), false);
    memory.write(0xFE04, 0x10);
    memory.write(0xFE05, 0x20);
    memory.write(0xFE06, 0x30);
    memory.write(0xFE07, 0x40);
    memory.write(0xFE9C, 0x0C);
    memory.write(0xFE9F, 0x0F);
    assert_eq!(memory.oam_search(1), [0x10, 0x20, 0x30, 0x40]);
    assert_eq!(memory.oam_search(0), [0, 0, 0, 0]);
    assert_eq!(memory.oam_search(39), [0x0C, 0, 0, 0x0F]);
    // blocking does not apply to the raw descriptor bytes
    memory.write(0xFF41, 0x02);
    assert_eq!(memory.oam_search(1), [0x10, 0x20, 0x30, 0x40]);
    // slot arithmetic wraps around the address space
    assert_eq!(memory.oam_search(128), [0, 0, 0, 0]);
    assert_eq!(memory.oam_search(128 + 65), [0xCE, 0xED, 0x66, 0x66]);
}

#[test]
fn key_press_raises_the_input_interrupt() {
    let mut memory = Memory::new(plain_rom(), false);
    joypad_interrupt(&mut memory, no_keys());
    assert_eq!(memory.read(INTERRUPT_F_ADDRESS), 0x00);
    joypad_interrupt(&mut memory, Keys { up: true, ..no_keys() });
    assert_eq!(memory.read(INTERRUPT_F_ADDRESS), 0x10);

    let mut booted = Memory::new(plain_rom(), true);
    joypad_interrupt(&mut booted, Keys { a: true, start: true, ..no_keys() });
    assert_eq!(booted.read(0xFF0F), 0xF1);
    // raised whichever group the input register selects
    booted.write(0xFF0F, 0x00);
    booted.write(0xFF00, 0x30);
    joypad_interrupt(&mut booted, Keys { left: true, ..no_keys() });
    assert_eq!(booted.read(0xFF0F), 0x10);
}

#[test]
fn address_ranges_have_inclusive_bounds() {
    assert!(is_within_rom(0x0000));
    assert!(is_within_rom(0x7FFF));
    assert!(!is_within_rom(0x8000));
    assert!(!is_within_vram(0x7FFF));
    assert!(is_within_vram(0x8000));
    assert!(is_within_vram(0x9FFF));
    assert!(!is_within_vram(0xA000));
    assert!(!is_within_ram(0x9FFF));
    assert!(is_within_ram(0xA000));
    assert!(is_within_ram(0xBFFF));
    assert!(!is_within_ram(0xC000));
    assert!(!is_within_oam(0xFDFF));
    assert!(is_within_oam(0xFE00));
    assert!(is_within_oam(0xFE9F));
    assert!(!is_within_oam(0xFEA0));
}
