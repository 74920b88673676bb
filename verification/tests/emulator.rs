use ironboyadvance::common::emulator::{detect_system, System};

#[test]
fn detects_a_gba_rom_by_its_complement_check() {
    let mut rom = vec![0u8; 0xC0];
    rom[0xBD] = 0xE7;
    assert_eq!(detect_system(&rom), Some(System::Gba));
    rom[0xA0] = 0x10;
    assert_eq!(detect_system(&rom), None);
    rom[0xBD] = 0xD7;
    assert_eq!(detect_system(&rom), Some(System::Gba));
}

#[test]
fn detects_game_boy_roms_by_their_header_checksum() {
    let mut rom = vec![0u8; 0x150];
    rom[0x14D] = 0xE7;
    assert_eq!(detect_system(&rom), Some(System::Gb));
    rom[0x143] = 0x80;
    rom[0x14D] = 0x67;
    assert_eq!(detect_system(&rom), Some(System::Gbc));
    rom[0x143] = 0xC0;
    rom[0x14D] = 0x27;
    assert_eq!(detect_system(&rom), Some(System::Gbc));
}

#[test]
fn short_or_unknown_images_are_no_system() {
    assert_eq!(detect_system(&[]), None);
    assert_eq!(detect_system(&vec![0u8; 0x150]), None);
}
