use ironboyadvance::gba::cartridge::backup::{
    detect_backup_type, determine_cartridge_config, lookup_config, BackupType, CartridgeConfig, CartridgeDevice,
};
use ironboyadvance::gba::cartridge::eeprom::{CartridgeBackup, Eeprom};
use ironboyadvance::gba::cartridge::header::{calculate_checksum, Header};

fn config(backup_type: BackupType, device_pattern: u8) -> Option<CartridgeConfig> {
    Some(CartridgeConfig { backup_type, device_pattern })
}

#[test]
fn known_game_codes_give_their_configuration() {
    assert_eq!(lookup_config(b"BPEE"), config(BackupType::Flash128KB, 0b1));
    assert_eq!(lookup_config(b"U3IE"), config(BackupType::Eeprom, 0b11));
    assert_eq!(lookup_config(b"RZWJ"), config(BackupType::Sram, 0b11000));
    assert_eq!(lookup_config(b"KYGP"), config(BackupType::Eeprom, 0b100));
    assert_eq!(lookup_config(b"PSAE"), config(BackupType::Flash128KB, 0b100000));
    assert_eq!(lookup_config(b"BPRE"), config(BackupType::Flash128KB, 0));
    assert_eq!(lookup_config(b"BR4J"), config(BackupType::Flash64KB, 0b1));
    assert_eq!(lookup_config(b"AI2E"), config(BackupType::NoBackup, 0));
}

#[test]
fn classic_nes_codes_use_eeprom() {
    assert_eq!(lookup_config(b"FMRJ"), config(BackupType::Eeprom, 0));
    assert_eq!(lookup_config(b"F"), config(BackupType::Eeprom, 0));
}

#[test]
fn other_codes_are_not_known() {
    assert_eq!(lookup_config(b"AXYZ"), None);
    assert_eq!(lookup_config(b""), None);
    assert_eq!(lookup_config(b"BPE"), None);
}

fn rom_with(offset: usize, id: &[u8]) -> Vec<u8> {
    let mut rom = vec![0u8; 64];
    rom[offset..offset + id.len()].copy_from_slice(id);
    rom
}

#[test]
fn backup_ids_at_word_offsets_are_found() {
    assert_eq!(detect_backup_type(&rom_with(8, b"SRAM_V113")), BackupType::Sram);
    assert_eq!(detect_backup_type(&rom_with(12, b"EEPROM_V124")), BackupType::Eeprom);
    assert_eq!(detect_backup_type(&rom_with(0, b"FLASH1M_V103")), BackupType::Flash128KB);
    assert_eq!(detect_backup_type(&rom_with(4, b"FLASH512_V131")), BackupType::Flash64KB);
    assert_eq!(detect_backup_type(&rom_with(40, b"FLASH_V126")), BackupType::Flash64KB);
}

#[test]
fn unaligned_or_cut_ids_are_not_found() {
    assert_eq!(detect_backup_type(&rom_with(6, b"SRAM_V")), BackupType::NoBackup);
    assert_eq!(detect_backup_type(&rom_with(60, b"SRAM")), BackupType::NoBackup);
    assert_eq!(detect_backup_type(&[]), BackupType::NoBackup);
}

#[test]
fn the_first_id_in_the_rom_wins() {
    let mut rom = rom_with(16, b"EEPROM_V");
    rom[32..38].copy_from_slice(b"SRAM_V");
    assert_eq!(detect_backup_type(&rom), BackupType::Eeprom);
}

#[test]
fn devices_combine_into_patterns() {
    assert_eq!(CartridgeDevice::Rtc | CartridgeDevice::SolarSensor, 0b11);
    assert_eq!(CartridgeDevice::Rumble | CartridgeDevice::Gyro, 0b11000);
    assert!(CartridgeDevice::Rtc.is_set(0b11));
    assert!(!CartridgeDevice::Tilt.is_set(0b11));
    assert_eq!(CartridgeDevice::EReader.bits(), 0b100000);
}

fn header_rom(code: &[u8]) -> Vec<u8> {
    let mut rom = vec![0u8; 0xC0];
    rom[0xA0..0xA5].copy_from_slice(b"TITLE");
    rom[0xAC..0xB0].copy_from_slice(code);
    let check = calculate_checksum(&rom[0xA0..=0xBC]);
    rom[0xBD] = check;
    rom
}

#[test]
fn header_holds_title_and_code() {
    let rom = header_rom(b"BPEE");
    let header = Header::load(&rom);
    assert_eq!(&header.game_title()[0..5], b"TITLE");
    assert_eq!(header.game_title().len(), 12);
    assert_eq!(header.game_code(), b"BPEE");
    assert!(header.checksum_valid());
    let mut bad = rom.clone();
    bad[0xBD] ^= 1;
    assert!(!Header::load(&bad).checksum_valid());
}

#[test]
fn complement_check_values() {
    assert_eq!(calculate_checksum(&[]), 0xE7);
    assert_eq!(calculate_checksum(&[1, 2]), 0xE4);
    assert_eq!(calculate_checksum(&[0xFF; 4]), 0xEB);
}

#[test]
fn configuration_comes_from_the_code_else_from_a_scan() {
    let rom = header_rom(b"BPEE");
    assert_eq!(determine_cartridge_config(&rom, &Header::load(&rom)), CartridgeConfig {
        backup_type: BackupType::Flash128KB,
        device_pattern: 1,
    });
    let mut rom = header_rom(b"ZZZZ");
    rom[0xB4..0xBA].copy_from_slice(b"SRAM_V");
    let header = Header::load(&rom);
    let config = determine_cartridge_config(&rom, &header);
    assert_eq!(config.backup_type(), BackupType::Sram);
    assert_eq!(config.device_pattern(), 0);
}

#[test]
fn rom_reads_past_the_image_give_the_open_bus() {
    let eeprom = Eeprom::new(vec![1, 2, 3]);
    assert_eq!(eeprom.rom(), &[1, 2, 3]);
    assert_eq!(eeprom.rom_read(0x0800_0001), 2);
    assert_eq!(eeprom.rom_read(0x0A00_0002), 3);
    assert_eq!(eeprom.rom_read(0x0800_0010), 0x08);
    assert_eq!(eeprom.rom_read(0x0800_0013), 0x00);
    assert_eq!(eeprom.rom_read(0x0800_0202), 0x01);
}
