use crate::gba::cartridge::header::Header;
use vstd::prelude::*;

verus! {

/// Extra hardware on a cartridge; each is one bit of a device pattern.
#[derive(Debug, Copy, Clone, PartialEq, Eq, Structural)]
pub enum CartridgeDevice {
    Rtc,
    SolarSensor,
    Tilt,
    Gyro,
    Rumble,
    EReader,
}

impl CartridgeDevice {
    pub open spec fn spec_bits(self) -> u8 {
        match self {
            CartridgeDevice::Rtc => 0b1,
            CartridgeDevice::SolarSensor => 0b10,
            CartridgeDevice::Tilt => 0b100,
            CartridgeDevice::Gyro => 0b1000,
            CartridgeDevice::Rumble => 0b10000,
            CartridgeDevice::EReader => 0b100000,
        }
    }

    pub fn bits(self) -> (r: u8)
        ensures
            r == self.spec_bits(),
    {
        match self {
            CartridgeDevice::Rtc => 0b1,
            CartridgeDevice::SolarSensor => 0b10,
            CartridgeDevice::Tilt => 0b100,
            CartridgeDevice::Gyro => 0b1000,
            CartridgeDevice::Rumble => 0b10000,
            CartridgeDevice::EReader => 0b100000,
        }
    }

    /// Whether the device is in `pattern`.
    pub fn is_set(self, pattern: u8) -> (r: bool)
        ensures
            r == (pattern & self.spec_bits() != 0),
    {
        pattern & self.bits() != 0
    }
}

impl core::ops::BitOr for CartridgeDevice {
    type Output = u8;

    /// The pattern of both devices.
    fn bitor(self, rhs: Self) -> (r: u8)
        ensures
            r == self.spec_bits() | rhs.spec_bits(),
    {
        self.bits() | rhs.bits()
    }
}

impl vstd::std_specs::ops::BitOrSpecImpl for CartridgeDevice {
    open spec fn obeys_bitor_spec() -> bool {
        true
    }

    open spec fn bitor_req(self, rhs: Self) -> bool {
        true
    }

    open spec fn bitor_spec(self, rhs: Self) -> u8 {
        self.spec_bits() | rhs.spec_bits()
    }
}

#[derive(Debug, Copy, Clone, PartialEq, Eq, Structural)]
pub enum BackupType {
    NoBackup,
    Sram,
    Eeprom,
    Flash64KB,
    Flash128KB,
}

/// A cartridge's kind of backup memory and the pattern of its extra devices.
#[derive(Debug, Copy, Clone, PartialEq, Eq, Structural)]
pub struct CartridgeConfig {
    pub backup_type: BackupType,
    pub device_pattern: u8,
}

impl CartridgeConfig {
    pub fn backup_type(&self) -> (r: BackupType)
        ensures
            r == self.backup_type,
    {
        self.backup_type
    }

    pub fn device_pattern(&self) -> (r: u8)
        ensures
            r == self.device_pattern,
    {
        self.device_pattern
    }
}

/// Whether the four-byte game code is `a`, `b`, `c`, `d`.
fn code_is(game_code: &[u8], a: u8, b: u8, c: u8, d: u8) -> (r: bool)
    ensures
        r == (game_code@ == seq![a, b, c, d]),
{
    if game_code.len() != 4 {
        return false;
    }
    let r = game_code[0] == a && game_code[1] == b && game_code[2] == c && game_code[3] == d;
    proof {
        if r {
            assert(game_code@ =~= seq![a, b, c, d]);
        }
    }
    r
}

/// The backup ID strings that a ROM may hold, in the order they are tried.
pub open spec fn spec_backup_id(k: int) -> Seq<u8> {
    if k == 0 {
        // SRAM_V
        seq![0x53, 0x52, 0x41, 0x4D, 0x5F, 0x56]
    } else if k == 1 {
        // EEPROM_V
        seq![0x45, 0x45, 0x50, 0x52, 0x4F, 0x4D, 0x5F, 0x56]
    } else if k == 2 {
        // FLASH1M_V
        seq![0x46, 0x4C, 0x41, 0x53, 0x48, 0x31, 0x4D, 0x5F, 0x56]
    } else if k == 3 {
        // FLASH512_V
        seq![0x46, 0x4C, 0x41, 0x53, 0x48, 0x35, 0x31, 0x32, 0x5F, 0x56]
    } else {
        // FLASH_V
        seq![0x46, 0x4C, 0x41, 0x53, 0x48, 0x5F, 0x56]
    }
}

/// The backup that each backup ID stands for.
pub open spec fn spec_backup_of_id(k: int) -> BackupType {
    if k == 0 {
        BackupType::Sram
    } else if k == 1 {
        BackupType::Eeprom
    } else if k == 2 {
        BackupType::Flash128KB
    } else {
        BackupType::Flash64KB
    }
}

/// Whether `pattern` occurs in `rom` at `offset`.
pub open spec fn spec_occurs_at(rom: Seq<u8>, offset: int, pattern: Seq<u8>) -> bool {
    offset + pattern.len() <= rom.len() && rom.subrange(offset, offset + pattern.len()) == pattern
}

/// The first backup ID, in their order, that occurs at `offset`.
pub open spec fn spec_id_at(rom: Seq<u8>, offset: int) -> Option<int> {
    if spec_occurs_at(rom, offset, spec_backup_id(0)) {
        Some(0)
    } else if spec_occurs_at(rom, offset, spec_backup_id(1)) {
        Some(1)
    } else if spec_occurs_at(rom, offset, spec_backup_id(2)) {
        Some(2)
    } else if spec_occurs_at(rom, offset, spec_backup_id(3)) {
        Some(3)
    } else if spec_occurs_at(rom, offset, spec_backup_id(4)) {
        Some(4)
    } else {
        None
    }
}

/// The backup named by the first backup ID that occurs at a word-aligned
/// offset of `rom` from `offset` on.
pub open spec fn spec_detect_from(rom: Seq<u8>, offset: int) -> BackupType
    decreases rom.len() + 4 - offset,
{
    if offset >= rom.len() || offset < 0 {
        BackupType::NoBackup
    } else if let Some(k) = spec_id_at(rom, offset) {
        spec_backup_of_id(k)
    } else {
        spec_detect_from(rom, offset + 4)
    }
}

/// A ROM that starts with a backup ID has the backup that the ID names:
/// `SRAM_V` SRAM, `EEPROM_V` EEPROM, `FLASH1M_V` 128 KiB flash, `FLASH512_V`
/// and `FLASH_V` 64 KiB flash.
pub proof fn lemma_backup_id_at_start(rom: Seq<u8>)
    ensures
        rom.len() >= 6 && rom.subrange(0, 6) == seq![0x53u8, 0x52, 0x41, 0x4D, 0x5F, 0x56] ==> spec_detect_from(rom, 0) == BackupType::Sram,
        rom.len() >= 8 && rom.subrange(0, 8) == seq![0x45u8, 0x45, 0x50, 0x52, 0x4F, 0x4D, 0x5F, 0x56] ==> spec_detect_from(rom, 0) == BackupType::Eeprom,
        rom.len() >= 9 && rom.subrange(0, 9) == seq![0x46u8, 0x4C, 0x41, 0x53, 0x48, 0x31, 0x4D, 0x5F, 0x56] ==> spec_detect_from(rom, 0) == BackupType::Flash128KB,
        rom.len() >= 10 && rom.subrange(0, 10) == seq![0x46u8, 0x4C, 0x41, 0x53, 0x48, 0x35, 0x31, 0x32, 0x5F, 0x56] ==> spec_detect_from(rom, 0) == BackupType::Flash64KB,
        rom.len() >= 7 && rom.subrange(0, 7) == seq![0x46u8, 0x4C, 0x41, 0x53, 0x48, 0x5F, 0x56] ==> spec_detect_from(rom, 0) == BackupType::Flash64KB,
{
    if rom.len() >= 6 {
        assert forall|k: int| 0 <= k < 6 implies #[trigger] rom.subrange(0, 6)[k] == rom[k] by {}
    }
    if rom.len() >= 7 {
        assert forall|k: int| 0 <= k < 7 implies #[trigger] rom.subrange(0, 7)[k] == rom[k] by {}
    }
    if rom.len() >= 8 {
        assert forall|k: int| 0 <= k < 8 implies #[trigger] rom.subrange(0, 8)[k] == rom[k] by {}
    }
    if rom.len() >= 9 {
        assert forall|k: int| 0 <= k < 9 implies #[trigger] rom.subrange(0, 9)[k] == rom[k] by {}
    }
    if rom.len() >= 10 {
        assert forall|k: int| 0 <= k < 10 implies #[trigger] rom.subrange(0, 10)[k] == rom[k] by {}
    }
}

fn occurs_at(rom: &[u8], offset: usize, pattern: &[u8]) -> (r: bool)
    ensures
        r == spec_occurs_at(rom@, offset as int, pattern@),
{
    if pattern.len() > rom.len() || offset > rom.len() - pattern.len() {
        return false;
    }
    let mut i: usize = 0;
    while i < pattern.len()
        invariant
            i <= pattern.len(),
            offset + pattern.len() <= rom.len(),
            forall|j: int| 0 <= j < i ==> rom@[offset + j] == pattern@[j],
        decreases pattern.len() - i,
    {
        if rom[offset + i] != pattern[i] {
            assert(rom@.subrange(offset as int, offset + pattern.len())[i as int] != pattern@[i as int]);
            return false;
        }
        i += 1;
    }
    assert(rom@.subrange(offset as int, offset + pattern.len()) =~= pattern@);
    true
}

/// The first backup ID at `offset`, as its place in the order they are tried.
fn id_at(rom: &[u8], offset: usize) -> (r: Option<usize>)
    ensures
        r == match spec_id_at(rom@, offset as int) {
            Some(k) => Some(k as usize),
            None => None::<usize>,
        },
{
    let sram: [u8; 6] = [0x53, 0x52, 0x41, 0x4D, 0x5F, 0x56];
    let eeprom: [u8; 8] = [0x45, 0x45, 0x50, 0x52, 0x4F, 0x4D, 0x5F, 0x56];
    let flash1m: [u8; 9] = [0x46, 0x4C, 0x41, 0x53, 0x48, 0x31, 0x4D, 0x5F, 0x56];
    let flash512: [u8; 10] = [0x46, 0x4C, 0x41, 0x53, 0x48, 0x35, 0x31, 0x32, 0x5F, 0x56];
    let flash: [u8; 7] = [0x46, 0x4C, 0x41, 0x53, 0x48, 0x5F, 0x56];
    assert(sram@ == spec_backup_id(0));
    assert(eeprom@ == spec_backup_id(1));
    assert(flash1m@ == spec_backup_id(2));
    assert(flash512@ == spec_backup_id(3));
    assert(flash@ == spec_backup_id(4));
    if occurs_at(rom, offset, sram.as_slice()) {
        Some(0)
    } else if occurs_at(rom, offset, eeprom.as_slice()) {
        Some(1)
    } else if occurs_at(rom, offset, flash1m.as_slice()) {
        Some(2)
    } else if occurs_at(rom, offset, flash512.as_slice()) {
        Some(3)
    } else if occurs_at(rom, offset, flash.as_slice()) {
        Some(4)
    } else {
        None
    }
}

fn backup_of_id(k: usize) -> (r: BackupType)
    ensures
        r == spec_backup_of_id(k as int),
{
    match k {
        0 => BackupType::Sram,
        1 => BackupType::Eeprom,
        2 => BackupType::Flash128KB,
        _ => BackupType::Flash64KB,
    }
}

/// Scans the ROM, word by word, for a backup ID.
pub fn detect_backup_type(rom: &[u8]) -> (r: BackupType)
    ensures
        r == spec_detect_from(rom@, 0),
{
    let mut offset: usize = 0;
    while offset < rom.len()
        invariant
            spec_detect_from(rom@, 0) == spec_detect_from(rom@, offset as int),
        decreases rom.len() - offset,
    {
        if let Some(k) = id_at(rom, offset) {
            return backup_of_id(k);
        }
        if rom.len() - offset < 4 {
            assert(spec_detect_from(rom@, offset + 4) == BackupType::NoBackup);
            return BackupType::NoBackup;
        }
        offset = offset + 4;
    }
    BackupType::NoBackup
}

/// The configuration of a cartridge: from its game code where that
/// determines it, else its backup from a scan of the ROM and no devices.
pub open spec fn spec_cartridge_config(rom: Seq<u8>, code: Seq<u8>) -> CartridgeConfig {
    match spec_lookup_config(code) {
        Some(config) => config,
        None => CartridgeConfig { backup_type: spec_detect_from(rom, 0), device_pattern: 0 },
    }
}

pub fn determine_cartridge_config(data: &[u8], header: &Header) -> (r: CartridgeConfig)
    ensures
        r == spec_cartridge_config(data@, header.spec_game_code()),
{
    match lookup_config(header.game_code()) {
        Some(config) => config,
        None => CartridgeConfig { backup_type: detect_backup_type(data), device_pattern: 0 },
    }
}

/// The configuration that a game's code alone determines: cartridges with
/// extra devices, and ones whose ROM misleads the scan for a backup ID. The
/// Classic NES Series (codes that start with `F`) use EEPROM.
pub open spec fn spec_lookup_config(code: Seq<u8>) -> Option<CartridgeConfig> {
    if code == seq![0x55u8, 0x33, 0x49, 0x4A] || code == seq![0x55u8, 0x33, 0x49, 0x45] || code == seq![0x55u8, 0x33, 0x49, 0x50] {
        // Boktai - The Sun Is in Your Hand: U3IJ, U3IE, U3IP
        Some(CartridgeConfig { backup_type: BackupType::Eeprom, device_pattern: (CartridgeDevice::Rtc.spec_bits() | CartridgeDevice::SolarSensor.spec_bits()) })
    } else if code == seq![0x55u8, 0x33, 0x32, 0x4A] || code == seq![0x55u8, 0x33, 0x32, 0x45] || code == seq![0x55u8, 0x33, 0x32, 0x50] {
        // Boktai 2 - Solar Boy Django: U32J, U32E, U32P
        Some(CartridgeConfig { backup_type: BackupType::Eeprom, device_pattern: (CartridgeDevice::Rtc.spec_bits() | CartridgeDevice::SolarSensor.spec_bits()) })
    } else if code == seq![0x56u8, 0x34, 0x39, 0x4A] || code == seq![0x56u8, 0x34, 0x39, 0x45] || code == seq![0x56u8, 0x34, 0x39, 0x50] {
        // Drill Dozer: V49J, V49E, V49P
        Some(CartridgeConfig { backup_type: BackupType::Sram, device_pattern: CartridgeDevice::Rumble.spec_bits() })
    } else if code == seq![0x50u8, 0x45, 0x41, 0x4A] || code == seq![0x50u8, 0x53, 0x41, 0x4A] || code == seq![0x50u8, 0x53, 0x41, 0x45] {
        // e-Reader: PEAJ, PSAJ, PSAE
        Some(CartridgeConfig { backup_type: BackupType::Flash128KB, device_pattern: CartridgeDevice::EReader.spec_bits() })
    } else if code == seq![0x42u8, 0x47, 0x57, 0x4A] {
        // Game Boy Wars Advance 1+2: BGWJ
        Some(CartridgeConfig { backup_type: BackupType::Flash128KB, device_pattern: 0 })
    } else if code == seq![0x32u8, 0x47, 0x42, 0x50] {
        // Goodboy Galaxy: 2GBP
        Some(CartridgeConfig { backup_type: BackupType::Sram, device_pattern: CartridgeDevice::Rumble.spec_bits() })
    } else if code == seq![0x4Bu8, 0x48, 0x50, 0x4A] {
        // Koro Koro Puzzle - Happy Panechu!: KHPJ
        Some(CartridgeConfig { backup_type: BackupType::Eeprom, device_pattern: CartridgeDevice::Tilt.spec_bits() })
    } else if code == seq![0x42u8, 0x4C, 0x4A, 0x4A] || code == seq![0x42u8, 0x4C, 0x4A, 0x4B] {
        // Legendz - Yomigaeru Shiren no Shima: BLJJ, BLJK
        Some(CartridgeConfig { backup_type: BackupType::Flash64KB, device_pattern: CartridgeDevice::Rtc.spec_bits() })
    } else if code == seq![0x42u8, 0x4C, 0x56, 0x4A] {
        // Legendz - Sign of Nekuromu: BLVJ
        Some(CartridgeConfig { backup_type: BackupType::Flash64KB, device_pattern: CartridgeDevice::Rtc.spec_bits() })
    } else if code == seq![0x41u8, 0x58, 0x56, 0x4A] || code == seq![0x41u8, 0x58, 0x56, 0x45] || code == seq![0x41u8, 0x58, 0x56, 0x50] || code == seq![0x41u8, 0x58, 0x56, 0x49] || code == seq![0x41u8, 0x58, 0x56, 0x53] || code == seq![0x41u8, 0x58, 0x56, 0x44] || code == seq![0x41u8, 0x58, 0x56, 0x46] {
        // Pokemon Ruby: AXVJ, AXVE, AXVP, AXVI, AXVS, AXVD, AXVF
        Some(CartridgeConfig { backup_type: BackupType::Flash128KB, device_pattern: CartridgeDevice::Rtc.spec_bits() })
    } else if code == seq![0x41u8, 0x58, 0x50, 0x4A] || code == seq![0x41u8, 0x58, 0x50, 0x45] || code == seq![0x41u8, 0x58, 0x50, 0x50] || code == seq![0x41u8, 0x58, 0x50, 0x49] || code == seq![0x41u8, 0x58, 0x50, 0x53] || code == seq![0x41u8, 0x58, 0x50, 0x44] || code == seq![0x41u8, 0x58, 0x50, 0x46] {
        // Pokemon Sapphire: AXPJ, AXPE, AXPP, AXPI, AXPS, AXPD, AXPF
        Some(CartridgeConfig { backup_type: BackupType::Flash128KB, device_pattern: CartridgeDevice::Rtc.spec_bits() })
    } else if code == seq![0x42u8, 0x50, 0x45, 0x4A] || code == seq![0x42u8, 0x50, 0x45, 0x45] || code == seq![0x42u8, 0x50, 0x45, 0x50] || code == seq![0x42u8, 0x50, 0x45, 0x49] || code == seq![0x42u8, 0x50, 0x45, 0x53] || code == seq![0x42u8, 0x50, 0x45, 0x44] || code == seq![0x42u8, 0x50, 0x45, 0x46] {
        // Pokemon Emerald: BPEJ, BPEE, BPEP, BPEI, BPES, BPED, BPEF
        Some(CartridgeConfig { backup_type: BackupType::Flash128KB, device_pattern: CartridgeDevice::Rtc.spec_bits() })
    } else if code == seq![0x42u8, 0x50, 0x52, 0x4A] || code == seq![0x42u8, 0x50, 0x52, 0x45] || code == seq![0x42u8, 0x50, 0x52, 0x50] || code == seq![0x42u8, 0x50, 0x52, 0x49] || code == seq![0x42u8, 0x50, 0x52, 0x53] || code == seq![0x42u8, 0x50, 0x52, 0x44] || code == seq![0x42u8, 0x50, 0x52, 0x46] {
        // Pokemon FireRed: BPRJ, BPRE, BPRP, BPRI, BPRS, BPRD, BPRF
        Some(CartridgeConfig { backup_type: BackupType::Flash128KB, device_pattern: 0 })
    } else if code == seq![0x42u8, 0x50, 0x47, 0x4A] || code == seq![0x42u8, 0x50, 0x47, 0x45] || code == seq![0x42u8, 0x50, 0x47, 0x50] || code == seq![0x42u8, 0x50, 0x47, 0x49] || code == seq![0x42u8, 0x50, 0x47, 0x53] || code == seq![0x42u8, 0x50, 0x47, 0x44] || code == seq![0x42u8, 0x50, 0x47, 0x46] {
        // Pokemon LeafGreen: BPGJ, BPGE, BPGP, BPGI, BPGS, BPGD, BPGF
        Some(CartridgeConfig { backup_type: BackupType::Flash128KB, device_pattern: 0 })
    } else if code == seq![0x42u8, 0x52, 0x34, 0x4A] {
        // RockMan EXE 4.5 - Real Operation: BR4J
        Some(CartridgeConfig { backup_type: BackupType::Flash64KB, device_pattern: CartridgeDevice::Rtc.spec_bits() })
    } else if code == seq![0x42u8, 0x4B, 0x41, 0x4A] {
        // Sennen Kazoku: BKAJ
        Some(CartridgeConfig { backup_type: BackupType::Flash128KB, device_pattern: CartridgeDevice::Rtc.spec_bits() })
    } else if code == seq![0x55u8, 0x33, 0x33, 0x4A] {
        // Shin Bokura no Taiyou - Gyakushuu no Sabata (Boktai 3): U33J
        Some(CartridgeConfig { backup_type: BackupType::Eeprom, device_pattern: (CartridgeDevice::Rtc.spec_bits() | CartridgeDevice::SolarSensor.spec_bits()) })
    } else if code == seq![0x52u8, 0x5A, 0x57, 0x4A] || code == seq![0x52u8, 0x5A, 0x57, 0x45] || code == seq![0x52u8, 0x5A, 0x57, 0x50] {
        // Wario Ware Twisted!: RZWJ, RZWE, RZWP
        Some(CartridgeConfig { backup_type: BackupType::Sram, device_pattern: (CartridgeDevice::Rumble.spec_bits() | CartridgeDevice::Gyro.spec_bits()) })
    } else if code == seq![0x4Bu8, 0x59, 0x47, 0x4A] || code == seq![0x4Bu8, 0x59, 0x47, 0x45] || code == seq![0x4Bu8, 0x59, 0x47, 0x50] {
        // Yoshi - Topsy-Turvy / Yoshi's Universal Gravitation: KYGJ, KYGE, KYGP
        Some(CartridgeConfig { backup_type: BackupType::Eeprom, device_pattern: CartridgeDevice::Tilt.spec_bits() })
    } else if code == seq![0x41u8, 0x49, 0x32, 0x45] || code == seq![0x41u8, 0x49, 0x32, 0x50] {
        // Iridion II (its ROM holds stray backup IDs): AI2E, AI2P
        Some(CartridgeConfig { backup_type: BackupType::NoBackup, device_pattern: 0 })
    } else if code == seq![0x41u8, 0x53, 0x4C, 0x45] || code == seq![0x41u8, 0x53, 0x4C, 0x46] {
        // Stuart Little 2 (its ROM holds stray backup IDs): ASLE, ASLF
        Some(CartridgeConfig { backup_type: BackupType::NoBackup, device_pattern: 0 })
    } else if code == seq![0x41u8, 0x32, 0x59, 0x45] {
        // Top Gun - Combat Zones (its ROM holds stray backup IDs): A2YE
        Some(CartridgeConfig { backup_type: BackupType::NoBackup, device_pattern: 0 })
    } else if code.len() > 0 && code[0] == 0x46 {
        Some(CartridgeConfig { backup_type: BackupType::Eeprom, device_pattern: 0 })
    } else {
        None
    }
}

/// The configuration for the game code `game_code`, if the code alone
/// determines it.
pub fn lookup_config(game_code: &[u8]) -> (r: Option<CartridgeConfig>)
    ensures
        r == spec_lookup_config(game_code@),
{
    let config = 
    if code_is(game_code, 0x55, 0x33, 0x49, 0x4A) || code_is(game_code, 0x55, 0x33, 0x49, 0x45) || code_is(game_code, 0x55, 0x33, 0x49, 0x50) {
        // Boktai - The Sun Is in Your Hand: U3IJ, U3IE, U3IP
        CartridgeConfig { backup_type: BackupType::Eeprom, device_pattern: CartridgeDevice::Rtc | CartridgeDevice::SolarSensor }
    } else if code_is(game_code, 0x55, 0x33, 0x32, 0x4A) || code_is(game_code, 0x55, 0x33, 0x32, 0x45) || code_is(game_code, 0x55, 0x33, 0x32, 0x50) {
        // Boktai 2 - Solar Boy Django: U32J, U32E, U32P
        CartridgeConfig { backup_type: BackupType::Eeprom, device_pattern: CartridgeDevice::Rtc | CartridgeDevice::SolarSensor }
    } else if code_is(game_code, 0x56, 0x34, 0x39, 0x4A) || code_is(game_code, 0x56, 0x34, 0x39, 0x45) || code_is(game_code, 0x56, 0x34, 0x39, 0x50) {
        // Drill Dozer: V49J, V49E, V49P
        CartridgeConfig { backup_type: BackupType::Sram, device_pattern: CartridgeDevice::Rumble.bits() }
    } else if code_is(game_code, 0x50, 0x45, 0x41, 0x4A) || code_is(game_code, 0x50, 0x53, 0x41, 0x4A) || code_is(game_code, 0x50, 0x53, 0x41, 0x45) {
        // e-Reader: PEAJ, PSAJ, PSAE
        CartridgeConfig { backup_type: BackupType::Flash128KB, device_pattern: CartridgeDevice::EReader.bits() }
    } else if code_is(game_code, 0x42, 0x47, 0x57, 0x4A) {
        // Game Boy Wars Advance 1+2: BGWJ
        CartridgeConfig { backup_type: BackupType::Flash128KB, device_pattern: 0 }
    } else if code_is(game_code, 0x32, 0x47, 0x42, 0x50) {
        // Goodboy Galaxy: 2GBP
        CartridgeConfig { backup_type: BackupType::Sram, device_pattern: CartridgeDevice::Rumble.bits() }
    } else if code_is(game_code, 0x4B, 0x48, 0x50, 0x4A) {
        // Koro Koro Puzzle - Happy Panechu!: KHPJ
        CartridgeConfig { backup_type: BackupType::Eeprom, device_pattern: CartridgeDevice::Tilt.bits() }
    } else if code_is(game_code, 0x42, 0x4C, 0x4A, 0x4A) || code_is(game_code, 0x42, 0x4C, 0x4A, 0x4B) {
        // Legendz - Yomigaeru Shiren no Shima: BLJJ, BLJK
        CartridgeConfig { backup_type: BackupType::Flash64KB, device_pattern: CartridgeDevice::Rtc.bits() }
    } else if code_is(game_code, 0x42, 0x4C, 0x56, 0x4A) {
        // Legendz - Sign of Nekuromu: BLVJ
        CartridgeConfig { backup_type: BackupType::Flash64KB, device_pattern: CartridgeDevice::Rtc.bits() }
    } else if code_is(game_code, 0x41, 0x58, 0x56, 0x4A) || code_is(game_code, 0x41, 0x58, 0x56, 0x45) || code_is(game_code, 0x41, 0x58, 0x56, 0x50) || code_is(game_code, 0x41, 0x58, 0x56, 0x49) || code_is(game_code, 0x41, 0x58, 0x56, 0x53) || code_is(game_code, 0x41, 0x58, 0x56, 0x44) || code_is(game_code, 0x41, 0x58, 0x56, 0x46) {
        // Pokemon Ruby: AXVJ, AXVE, AXVP, AXVI, AXVS, AXVD, AXVF
        CartridgeConfig { backup_type: BackupType::Flash128KB, device_pattern: CartridgeDevice::Rtc.bits() }
    } else if code_is(game_code, 0x41, 0x58, 0x50, 0x4A) || code_is(game_code, 0x41, 0x58, 0x50, 0x45) || code_is(game_code, 0x41, 0x58, 0x50, 0x50) || code_is(game_code, 0x41, 0x58, 0x50, 0x49) || code_is(game_code, 0x41, 0x58, 0x50, 0x53) || code_is(game_code, 0x41, 0x58, 0x50, 0x44) || code_is(game_code, 0x41, 0x58, 0x50, 0x46) {
        // Pokemon Sapphire: AXPJ, AXPE, AXPP, AXPI, AXPS, AXPD, AXPF
        CartridgeConfig { backup_type: BackupType::Flash128KB, device_pattern: CartridgeDevice::Rtc.bits() }
    } else if code_is(game_code, 0x42, 0x50, 0x45, 0x4A) || code_is(game_code, 0x42, 0x50, 0x45, 0x45) || code_is(game_code, 0x42, 0x50, 0x45, 0x50) || code_is(game_code, 0x42, 0x50, 0x45, 0x49) || code_is(game_code, 0x42, 0x50, 0x45, 0x53) || code_is(game_code, 0x42, 0x50, 0x45, 0x44) || code_is(game_code, 0x42, 0x50, 0x45, 0x46) {
        // Pokemon Emerald: BPEJ, BPEE, BPEP, BPEI, BPES, BPED, BPEF
        CartridgeConfig { backup_type: BackupType::Flash128KB, device_pattern: CartridgeDevice::Rtc.bits() }
    } else if code_is(game_code, 0x42, 0x50, 0x52, 0x4A) || code_is(game_code, 0x42, 0x50, 0x52, 0x45) || code_is(game_code, 0x42, 0x50, 0x52, 0x50) || code_is(game_code, 0x42, 0x50, 0x52, 0x49) || code_is(game_code, 0x42, 0x50, 0x52, 0x53) || code_is(game_code, 0x42, 0x50, 0x52, 0x44) || code_is(game_code, 0x42, 0x50, 0x52, 0x46) {
        // Pokemon FireRed: BPRJ, BPRE, BPRP, BPRI, BPRS, BPRD, BPRF
        CartridgeConfig { backup_type: BackupType::Flash128KB, device_pattern: 0 }
    } else if code_is(game_code, 0x42, 0x50, 0x47, 0x4A) || code_is(game_code, 0x42, 0x50, 0x47, 0x45) || code_is(game_code, 0x42, 0x50, 0x47, 0x50) || code_is(game_code, 0x42, 0x50, 0x47, 0x49) || code_is(game_code, 0x42, 0x50, 0x47, 0x53) || code_is(game_code, 0x42, 0x50, 0x47, 0x44) || code_is(game_code, 0x42, 0x50, 0x47, 0x46) {
        // Pokemon LeafGreen: BPGJ, BPGE, BPGP, BPGI, BPGS, BPGD, BPGF
        CartridgeConfig { backup_type: BackupType::Flash128KB, device_pattern: 0 }
    } else if code_is(game_code, 0x42, 0x52, 0x34, 0x4A) {
        // RockMan EXE 4.5 - Real Operation: BR4J
        CartridgeConfig { backup_type: BackupType::Flash64KB, device_pattern: CartridgeDevice::Rtc.bits() }
    } else if code_is(game_code, 0x42, 0x4B, 0x41, 0x4A) {
        // Sennen Kazoku: BKAJ
        CartridgeConfig { backup_type: BackupType::Flash128KB, device_pattern: CartridgeDevice::Rtc.bits() }
    } else if code_is(game_code, 0x55, 0x33, 0x33, 0x4A) {
        // Shin Bokura no Taiyou - Gyakushuu no Sabata (Boktai 3): U33J
        CartridgeConfig { backup_type: BackupType::Eeprom, device_pattern: CartridgeDevice::Rtc | CartridgeDevice::SolarSensor }
    } else if code_is(game_code, 0x52, 0x5A, 0x57, 0x4A) || code_is(game_code, 0x52, 0x5A, 0x57, 0x45) || code_is(game_code, 0x52, 0x5A, 0x57, 0x50) {
        // Wario Ware Twisted!: RZWJ, RZWE, RZWP
        CartridgeConfig { backup_type: BackupType::Sram, device_pattern: CartridgeDevice::Rumble | CartridgeDevice::Gyro }
    } else if code_is(game_code, 0x4B, 0x59, 0x47, 0x4A) || code_is(game_code, 0x4B, 0x59, 0x47, 0x45) || code_is(game_code, 0x4B, 0x59, 0x47, 0x50) {
        // Yoshi - Topsy-Turvy / Yoshi's Universal Gravitation: KYGJ, KYGE, KYGP
        CartridgeConfig { backup_type: BackupType::Eeprom, device_pattern: CartridgeDevice::Tilt.bits() }
    } else if code_is(game_code, 0x41, 0x49, 0x32, 0x45) || code_is(game_code, 0x41, 0x49, 0x32, 0x50) {
        // Iridion II (its ROM holds stray backup IDs): AI2E, AI2P
        CartridgeConfig { backup_type: BackupType::NoBackup, device_pattern: 0 }
    } else if code_is(game_code, 0x41, 0x53, 0x4C, 0x45) || code_is(game_code, 0x41, 0x53, 0x4C, 0x46) {
        // Stuart Little 2 (its ROM holds stray backup IDs): ASLE, ASLF
        CartridgeConfig { backup_type: BackupType::NoBackup, device_pattern: 0 }
    } else if code_is(game_code, 0x41, 0x32, 0x59, 0x45) {
        // Top Gun - Combat Zones (its ROM holds stray backup IDs): A2YE
        CartridgeConfig { backup_type: BackupType::NoBackup, device_pattern: 0 }
    } else if game_code.len() > 0 && game_code[0] == 0x46 {
        CartridgeConfig { backup_type: BackupType::Eeprom, device_pattern: 0 }
    } else {
        return None;
    };
    Some(config)
}

/// The game codes whose configuration the code alone fixes, each with its
/// backup memory and the bits of its extra devices (RTC 1, solar sensor 2,
/// tilt 4, gyro 8, rumble 16, e-Reader 32); any other code that starts with
/// `F` (Classic NES Series) has EEPROM and no device.
#[verifier::rlimit(100)]
pub proof fn lemma_game_code_configs(code: Seq<u8>)
    ensures
        // Boktai - The Sun Is in Your Hand
        spec_lookup_config(seq![0x55u8, 0x33, 0x49, 0x4A]) == Some(CartridgeConfig { backup_type: BackupType::Eeprom, device_pattern: 3 }),
        spec_lookup_config(seq![0x55u8, 0x33, 0x49, 0x45]) == Some(CartridgeConfig { backup_type: BackupType::Eeprom, device_pattern: 3 }),
        spec_lookup_config(seq![0x55u8, 0x33, 0x49, 0x50]) == Some(CartridgeConfig { backup_type: BackupType::Eeprom, device_pattern: 3 }),
        // Boktai 2 - Solar Boy Django
        spec_lookup_config(seq![0x55u8, 0x33, 0x32, 0x4A]) == Some(CartridgeConfig { backup_type: BackupType::Eeprom, device_pattern: 3 }),
        spec_lookup_config(seq![0x55u8, 0x33, 0x32, 0x45]) == Some(CartridgeConfig { backup_type: BackupType::Eeprom, device_pattern: 3 }),
        spec_lookup_config(seq![0x55u8, 0x33, 0x32, 0x50]) == Some(CartridgeConfig { backup_type: BackupType::Eeprom, device_pattern: 3 }),
        // Drill Dozer
        spec_lookup_config(seq![0x56u8, 0x34, 0x39, 0x4A]) == Some(CartridgeConfig { backup_type: BackupType::Sram, device_pattern: 16 }),
        spec_lookup_config(seq![0x56u8, 0x34, 0x39, 0x45]) == Some(CartridgeConfig { backup_type: BackupType::Sram, device_pattern: 16 }),
        spec_lookup_config(seq![0x56u8, 0x34, 0x39, 0x50]) == Some(CartridgeConfig { backup_type: BackupType::Sram, device_pattern: 16 }),
        // e-Reader
        spec_lookup_config(seq![0x50u8, 0x45, 0x41, 0x4A]) == Some(CartridgeConfig { backup_type: BackupType::Flash128KB, device_pattern: 32 }),
        spec_lookup_config(seq![0x50u8, 0x53, 0x41, 0x4A]) == Some(CartridgeConfig { backup_type: BackupType::Flash128KB, device_pattern: 32 }),
        spec_lookup_config(seq![0x50u8, 0x53, 0x41, 0x45]) == Some(CartridgeConfig { backup_type: BackupType::Flash128KB, device_pattern: 32 }),
        // Game Boy Wars Advance 1+2
        spec_lookup_config(seq![0x42u8, 0x47, 0x57, 0x4A]) == Some(CartridgeConfig { backup_type: BackupType::Flash128KB, device_pattern: 0 }),
        // Goodboy Galaxy
        spec_lookup_config(seq![0x32u8, 0x47, 0x42, 0x50]) == Some(CartridgeConfig { backup_type: BackupType::Sram, device_pattern: 16 }),
        // Koro Koro Puzzle - Happy Panechu!
        spec_lookup_config(seq![0x4Bu8, 0x48, 0x50, 0x4A]) == Some(CartridgeConfig { backup_type: BackupType::Eeprom, device_pattern: 4 }),
        // Legendz - Yomigaeru Shiren no Shima
        spec_lookup_config(seq![0x42u8, 0x4C, 0x4A, 0x4A]) == Some(CartridgeConfig { backup_type: BackupType::Flash64KB, device_pattern: 1 }),
        spec_lookup_config(seq![0x42u8, 0x4C, 0x4A, 0x4B]) == Some(CartridgeConfig { backup_type: BackupType::Flash64KB, device_pattern: 1 }),
        // Legendz - Sign of Nekuromu
        spec_lookup_config(seq![0x42u8, 0x4C, 0x56, 0x4A]) == Some(CartridgeConfig { backup_type: BackupType::Flash64KB, device_pattern: 1 }),
        // Pokemon Ruby
        spec_lookup_config(seq![0x41u8, 0x58, 0x56, 0x4A]) == Some(CartridgeConfig { backup_type: BackupType::Flash128KB, device_pattern: 1 }),
        spec_lookup_config(seq![0x41u8, 0x58, 0x56, 0x45]) == Some(CartridgeConfig { backup_type: BackupType::Flash128KB, device_pattern: 1 }),
        spec_lookup_config(seq![0x41u8, 0x58, 0x56, 0x50]) == Some(CartridgeConfig { backup_type: BackupType::Flash128KB, device_pattern: 1 }),
        spec_lookup_config(seq![0x41u8, 0x58, 0x56, 0x49]) == Some(CartridgeConfig { backup_type: BackupType::Flash128KB, device_pattern: 1 }),
        spec_lookup_config(seq![0x41u8, 0x58, 0x56, 0x53]) == Some(CartridgeConfig { backup_type: BackupType::Flash128KB, device_pattern: 1 }),
        spec_lookup_config(seq![0x41u8, 0x58, 0x56, 0x44]) == Some(CartridgeConfig { backup_type: BackupType::Flash128KB, device_pattern: 1 }),
        spec_lookup_config(seq![0x41u8, 0x58, 0x56, 0x46]) == Some(CartridgeConfig { backup_type: BackupType::Flash128KB, device_pattern: 1 }),
        // Pokemon Sapphire
        spec_lookup_config(seq![0x41u8, 0x58, 0x50, 0x4A]) == Some(CartridgeConfig { backup_type: BackupType::Flash128KB, device_pattern: 1 }),
        spec_lookup_config(seq![0x41u8, 0x58, 0x50, 0x45]) == Some(CartridgeConfig { backup_type: BackupType::Flash128KB, device_pattern: 1 }),
        spec_lookup_config(seq![0x41u8, 0x58, 0x50, 0x50]) == Some(CartridgeConfig { backup_type: BackupType::Flash128KB, device_pattern: 1 }),
        spec_lookup_config(seq![0x41u8, 0x58, 0x50, 0x49]) == Some(CartridgeConfig { backup_type: BackupType::Flash128KB, device_pattern: 1 }),
        spec_lookup_config(seq![0x41u8, 0x58, 0x50, 0x53]) == Some(CartridgeConfig { backup_type: BackupType::Flash128KB, device_pattern: 1 }),
        spec_lookup_config(seq![0x41u8, 0x58, 0x50, 0x44]) == Some(CartridgeConfig { backup_type: BackupType::Flash128KB, device_pattern: 1 }),
        spec_lookup_config(seq![0x41u8, 0x58, 0x50, 0x46]) == Some(CartridgeConfig { backup_type: BackupType::Flash128KB, device_pattern: 1 }),
        // Pokemon Emerald
        spec_lookup_config(seq![0x42u8, 0x50, 0x45, 0x4A]) == Some(CartridgeConfig { backup_type: BackupType::Flash128KB, device_pattern: 1 }),
        spec_lookup_config(seq![0x42u8, 0x50, 0x45, 0x45]) == Some(CartridgeConfig { backup_type: BackupType::Flash128KB, device_pattern: 1 }),
        spec_lookup_config(seq![0x42u8, 0x50, 0x45, 0x50]) == Some(CartridgeConfig { backup_type: BackupType::Flash128KB, device_pattern: 1 }),
        spec_lookup_config(seq![0x42u8, 0x50, 0x45, 0x49]) == Some(CartridgeConfig { backup_type: BackupType::Flash128KB, device_pattern: 1 }),
        spec_lookup_config(seq![0x42u8, 0x50, 0x45, 0x53]) == Some(CartridgeConfig { backup_type: BackupType::Flash128KB, device_pattern: 1 }),
        spec_lookup_config(seq![0x42u8, 0x50, 0x45, 0x44]) == Some(CartridgeConfig { backup_type: BackupType::Flash128KB, device_pattern: 1 }),
        spec_lookup_config(seq![0x42u8, 0x50, 0x45, 0x46]) == Some(CartridgeConfig { backup_type: BackupType::Flash128KB, device_pattern: 1 }),
        // Pokemon FireRed
        spec_lookup_config(seq![0x42u8, 0x50, 0x52, 0x4A]) == Some(CartridgeConfig { backup_type: BackupType::Flash128KB, device_pattern: 0 }),
        spec_lookup_config(seq![0x42u8, 0x50, 0x52, 0x45]) == Some(CartridgeConfig { backup_type: BackupType::Flash128KB, device_pattern: 0 }),
        spec_lookup_config(seq![0x42u8, 0x50, 0x52, 0x50]) == Some(CartridgeConfig { backup_type: BackupType::Flash128KB, device_pattern: 0 }),
        spec_lookup_config(seq![0x42u8, 0x50, 0x52, 0x49]) == Some(CartridgeConfig { backup_type: BackupType::Flash128KB, device_pattern: 0 }),
        spec_lookup_config(seq![0x42u8, 0x50, 0x52, 0x53]) == Some(CartridgeConfig { backup_type: BackupType::Flash128KB, device_pattern: 0 }),
        spec_lookup_config(seq![0x42u8, 0x50, 0x52, 0x44]) == Some(CartridgeConfig { backup_type: BackupType::Flash128KB, device_pattern: 0 }),
        spec_lookup_config(seq![0x42u8, 0x50, 0x52, 0x46]) == Some(CartridgeConfig { backup_type: BackupType::Flash128KB, device_pattern: 0 }),
        // Pokemon LeafGreen
        spec_lookup_config(seq![0x42u8, 0x50, 0x47, 0x4A]) == Some(CartridgeConfig { backup_type: BackupType::Flash128KB, device_pattern: 0 }),
        spec_lookup_config(seq![0x42u8, 0x50, 0x47, 0x45]) == Some(CartridgeConfig { backup_type: BackupType::Flash128KB, device_pattern: 0 }),
        spec_lookup_config(seq![0x42u8, 0x50, 0x47, 0x50]) == Some(CartridgeConfig { backup_type: BackupType::Flash128KB, device_pattern: 0 }),
        spec_lookup_config(seq![0x42u8, 0x50, 0x47, 0x49]) == Some(CartridgeConfig { backup_type: BackupType::Flash128KB, device_pattern: 0 }),
        spec_lookup_config(seq![0x42u8, 0x50, 0x47, 0x53]) == Some(CartridgeConfig { backup_type: BackupType::Flash128KB, device_pattern: 0 }),
        spec_lookup_config(seq![0x42u8, 0x50, 0x47, 0x44]) == Some(CartridgeConfig { backup_type: BackupType::Flash128KB, device_pattern: 0 }),
        spec_lookup_config(seq![0x42u8, 0x50, 0x47, 0x46]) == Some(CartridgeConfig { backup_type: BackupType::Flash128KB, device_pattern: 0 }),
        // RockMan EXE 4.5 - Real Operation
        spec_lookup_config(seq![0x42u8, 0x52, 0x34, 0x4A]) == Some(CartridgeConfig { backup_type: BackupType::Flash64KB, device_pattern: 1 }),
        // Sennen Kazoku
        spec_lookup_config(seq![0x42u8, 0x4B, 0x41, 0x4A]) == Some(CartridgeConfig { backup_type: BackupType::Flash128KB, device_pattern: 1 }),
        // Shin Bokura no Taiyou - Gyakushuu no Sabata (Boktai 3)
        spec_lookup_config(seq![0x55u8, 0x33, 0x33, 0x4A]) == Some(CartridgeConfig { backup_type: BackupType::Eeprom, device_pattern: 3 }),
        // Wario Ware Twisted!
        spec_lookup_config(seq![0x52u8, 0x5A, 0x57, 0x4A]) == Some(CartridgeConfig { backup_type: BackupType::Sram, device_pattern: 24 }),
        spec_lookup_config(seq![0x52u8, 0x5A, 0x57, 0x45]) == Some(CartridgeConfig { backup_type: BackupType::Sram, device_pattern: 24 }),
        spec_lookup_config(seq![0x52u8, 0x5A, 0x57, 0x50]) == Some(CartridgeConfig { backup_type: BackupType::Sram, device_pattern: 24 }),
        // Yoshi - Topsy-Turvy / Yoshi's Universal Gravitation
        spec_lookup_config(seq![0x4Bu8, 0x59, 0x47, 0x4A]) == Some(CartridgeConfig { backup_type: BackupType::Eeprom, device_pattern: 4 }),
        spec_lookup_config(seq![0x4Bu8, 0x59, 0x47, 0x45]) == Some(CartridgeConfig { backup_type: BackupType::Eeprom, device_pattern: 4 }),
        spec_lookup_config(seq![0x4Bu8, 0x59, 0x47, 0x50]) == Some(CartridgeConfig { backup_type: BackupType::Eeprom, device_pattern: 4 }),
        // Iridion II (its ROM holds stray backup IDs)
        spec_lookup_config(seq![0x41u8, 0x49, 0x32, 0x45]) == Some(CartridgeConfig { backup_type: BackupType::NoBackup, device_pattern: 0 }),
        spec_lookup_config(seq![0x41u8, 0x49, 0x32, 0x50]) == Some(CartridgeConfig { backup_type: BackupType::NoBackup, device_pattern: 0 }),
        // Stuart Little 2 (its ROM holds stray backup IDs)
        spec_lookup_config(seq![0x41u8, 0x53, 0x4C, 0x45]) == Some(CartridgeConfig { backup_type: BackupType::NoBackup, device_pattern: 0 }),
        spec_lookup_config(seq![0x41u8, 0x53, 0x4C, 0x46]) == Some(CartridgeConfig { backup_type: BackupType::NoBackup, device_pattern: 0 }),
        // Top Gun - Combat Zones (its ROM holds stray backup IDs)
        spec_lookup_config(seq![0x41u8, 0x32, 0x59, 0x45]) == Some(CartridgeConfig { backup_type: BackupType::NoBackup, device_pattern: 0 }),
        code.len() == 4 && code[0] == 0x46 ==> spec_lookup_config(code) == Some(
            CartridgeConfig { backup_type: BackupType::Eeprom, device_pattern: 0 },
        ),
{
    assert((1u8 | 2u8) == 3u8) by (bit_vector);
    assert((16u8 | 8u8) == 24u8) by (bit_vector);
}

} // verus!
