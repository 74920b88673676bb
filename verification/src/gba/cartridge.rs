pub mod backup;
pub mod eeprom;
pub mod header;
