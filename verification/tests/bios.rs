use ironboyadvance::gba::bios::{Bios, BiosError};

fn image() -> Vec<u8> {
    let mut data = vec![0u8; 0x4000];
    data[0] = 0x78;
    data[1] = 0x56;
    data[2] = 0x34;
    data[3] = 0x12;
    data[0x3FFC] = 0xAA;
    data[0x3FFF] = 0xBB;
    data
}

#[test]
fn an_image_of_the_wrong_size_is_refused() {
    assert_eq!(Bios::load(vec![0u8; 10]).unwrap_err(), BiosError::InvalidBiosLength(10));
    assert_eq!(Bios::load(Vec::new()).unwrap_err(), BiosError::InvalidBiosLength(0));
    assert!(Bios::load(vec![0u8; 0x4001]).is_err());
}

#[test]
fn reads_from_inside_the_bios_give_its_bytes() {
    let mut bios = Bios::load(image()).unwrap();
    assert!(bios.loaded());
    assert_eq!(bios.read_32(0), 0x12345678);
    assert_eq!(bios.read_32(2), 0x12345678);
    assert_eq!(bios.read_8(1), 0x56);
    assert_eq!(bios.read_16(2), 0x1234);
    assert_eq!(bios.read_16(1), 0x5678);
    assert_eq!(bios.read_32(0x3FFC), 0xBB0000AA);
}

#[test]
fn reads_from_outside_give_the_last_fetched_word() {
    let mut bios = Bios::load(image()).unwrap();
    bios.set_pc_ref(0x0800_0000);
    assert_eq!(bios.read_32(0), 0xE129F000);
    bios.set_pc_ref(0x100);
    assert_eq!(bios.read_32(0), 0x12345678);
    bios.set_pc_ref(0x4000);
    assert_eq!(bios.read_32(0x3FFC), 0x12345678);
    assert_eq!(bios.read_8(0x3FFF), 0x12);
    bios.write_8(0, 0xFF);
    bios.set_pc_ref(0);
    assert_eq!(bios.read_8(0), 0x78);
}
