use chip8::instr::Instr;

#[test]
fn decodes_draw_fields() {
    assert_eq!(Some(Instr::DrwVxVyN(1, 2, 3)), Instr::from(0xD123));
}

#[test]
fn decodes_each_family() {
    assert_eq!(Some(Instr::Cls), Instr::from(0x00E0));
    assert_eq!(Some(Instr::Ret), Instr::from(0x00EE));
    assert_eq!(Some(Instr::Sys(0x123)), Instr::from(0x0123));
    assert_eq!(Some(Instr::Jp(0xABC)), Instr::from(0x1ABC));
    assert_eq!(Some(Instr::Call(0x2F0)), Instr::from(0x22F0));
    assert_eq!(Some(Instr::SeVxKK(4, 0x56)), Instr::from(0x3456));
    assert_eq!(Some(Instr::SneVxKK(4, 0x56)), Instr::from(0x4456));
    assert_eq!(Some(Instr::SeVxVy(4, 5)), Instr::from(0x5450));
    assert_eq!(Some(Instr::LdVxKK(0, 5)), Instr::from(0x6005));
    assert_eq!(Some(Instr::AddVxKK(0, 3)), Instr::from(0x7003));
    assert_eq!(Some(Instr::LdVxVy(1, 2)), Instr::from(0x8120));
    assert_eq!(Some(Instr::OrVxVy(1, 2)), Instr::from(0x8121));
    assert_eq!(Some(Instr::AndVxVy(1, 2)), Instr::from(0x8122));
    assert_eq!(Some(Instr::XorVxVy(1, 2)), Instr::from(0x8123));
    assert_eq!(Some(Instr::AddVxVy(1, 2)), Instr::from(0x8124));
    assert_eq!(Some(Instr::SubVxVy(1, 2)), Instr::from(0x8125));
    assert_eq!(Some(Instr::ShrVx(1)), Instr::from(0x8126));
    assert_eq!(Some(Instr::SubnVxVy(1, 2)), Instr::from(0x8127));
    assert_eq!(Some(Instr::ShlVx(1)), Instr::from(0x812E));
    assert_eq!(Some(Instr::SneVxVy(1, 2)), Instr::from(0x9120));
    assert_eq!(Some(Instr::LdI(0x210)), Instr::from(0xA210));
    assert_eq!(Some(Instr::JpV0(0x300)), Instr::from(0xB300));
    assert_eq!(Some(Instr::RndVxKK(7, 0x0F)), Instr::from(0xC70F));
    assert_eq!(Some(Instr::SkpVx(3)), Instr::from(0xE39E));
    assert_eq!(Some(Instr::SknpVx(3)), Instr::from(0xE3A1));
    assert_eq!(Some(Instr::LdVxDT(3)), Instr::from(0xF307));
    assert_eq!(Some(Instr::LdVxK(3)), Instr::from(0xF30A));
    assert_eq!(Some(Instr::LdDTVx(3)), Instr::from(0xF315));
    assert_eq!(Some(Instr::LdSTVx(3)), Instr::from(0xF318));
    assert_eq!(Some(Instr::AddIVx(3)), Instr::from(0xF31E));
    assert_eq!(Some(Instr::LdFVx(3)), Instr::from(0xF329));
    assert_eq!(Some(Instr::LdBVx(3)), Instr::from(0xF333));
    assert_eq!(Some(Instr::LdIVx(3)), Instr::from(0xF355));
    assert_eq!(Some(Instr::LdVxI(3)), Instr::from(0xF365));
}

#[test]
fn unknown_opcodes_decode_to_none() {
    assert_eq!(None, Instr::from(0x5121));
    assert_eq!(None, Instr::from(0x8128));
    assert_eq!(None, Instr::from(0x812F));
    assert_eq!(None, Instr::from(0x9121));
    assert_eq!(None, Instr::from(0xE100));
    assert_eq!(None, Instr::from(0xF1FF));
    assert_eq!(None, Instr::from(0xFFFF));
}

#[test]
fn mnemonics() {
    assert_eq!("DRW V1, V2, 3", Instr::DrwVxVyN(1, 2, 3).mnemonic());
    assert_eq!("CLS", Instr::Cls.mnemonic());
    assert_eq!("JP 4095", Instr::Jp(0xFFF).mnemonic());
    assert_eq!("LD V10, 255", Instr::LdVxKK(10, 255).mnemonic());
    assert_eq!("SHL V3", Instr::ShlVx(3).mnemonic());
    assert_eq!("LD V0, [I]", Instr::LdVxI(0).mnemonic());
    assert_eq!("ADD I, V15", Instr::AddIVx(15).mnemonic());
    assert_eq!("SYS 0", Instr::Sys(0).mnemonic());
}
