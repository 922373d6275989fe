use mos6502::opcodes::lookup_by_byte;
use mos6502::opcodes::lookup_by_mnemonic_and_mode;
use mos6502::opcodes::mnemonic_from_str;
use mos6502::opcodes::operand_bytes;
use mos6502::opcodes::AddressingMode;
use mos6502::opcodes::Mnemonic;

#[test]
fn every_descriptor_length_is_one_plus_operand_bytes() {
    let mut legal = 0;
    for b in 0..=255u16 {
        if let Some(d) = lookup_by_byte(b as u8) {
            assert_eq!(d.code, b as u8);
            assert_eq!(d.length, 1 + operand_bytes(d.mode));
            legal += 1;
        }
    }
    assert_eq!(legal, 151);
}

#[test]
fn lookup_by_byte_knows_the_classics() {
    let lda = lookup_by_byte(0xA9).unwrap();
    assert_eq!(lda.mnemonic, Mnemonic::Lda);
    assert_eq!(lda.mode, AddressingMode::Immediate);
    assert_eq!(lda.length, 2);

    let brk = lookup_by_byte(0x00).unwrap();
    assert_eq!(brk.mnemonic, Mnemonic::Brk);
    assert_eq!(brk.mode, AddressingMode::Implied);
    assert_eq!(brk.length, 1);

    let jmp = lookup_by_byte(0x6C).unwrap();
    assert_eq!(jmp.mnemonic, Mnemonic::Jmp);
    assert_eq!(jmp.mode, AddressingMode::Indirect);
    assert_eq!(jmp.length, 3);

    assert!(lookup_by_byte(0xFF).is_none());
    assert!(lookup_by_byte(0x02).is_none());
}

#[test]
fn lookup_by_mnemonic_and_mode_finds_each_lda_entry() {
    let d = lookup_by_mnemonic_and_mode(Mnemonic::Lda, AddressingMode::Immediate).unwrap();
    assert_eq!(d.code, 0xA9);
    let d = lookup_by_mnemonic_and_mode(Mnemonic::Lda, AddressingMode::IndirectY).unwrap();
    assert_eq!(d.code, 0xB1);
    assert!(lookup_by_mnemonic_and_mode(Mnemonic::Lda, AddressingMode::Implied).is_none());
    assert!(lookup_by_mnemonic_and_mode(Mnemonic::Ldx, AddressingMode::IndirectY).is_none());
}

#[test]
fn mnemonic_from_str_parses_names_exactly() {
    assert_eq!(mnemonic_from_str("LDA"), Some(Mnemonic::Lda));
    assert_eq!(mnemonic_from_str("BRK"), Some(Mnemonic::Brk));
    assert_eq!(mnemonic_from_str("TXS"), Some(Mnemonic::Txs));
    assert_eq!(mnemonic_from_str("lda"), None);
    assert_eq!(mnemonic_from_str("LD"), None);
    assert_eq!(mnemonic_from_str("LDAX"), None);
    assert_eq!(mnemonic_from_str(""), None);
}

#[test]
fn each_mnemonic_resolves_from_its_name() {
    let names = [
        "ADC", "AND", "ASL", "BCC", "BCS", "BEQ", "BIT", "BMI", "BNE", "BPL", "BRK", "BVC",
        "BVS", "CLC", "CLD", "CLI", "CLV", "CMP", "CPX", "CPY", "DEC", "DEX", "DEY", "EOR",
        "INC", "INX", "INY", "JMP", "JSR", "LDA", "LDX", "LDY", "LSR", "NOP", "ORA", "PHA",
        "PHP", "PLA", "PLP", "ROL", "ROR", "RTI", "RTS", "SBC", "SEC", "SED", "SEI", "STA",
        "STX", "STY", "TAX", "TAY", "TSX", "TXA", "TXS", "TYA",
    ];
    for name in names {
        assert!(mnemonic_from_str(name).is_some(), "{name}");
    }
}
