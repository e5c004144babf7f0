use helios::opcode::{Opcode, OperandRule};

#[test]
fn bytes_and_opcodes_are_inverse() {
    let mut known = 0;
    for byte in 0..=255u8 {
        if let Some(opcode) = Opcode::from_u8(byte) {
            known += 1;
            assert_eq!(opcode.to_bytecode(), Some(byte));
        }
    }
    assert_eq!(known, 113);
}

#[test]
fn some_opcode_bytes() {
    assert_eq!(Opcode::Lddw.to_bytecode(), Some(0x18));
    assert_eq!(Opcode::Ldxb.to_bytecode(), Some(0x71));
    assert_eq!(Opcode::Add64Imm.to_bytecode(), Some(0x07));
    assert_eq!(Opcode::Add64Reg.to_bytecode(), Some(0x0f));
    assert_eq!(Opcode::Mov64Imm.to_bytecode(), Some(0xb7));
    assert_eq!(Opcode::Mov64Reg.to_bytecode(), Some(0xbf));
    assert_eq!(Opcode::Ja.to_bytecode(), Some(0x05));
    assert_eq!(Opcode::JneImm.to_bytecode(), Some(0x55));
    assert_eq!(Opcode::Call.to_bytecode(), Some(0x85));
    assert_eq!(Opcode::Exit.to_bytecode(), Some(0x95));
    assert_eq!(Opcode::Add64.to_bytecode(), None);
    assert_eq!(Opcode::Jeq.to_bytecode(), None);
    assert_eq!(Opcode::from_u8(0x00), None);
    assert_eq!(Opcode::from_u8(0x95), Some(Opcode::Exit));
}

#[test]
fn promotion_picks_the_member_of_the_family() {
    assert_eq!(Opcode::Add64.promote_imm(), Opcode::Add64Imm);
    assert_eq!(Opcode::Add64.promote_reg(), Opcode::Add64Reg);
    assert_eq!(Opcode::Jne.promote_imm(), Opcode::JneImm);
    assert_eq!(Opcode::Jne.promote_reg(), Opcode::JneReg);
    assert_eq!(Opcode::Exit.promote_imm(), Opcode::Exit);
    assert_eq!(Opcode::Neg32.promote_reg(), Opcode::Neg32);
    assert_eq!(Opcode::Add64Imm.promote_reg(), Opcode::Add64Imm);
}

#[test]
fn widths() {
    assert_eq!(Opcode::Lddw.width(), 16);
    assert_eq!(Opcode::Exit.width(), 8);
    assert_eq!(Opcode::Mov64Imm.width(), 8);
}

#[test]
fn mnemonics() {
    assert_eq!(Opcode::from_mnemonic(b"mov64"), Some(Opcode::Mov64));
    assert_eq!(Opcode::from_mnemonic(b"exit"), Some(Opcode::Exit));
    assert_eq!(Opcode::from_mnemonic(b"jsle"), Some(Opcode::Jsle));
    assert_eq!(Opcode::from_mnemonic(b"mov64imm"), None);
    assert_eq!(Opcode::from_mnemonic(b""), None);
    assert_eq!(Opcode::Mov64Imm.to_str(), "mov64");
    assert_eq!(Opcode::Mov64.to_str(), "mov64");
    assert_eq!(Opcode::Lddw.to_str(), "lddw");
}

#[test]
fn operand_rules() {
    assert_eq!(Opcode::Add32.operand_rule(), OperandRule::Alu);
    assert_eq!(Opcode::Jeq.operand_rule(), OperandRule::ConditionalJump);
    assert_eq!(Opcode::Ja.operand_rule(), OperandRule::Jump);
    assert_eq!(Opcode::Exit.operand_rule(), OperandRule::Nothing);
    assert_eq!(Opcode::Lddw.operand_rule(), OperandRule::Greedy);
    assert_eq!(Opcode::Call.operand_rule(), OperandRule::Greedy);
    assert!(Opcode::Ja.is_jump());
    assert!(Opcode::JeqReg.is_jump());
    assert!(!Opcode::Jeq.is_jump());
    assert!(!Opcode::Call.is_jump());
}
