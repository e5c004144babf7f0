use helios::astnode::{encode_instruction, parse_expression, ASTNode};
use helios::debuginfo::{DebugInfo, RegisterHint, RegisterType};
use helios::encoding::{encode_slot, Fields};
use helios::error::EncodeError;
use helios::instruction::{decode_instruction, InstructionType, Jump, Lddw, Ldxb, MoveImm};
use helios::opcode::Opcode;
use helios::token::{ImmediateValue, Token};

fn num(value: i64) -> Token {
    Token::ImmediateValue(ImmediateValue::Int(value), 1)
}

fn addr(value: i64) -> Token {
    Token::ImmediateValue(ImmediateValue::Addr(value), 1)
}

fn reg(index: u8) -> Token {
    Token::Register(index, 1)
}

fn instruction(opcode: Opcode, operands: Vec<Token>) -> ASTNode {
    ASTNode::Instruction { opcode, operands, offset: 24, line_number: 7 }
}

fn bytes_of(opcode: Opcode, operands: Vec<Token>) -> Vec<u8> {
    instruction(opcode, operands).bytecode().unwrap().unwrap()
}

#[test]
fn exit_is_the_opcode_and_zeros() {
    assert_eq!(bytes_of(Opcode::Exit, vec![]), vec![0x95, 0, 0, 0, 0, 0, 0, 0]);
}

#[test]
fn one_immediate() {
    assert_eq!(
        bytes_of(Opcode::Ja, vec![num(-2)]),
        vec![0x05, 0, 0xfe, 0xff, 0, 0, 0, 0]
    );
    assert_eq!(
        bytes_of(Opcode::Callx, vec![num(0x01020304)]),
        vec![0x8d, 0, 0, 0, 0x04, 0x03, 0x02, 0x01]
    );
}

#[test]
fn register_and_immediate() {
    assert_eq!(
        bytes_of(Opcode::Mov64Imm, vec![reg(3), num(42)]),
        vec![0xb7, 3, 0, 0, 42, 0, 0, 0]
    );
    assert_eq!(
        bytes_of(Opcode::Add64Imm, vec![reg(10), num(-1)]),
        vec![0x07, 10, 0, 0, 0xff, 0xff, 0xff, 0xff]
    );
    assert_eq!(
        bytes_of(Opcode::Mov64Imm, vec![reg(1), num(0x1_0000_0005)]),
        vec![0xb7, 1, 0, 0, 5, 0, 0, 0]
    );
}

#[test]
fn register_immediate_and_offset() {
    assert_eq!(
        bytes_of(Opcode::JneImm, vec![reg(0), num(3), num(-2)]),
        vec![0x55, 0, 0xfe, 0xff, 3, 0, 0, 0]
    );
    assert_eq!(
        bytes_of(Opcode::JeqImm, vec![reg(2), num(-1), num(0x0102)]),
        vec![0x15, 2, 0x02, 0x01, 0xff, 0xff, 0xff, 0xff]
    );
}

#[test]
fn two_registers() {
    assert_eq!(
        bytes_of(Opcode::Add64Reg, vec![reg(1), reg(2)]),
        vec![0x0f, 0x21, 0, 0, 0, 0, 0, 0]
    );
    assert_eq!(
        bytes_of(Opcode::Mov64Reg, vec![reg(0), reg(10)]),
        vec![0xbf, 0xa0, 0, 0, 0, 0, 0, 0]
    );
}

#[test]
fn register_and_memory_operand() {
    assert_eq!(
        bytes_of(Opcode::Ldxb, vec![reg(2), Token::Expression(b"r1+8".to_vec(), 1)]),
        vec![0x71, 0x12, 8, 0, 0, 0, 0, 0]
    );
    assert_eq!(
        bytes_of(Opcode::Ldxb, vec![reg(0), Token::Expression(b" r10 + -2 ".to_vec(), 1)]),
        vec![0x71, 0xa0, 0xfe, 0xff, 0, 0, 0, 0]
    );
}

#[test]
fn call_has_a_fixed_tail() {
    let expected = vec![0x85, 0x10, 0x00, 0x00, 0xff, 0xff, 0xff, 0xff];
    assert_eq!(bytes_of(Opcode::Call, vec![Token::Label(b"sol_log_".to_vec(), 1)]), expected);
    assert_eq!(bytes_of(Opcode::Call, vec![]), expected);
    assert_eq!(bytes_of(Opcode::Call, vec![num(5)]), expected);
}

#[test]
fn lddw_is_sixteen_bytes() {
    assert_eq!(
        bytes_of(Opcode::Lddw, vec![reg(1), addr(0x0102_0304_0506_0708)]),
        vec![0x18, 1, 0, 0, 0x08, 0x07, 0x06, 0x05, 0x04, 0x03, 0x02, 0x01, 0, 0, 0, 0]
    );
    assert_eq!(
        bytes_of(Opcode::Lddw, vec![reg(2), num(-1)]),
        vec![0x18, 2, 0, 0, 0xff, 0xff, 0xff, 0xff, 0xff, 0xff, 0xff, 0xff, 0, 0, 0, 0]
    );
}

#[test]
fn unsupported_operands() {
    let error = Err(EncodeError { line: 7 });
    assert_eq!(instruction(Opcode::Mov64, vec![reg(1), num(2)]).bytecode(), error);
    assert_eq!(instruction(Opcode::Mov64Imm, vec![]).bytecode(), error);
    assert_eq!(instruction(Opcode::Mov64Imm, vec![reg(1)]).bytecode(), error);
    assert_eq!(instruction(Opcode::Mov64Imm, vec![reg(11), num(2)]).bytecode(), error);
    assert_eq!(instruction(Opcode::Mov64Reg, vec![reg(1), reg(16)]).bytecode(), error);
    assert_eq!(instruction(Opcode::JeqReg, vec![reg(1), reg(2), num(3)]).bytecode(), error);
    assert_eq!(
        instruction(Opcode::Ja, vec![Token::Label(b"x".to_vec(), 1)]).bytecode(),
        error
    );
    assert_eq!(
        instruction(Opcode::Ldxb, vec![reg(1), Token::Expression(b"r1".to_vec(), 1)]).bytecode(),
        error
    );
    assert_eq!(
        instruction(Opcode::Mov64Imm, vec![reg(1), num(2), num(3), num(4)]).bytecode(),
        error
    );
    assert!(instruction(Opcode::Mov64Imm, vec![reg(1), num(2)])
        .bytecode_with_debug_map()
        .is_ok());
}

#[test]
fn debug_map_holds_the_line_at_the_offset() {
    let (bytes, map) = instruction(Opcode::Mov64Imm, vec![reg(3), num(42)])
        .bytecode_with_debug_map()
        .unwrap()
        .unwrap();
    assert_eq!(bytes.len(), 8);
    assert_eq!(map.len(), 1);
    assert_eq!(map.get(&24), Some(&DebugInfo { line_number: 7, register_hint: None }));
}

#[test]
fn an_address_leaves_a_hint() {
    let (_, map) = instruction(Opcode::Lddw, vec![reg(3), addr(0x100)])
        .bytecode_with_debug_map()
        .unwrap()
        .unwrap();
    assert_eq!(
        map.get(&24),
        Some(&DebugInfo {
            line_number: 7,
            register_hint: Some(RegisterHint { register: 3, register_type: RegisterType::Addr }),
        })
    );
    let (_, debug) =
        encode_instruction(Opcode::JeqImm, &vec![reg(4), addr(1), num(2)], 9).unwrap();
    assert_eq!(
        debug,
        DebugInfo {
            line_number: 9,
            register_hint: Some(RegisterHint { register: 4, register_type: RegisterType::Addr }),
        }
    );
    let (_, plain) = encode_instruction(Opcode::Mov64Reg, &vec![reg(4), reg(5)], 9).unwrap();
    assert_eq!(plain, DebugInfo::new(9));
}

#[test]
fn rodata_is_the_bytes_of_its_strings() {
    let node = ASTNode::RODataLabel {
        name: b"msg".to_vec(),
        args: vec![
            Token::StringLiteral(b"hi".to_vec(), 1),
            Token::Directive(b"ascii".to_vec(), 1),
            Token::StringLiteral(b" you".to_vec(), 1),
        ],
        offset: 8,
        line_number: 1,
    };
    let (bytes, map) = node.bytecode_with_debug_map().unwrap().unwrap();
    assert_eq!(bytes, b"hi you".to_vec());
    assert!(map.is_empty());
    assert_eq!(node.bytecode(), Ok(Some(b"hi you".to_vec())));
}

#[test]
fn labels_and_directives_have_no_bytes() {
    let label = ASTNode::Label { name: b"a".to_vec(), line_number: 1 };
    let directive = ASTNode::Directive { name: b"text".to_vec(), args: vec![], line_number: 1 };
    assert_eq!(label.bytecode(), Ok(None));
    assert_eq!(directive.bytecode(), Ok(None));
    assert!(label.bytecode_with_debug_map().unwrap().is_none());
}

#[test]
fn memory_operands() {
    assert_eq!(parse_expression(b"r3+8"), Some((3, 8)));
    assert_eq!(parse_expression(b"r10+0"), Some((10, 0)));
    assert_eq!(parse_expression(b" r1\t+ 32767 "), Some((1, 32767)));
    assert_eq!(parse_expression(b"r1+-32768"), Some((1, -32768)));
    assert_eq!(parse_expression(b"r1++5"), Some((1, 5)));
    assert_eq!(parse_expression(b"r1+32768"), None);
    assert_eq!(parse_expression(b"r1+-32769"), None);
    assert_eq!(parse_expression(b"r11+1"), None);
    assert_eq!(parse_expression(b"r+1"), None);
    assert_eq!(parse_expression(b"x1+1"), None);
    assert_eq!(parse_expression(b"r1"), None);
    assert_eq!(parse_expression(b"r1+"), None);
    assert_eq!(parse_expression(b"r1+2+3"), None);
    assert_eq!(parse_expression(b"r1-2"), None);
    assert_eq!(parse_expression(b""), None);
}

#[test]
fn decoding_gives_back_what_was_encoded() {
    let bytes = encode_slot(Opcode::Mov64Imm, Fields { dst: 3, src: 0, offset: 0, imm: -7 });
    assert_eq!(
        decode_instruction(&bytes),
        Ok((InstructionType::MoveImm(MoveImm { register: 3, value: (-7i64) as u64 }), 8))
    );
    let bytes = encode_slot(Opcode::JgtImm, Fields { dst: 9, src: 0, offset: -300, imm: 70000 });
    assert_eq!(
        decode_instruction(&bytes),
        Ok((
            InstructionType::Jump(Jump {
                register: 9,
                offset: -300,
                value: 70000,
                opcode: Opcode::JgtImm
            }),
            8
        ))
    );
    let bytes = encode_slot(Opcode::Lddw, Fields { dst: 2, src: 0, offset: 0, imm: i64::MIN + 5 });
    assert_eq!(
        decode_instruction(&bytes),
        Ok((InstructionType::Lddw(Lddw { register: 2, value: (i64::MIN + 5) as u64 }), 16))
    );
    let bytes = encode_slot(Opcode::Ldxb, Fields { dst: 2, src: 10, offset: -4, imm: 0 });
    assert_eq!(
        decode_instruction(&bytes),
        Ok((InstructionType::Ldxb(Ldxb { register: 2, base_reg: 10, offset: -4 }), 8))
    );
}
