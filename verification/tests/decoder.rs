use helios::error::DecodeError;
use helios::instruction::{
    decode_instruction, AddImm, AddReg, Call, Exit, InstructionType, Jump, Lddw, Ldxb, MoveImm,
    MoveReg, SubImm, SubReg,
};
use helios::opcode::Opcode;

#[test]
fn decodes_lddw() {
    let bytes = [0x18, 0x03, 0, 0, 1, 2, 3, 4, 5, 6, 7, 8, 0, 0, 0, 0];
    assert_eq!(
        Lddw::decode(&bytes),
        Ok(Lddw { register: 3, value: 0x0807_0605_0403_0201 })
    );
    assert_eq!(Lddw::decode(&bytes[..15]), Err(DecodeError::Truncated));
    assert_eq!(
        decode_instruction(&bytes),
        Ok((InstructionType::Lddw(Lddw { register: 3, value: 0x0807_0605_0403_0201 }), 16))
    );
}

#[test]
fn decodes_ldxb() {
    let bytes = [0x71, 0x12, 0xfe, 0xff, 0, 0, 0, 0];
    assert_eq!(Ldxb::decode(&bytes), Ok(Ldxb { register: 2, base_reg: 1, offset: -2 }));
    assert_eq!(Ldxb::decode(&bytes[..7]), Err(DecodeError::Truncated));
}

#[test]
fn decodes_immediates_with_their_sign() {
    let bytes = [0x07, 0x04, 0, 0, 0xff, 0xff, 0xff, 0xff];
    assert_eq!(AddImm::decode(&bytes), Ok(AddImm { register: 4, value: u64::MAX }));
    assert_eq!(SubImm::decode(&bytes), Ok(SubImm { register: 4, value: u64::MAX }));
    assert_eq!(MoveImm::decode(&bytes), Ok(MoveImm { register: 4, value: u64::MAX }));
    let small = [0xb7, 0x00, 0, 0, 42, 0, 0, 0];
    assert_eq!(MoveImm::decode(&small), Ok(MoveImm { register: 0, value: 42 }));
    assert_eq!(AddImm::decode(&small[..3]), Err(DecodeError::Truncated));
    assert_eq!(SubImm::decode(&[]), Err(DecodeError::Truncated));
    assert_eq!(MoveImm::decode(&small[..7]), Err(DecodeError::Truncated));
}

#[test]
fn decodes_register_pairs() {
    let bytes = [0x0f, 0xa3, 0, 0, 0, 0, 0, 0];
    assert_eq!(AddReg::decode(&bytes), Ok(AddReg { src: 10, dest: 3 }));
    assert_eq!(SubReg::decode(&bytes), Ok(SubReg { src: 10, dest: 3 }));
    assert_eq!(MoveReg::decode(&bytes), Ok(MoveReg { src: 10, dest: 3 }));
    assert_eq!(AddReg::decode(&bytes[..1]), Err(DecodeError::Truncated));
    assert_eq!(SubReg::decode(&bytes[..2]), Err(DecodeError::Truncated));
    assert_eq!(MoveReg::decode(&bytes[..7]), Err(DecodeError::Truncated));
}

#[test]
fn decodes_jumps() {
    let bytes = [0x55, 0x00, 0xfe, 0xff, 3, 0, 0, 0];
    assert_eq!(
        Jump::decode(&bytes, Opcode::JneImm),
        Ok(Jump { register: 0, offset: -2, value: 3, opcode: Opcode::JneImm })
    );
    assert_eq!(Jump::decode(&bytes[..7], Opcode::JneImm), Err(DecodeError::Truncated));
    assert_eq!(
        decode_instruction(&[0x05, 0, 5, 0, 0, 0, 0, 0]),
        Ok((
            InstructionType::Jump(Jump { register: 0, offset: 5, value: 0, opcode: Opcode::Ja }),
            8
        ))
    );
}

#[test]
fn decodes_call() {
    let bytes = [0x85, 0x10, 0x00, 0x00, 0xff, 0xff, 0xff, 0xff];
    assert_eq!(Call::decode(&bytes), Ok(Call { function_id: 0x10 }));
    assert_eq!(
        Call::decode(&[0x85, 0x01, 0x02, 0x03, 0, 0, 0, 0]),
        Ok(Call { function_id: 0x030201 })
    );
    assert_eq!(Call::decode(&bytes[..7]), Err(DecodeError::Truncated));
}

#[test]
fn decodes_each_supported_opcode() {
    let tail = [0x21, 0, 0, 7, 0, 0, 0];
    let decode = |opcode: u8| {
        let mut bytes = vec![opcode];
        bytes.extend_from_slice(&tail);
        decode_instruction(&bytes).map(|(instruction, size)| {
            assert_eq!(size, 8);
            instruction
        })
    };
    assert_eq!(decode(0x07), Ok(InstructionType::AddImm(AddImm { register: 1, value: 7 })));
    assert_eq!(decode(0x04), Ok(InstructionType::AddImm(AddImm { register: 1, value: 7 })));
    assert_eq!(decode(0x0f), Ok(InstructionType::AddReg(AddReg { src: 2, dest: 1 })));
    assert_eq!(decode(0x0c), Ok(InstructionType::AddReg(AddReg { src: 2, dest: 1 })));
    assert_eq!(decode(0x17), Ok(InstructionType::SubImm(SubImm { register: 1, value: 7 })));
    assert_eq!(decode(0x14), Ok(InstructionType::SubImm(SubImm { register: 1, value: 7 })));
    assert_eq!(decode(0x1f), Ok(InstructionType::SubReg(SubReg { src: 2, dest: 1 })));
    assert_eq!(decode(0x1c), Ok(InstructionType::SubReg(SubReg { src: 2, dest: 1 })));
    assert_eq!(decode(0xb7), Ok(InstructionType::MoveImm(MoveImm { register: 1, value: 7 })));
    assert_eq!(decode(0xb4), Ok(InstructionType::MoveImm(MoveImm { register: 1, value: 7 })));
    assert_eq!(decode(0xbf), Ok(InstructionType::MoveReg(MoveReg { src: 2, dest: 1 })));
    assert_eq!(decode(0xbc), Ok(InstructionType::MoveReg(MoveReg { src: 2, dest: 1 })));
    assert_eq!(
        decode(0x71),
        Ok(InstructionType::Ldxb(Ldxb { register: 1, base_reg: 2, offset: 0 }))
    );
    assert_eq!(decode(0x95), Ok(InstructionType::Exit(Exit)));
    for (byte, opcode) in [
        (0x15, Opcode::JeqImm),
        (0x55, Opcode::JneImm),
        (0x25, Opcode::JgtImm),
        (0x35, Opcode::JgeImm),
        (0xa5, Opcode::JltImm),
        (0xb5, Opcode::JleImm),
    ] {
        assert_eq!(
            decode(byte),
            Ok(InstructionType::Jump(Jump { register: 1, offset: 0, value: 7, opcode }))
        );
    }
}

#[test]
fn decode_errors() {
    assert_eq!(decode_instruction(&[]), Err(DecodeError::Truncated));
    assert_eq!(
        decode_instruction(&[0x00, 0, 0, 0, 0, 0, 0, 0]),
        Err(DecodeError::UnknownOpcode { byte: 0 })
    );
    assert_eq!(
        decode_instruction(&[0x27, 0, 0, 0, 0, 0, 0, 0]),
        Err(DecodeError::UnsupportedOpcode { byte: 0x27 })
    );
    assert_eq!(
        decode_instruction(&[0x1d, 0, 0, 0, 0, 0, 0, 0]),
        Err(DecodeError::UnsupportedOpcode { byte: 0x1d })
    );
    assert_eq!(decode_instruction(&[0x95, 0, 0]), Err(DecodeError::Truncated));
    assert_eq!(decode_instruction(&[0xb7, 0, 0, 0, 0, 0, 0]), Err(DecodeError::Truncated));
    assert_eq!(
        decode_instruction(&[0x18, 0, 0, 0, 0, 0, 0, 0]),
        Err(DecodeError::Truncated)
    );
}
