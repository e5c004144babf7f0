use helios::error::{
    DecodeError, EncodeError, LexError, LoadError, ParseError, RuntimeError, VmError,
};
use helios::image::{assemble_source, AssembleError};
use helios::session::{run, RunError};
use helios::vm::VM;

#[test]
fn lex_errors_in_words() {
    assert_eq!(
        LexError::UnexpectedCharacter { byte: b'@', line: 12 }.message(),
        "Unexpected character 0x40 at line 12"
    );
    assert_eq!(
        LexError::UnexpectedCharacter { byte: 7, line: 1 }.message(),
        "Unexpected character 0x7 at line 1"
    );
    assert_eq!(
        LexError::UnterminatedString { line: 3 }.message(),
        "Unterminated string at line 3"
    );
    assert_eq!(LexError::InvalidNumber { line: 100 }.message(), "Invalid number at line 100");
}

#[test]
fn parse_errors_in_words() {
    assert_eq!(
        ParseError::UnexpectedToken { line: 4 }.message(),
        "Unexpected token at line 4"
    );
    assert_eq!(
        ParseError::UnknownOpcode { name: b"frob".to_vec(), line: 5 }.message(),
        "Unknown opcode 'frob' at line 5"
    );
    assert_eq!(
        ParseError::UnresolvedLabel { name: b"loop".to_vec(), line: 60 }.message(),
        "Undefined label 'loop' at line 60"
    );
    assert_eq!(
        ParseError::UnresolvedLabel { name: vec![b'a', 0xff], line: 0 }.message(),
        "Undefined label 'a\u{fffd}' at line 0"
    );
    assert_eq!(
        ParseError::OffsetOverflow { line: 7 }.message(),
        "Offset out of range at line 7"
    );
}

#[test]
fn the_message_of_an_unresolved_label_names_it() {
    let error = assemble_source("exit\n ja nowhere\n").unwrap_err();
    let message = error.message();
    assert_eq!(message, "Parser error: Undefined label 'nowhere' at line 2");
    let mut vm = VM::new();
    let error = run(&mut vm, "exit\n ja nowhere\n").unwrap_err();
    assert_eq!(error.message(), message);
}

#[test]
fn other_errors_in_words() {
    assert_eq!(EncodeError { line: 9 }.message(), "Unsupported operands at line 9");
    assert_eq!(
        LoadError::TooShort.message(),
        "Invalid bytecode: too short to be an ELF file"
    );
    assert_eq!(LoadError::BadMagic.message(), "Invalid bytecode: not an ELF file");
    assert_eq!(DecodeError::UnknownOpcode { byte: 0xff }.message(), "Unknown opcode: 0xff");
    assert_eq!(
        DecodeError::UnsupportedOpcode { byte: 0x27 }.message(),
        "Unsupported opcode: 0x27"
    );
    assert_eq!(DecodeError::Truncated.message(), "Not enough bytes for an instruction");
    assert_eq!(
        RuntimeError::InvalidRegister { index: 11 }.message(),
        "Invalid register index: 11"
    );
    assert_eq!(
        RuntimeError::InvalidSyscall { id: 0x1f }.message(),
        "Unsupported function ID: 0x1f"
    );
    assert_eq!(RuntimeError::MemoryOutOfBounds.message(), "Memory access out of bounds");
    assert_eq!(RuntimeError::InvalidJump.message(), "Invalid jump");
}

#[test]
fn interpreter_errors_say_where() {
    assert_eq!(VmError::NoProgram.message(), "No program loaded");
    assert_eq!(
        VmError::Decode { pc: 128, error: DecodeError::Truncated }.message(),
        "Not enough bytes for an instruction at pc 128"
    );
    assert_eq!(
        VmError::Runtime { pc: 136, error: RuntimeError::InvalidSyscall { id: 2 } }.message(),
        "Unsupported function ID: 0x2 at pc 136"
    );
    assert_eq!(VmError::StepLimit { pc: 8 }.message(), "Step limit reached at pc 8");
}

#[test]
fn assembly_errors_name_their_stage() {
    assert_eq!(
        assemble_source("mov64 r1, $").unwrap_err().message(),
        "Tokenizer error: Unexpected character 0x24 at line 1"
    );
    assert_eq!(
        assemble_source("\n\n, ").unwrap_err().message(),
        "Parser error: Unexpected token at line 3"
    );
    assert_eq!(
        assemble_source("exit\nmov64 r1").unwrap_err().message(),
        "Encoder error: Unsupported operands at line 2"
    );
    assert_eq!(AssembleError::ImageTooLarge.message(), "Encoder error: image too large");
    assert_eq!(
        RunError::Load(LoadError::BadMagic).message(),
        "Invalid bytecode: not an ELF file"
    );
    assert_eq!(RunError::Vm(VmError::NoProgram).message(), "No program loaded");
}

#[test]
fn encode_errors_stop_the_assembly() {
    assert_eq!(
        assemble_source("exit\nmov64 r1").unwrap_err(),
        AssembleError::Encode(EncodeError { line: 2 })
    );
    assert_eq!(
        assemble_source("exit\n\"").unwrap_err(),
        AssembleError::Lex(LexError::UnterminatedString { line: 2 })
    );
}
