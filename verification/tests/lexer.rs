use helios::error::LexError;
use helios::lexer::{tokenize, tokenize_bytes};
use helios::opcode::Opcode;
use helios::token::{ImmediateValue, Token};

fn name(text: &str) -> Vec<u8> {
    text.as_bytes().to_vec()
}

#[test]
fn lexes_an_instruction() {
    assert_eq!(
        tokenize("mov64 r0, 42").unwrap(),
        vec![
            Token::Opcode(Opcode::Mov64, 1),
            Token::Register(0, 1),
            Token::Comma(1),
            Token::ImmediateValue(ImmediateValue::Int(42), 1),
        ]
    );
}

#[test]
fn lexes_directives_and_labels_with_lines() {
    assert_eq!(
        tokenize(".globl entry\nentry:\n exit\n.rodata\n.extern a b\n.text\n").unwrap(),
        vec![
            Token::Global(1),
            Token::Label(name("entry"), 1),
            Token::Label(name("entry"), 2),
            Token::Opcode(Opcode::Exit, 3),
            Token::Rodata(4),
            Token::Extern(5),
            Token::Label(name("a"), 5),
            Token::Label(name("b"), 5),
            Token::Directive(name("text"), 6),
        ]
    );
}

#[test]
fn lines_are_counted_from_one() {
    assert_eq!(tokenize("exit").unwrap(), vec![Token::Opcode(Opcode::Exit, 1)]);
    assert_eq!(tokenize("\n\nexit").unwrap(), vec![Token::Opcode(Opcode::Exit, 3)]);
}

#[test]
fn empty_source_has_no_tokens() {
    assert_eq!(tokenize("").unwrap(), vec![]);
    assert_eq!(tokenize(" \t\r\n ; \n").unwrap(), vec![]);
}

#[test]
fn comments_run_to_the_end_of_the_line() {
    assert_eq!(
        tokenize("# one\nexit // two , three\n// four\nexit").unwrap(),
        vec![Token::Opcode(Opcode::Exit, 2), Token::Opcode(Opcode::Exit, 4)]
    );
}

#[test]
fn registers_are_r0_to_r10() {
    assert_eq!(
        tokenize("r0 r9 r10 r11 r r1x").unwrap(),
        vec![
            Token::Register(0, 1),
            Token::Register(9, 1),
            Token::Register(10, 1),
            Token::Label(name("r11"), 1),
            Token::Label(name("r"), 1),
            Token::Label(name("r1x"), 1),
        ]
    );
}

#[test]
fn numbers_are_decimal_or_hexadecimal() {
    assert_eq!(
        tokenize("0 7 -3 +5 0x10 0XfF -0x1 9223372036854775807 -9223372036854775808").unwrap(),
        vec![
            Token::ImmediateValue(ImmediateValue::Int(0), 1),
            Token::ImmediateValue(ImmediateValue::Int(7), 1),
            Token::ImmediateValue(ImmediateValue::Int(-3), 1),
            Token::ImmediateValue(ImmediateValue::Int(5), 1),
            Token::ImmediateValue(ImmediateValue::Addr(16), 1),
            Token::ImmediateValue(ImmediateValue::Addr(255), 1),
            Token::ImmediateValue(ImmediateValue::Addr(-1), 1),
            Token::ImmediateValue(ImmediateValue::Int(i64::MAX), 1),
            Token::ImmediateValue(ImmediateValue::Int(i64::MIN), 1),
        ]
    );
}

#[test]
fn numbers_out_of_range_are_errors() {
    assert_eq!(
        tokenize("\n9223372036854775808"),
        Err(LexError::InvalidNumber { line: 2 })
    );
    assert_eq!(
        tokenize("-9223372036854775809"),
        Err(LexError::InvalidNumber { line: 1 })
    );
    assert_eq!(tokenize("0x"), Err(LexError::InvalidNumber { line: 1 }));
    assert_eq!(
        tokenize("0x8000000000000000"),
        Err(LexError::InvalidNumber { line: 1 })
    );
}

#[test]
fn string_literals_hold_their_bytes() {
    assert_eq!(
        tokenize("msg: \"hi there\" \"\"").unwrap(),
        vec![
            Token::Label(name("msg"), 1),
            Token::StringLiteral(name("hi there"), 1),
            Token::StringLiteral(vec![], 1),
        ]
    );
    assert_eq!(
        tokenize("\"h\u{e9}\"").unwrap(),
        vec![Token::StringLiteral(vec![b'h', 0xc3, 0xa9], 1)]
    );
}

#[test]
fn unterminated_string_is_an_error() {
    assert_eq!(
        tokenize("exit\n\"abc\nexit"),
        Err(LexError::UnterminatedString { line: 2 })
    );
    assert_eq!(tokenize("\""), Err(LexError::UnterminatedString { line: 1 }));
}

#[test]
fn memory_operands_are_expressions() {
    assert_eq!(
        tokenize("ldxb r2, [r1+0]").unwrap(),
        vec![
            Token::Opcode(Opcode::Ldxb, 1),
            Token::Register(2, 1),
            Token::Comma(1),
            Token::Expression(name("r1+0"), 1),
        ]
    );
    assert_eq!(
        tokenize("[ r3 + 8 ]").unwrap(),
        vec![Token::Expression(name(" r3 + 8 "), 1)]
    );
}

#[test]
fn stray_brackets_and_punctuation() {
    assert_eq!(
        tokenize("[r1\n] : , + - * /").unwrap(),
        vec![
            Token::LeftBracket(1),
            Token::Register(1, 1),
            Token::RightBracket(2),
            Token::Colon(2),
            Token::Comma(2),
            Token::BinaryOp(b'+', 2),
            Token::BinaryOp(b'-', 2),
            Token::BinaryOp(b'*', 2),
            Token::BinaryOp(b'/', 2),
        ]
    );
}

#[test]
fn unknown_characters_are_errors() {
    assert_eq!(
        tokenize("exit\n @"),
        Err(LexError::UnexpectedCharacter { byte: b'@', line: 2 })
    );
    assert_eq!(
        tokenize(". x"),
        Err(LexError::UnexpectedCharacter { byte: b'.', line: 1 })
    );
    assert_eq!(
        tokenize_bytes(&[0xff]),
        Err(LexError::UnexpectedCharacter { byte: 0xff, line: 1 })
    );
}

#[test]
fn mnemonics_name_the_family() {
    assert_eq!(
        tokenize("add64 jne lddw call ja neg32 foo").unwrap(),
        vec![
            Token::Opcode(Opcode::Add64, 1),
            Token::Opcode(Opcode::Jne, 1),
            Token::Opcode(Opcode::Lddw, 1),
            Token::Opcode(Opcode::Call, 1),
            Token::Opcode(Opcode::Ja, 1),
            Token::Opcode(Opcode::Neg32, 1),
            Token::Label(name("foo"), 1),
        ]
    );
}

#[test]
fn a_word_before_a_colon_is_a_label() {
    assert_eq!(
        tokenize("exit: r1: x").unwrap(),
        vec![
            Token::Label(name("exit"), 1),
            Token::Label(name("r1"), 1),
            Token::Label(name("x"), 1),
        ]
    );
}

#[test]
fn the_same_source_gives_the_same_tokens() {
    let source = ".globl e\ne: mov64 r1, 0x10\n ja e\n";
    assert_eq!(tokenize(source), tokenize(source));
    assert_eq!(tokenize(source), tokenize_bytes(source.as_bytes()));
}
