use helios::astnode::ASTNode;
use helios::dynsym::{RelocationType, SymbolKind};
use helios::error::ParseError;
use helios::lexer::tokenize;
use helios::opcode::Opcode;
use helios::parser::{headers_size, ParseResult, Parser};
use helios::token::{ImmediateValue, Token};

fn name(text: &str) -> Vec<u8> {
    text.as_bytes().to_vec()
}

fn parse(source: &str) -> Result<ParseResult, ParseError> {
    Parser::new(tokenize(source).unwrap()).parse()
}

fn instructions(result: &ParseResult) -> Vec<(Opcode, u64)> {
    let mut list = Vec::new();
    for node in &result.code_section.nodes {
        if let ASTNode::Instruction { opcode, offset, .. } = node {
            list.push((*opcode, *offset));
        }
    }
    list
}

#[test]
fn a_fresh_parser() {
    let parser = Parser::new(vec![Token::Comma(1)]);
    assert!(parser.prog_is_static());
    assert_eq!(parser.accum_offset(), 0);
    assert_eq!(parser.entry_offset(), 0);
    assert_eq!(parser.peek(), Some(&Token::Comma(1)));
}

#[test]
fn advance_steps_over_one_token() {
    let mut parser = Parser::new(vec![Token::Comma(1), Token::Colon(2)]);
    parser.advance();
    assert_eq!(parser.peek(), Some(&Token::Colon(2)));
    parser.advance();
    assert_eq!(parser.peek(), None);
    parser.advance();
    assert_eq!(parser.peek(), None);
}

#[test]
fn empty_program() {
    let result = parse("").unwrap();
    assert!(result.code_section.nodes.is_empty());
    assert!(result.data_section.nodes.is_empty());
    assert_eq!(result.code_section.size, 0);
    assert_eq!(result.data_section.size, 0);
    assert!(result.prog_is_static);
    assert_eq!(result.entry_offset, 0);
    assert!(result.relocation_data.entries.is_empty());
    assert!(result.dynamic_symbols.symbols.is_empty());
}

#[test]
fn operands_decide_the_opcode() {
    let result = parse("mov64 r0, 42\nmov64 r1, r0\nadd32 r1, 1\nsub64 r2 r3\nneg32 r1\nmov64 r1").unwrap();
    assert_eq!(
        instructions(&result),
        vec![
            (Opcode::Mov64Imm, 0),
            (Opcode::Mov64Reg, 8),
            (Opcode::Add32Imm, 16),
            (Opcode::Sub64Reg, 24),
            (Opcode::Neg32, 32),
            (Opcode::Mov64, 40),
        ]
    );
    assert_eq!(
        result.code_section.nodes[0],
        ASTNode::Instruction {
            opcode: Opcode::Mov64Imm,
            operands: vec![
                Token::Register(0, 1),
                Token::ImmediateValue(ImmediateValue::Int(42), 1)
            ],
            offset: 0,
            line_number: 1,
        }
    );
}

#[test]
fn offsets_follow_the_widths() {
    let result = parse("entry:\n lddw r1, 5\n mov64 r2, 1\nmid:\n lddw r3, 0x20\n exit\n").unwrap();
    let list = instructions(&result);
    assert_eq!(
        list,
        vec![
            (Opcode::Lddw, 0),
            (Opcode::Mov64Imm, 16),
            (Opcode::Lddw, 24),
            (Opcode::Exit, 40),
        ]
    );
    for pair in list.windows(2) {
        assert_eq!(pair[0].1 + pair[0].0.width(), pair[1].1);
    }
    assert_eq!(result.code_section.size, 48);
}

#[test]
fn jumps_get_the_distance_to_their_label() {
    let source = "start:\n mov64 r0, 0\nloop:\n add64 r0, 1\n jne r0, 3, loop\n ja end\n jeq r0, r1, start\n exit\nend:\n exit\n";
    let result = parse(source).unwrap();
    let nodes = &result.code_section.nodes;
    assert_eq!(
        nodes[4],
        ASTNode::Instruction {
            opcode: Opcode::JneImm,
            operands: vec![
                Token::Register(0, 5),
                Token::ImmediateValue(ImmediateValue::Int(3), 5),
                Token::ImmediateValue(ImmediateValue::Int(-2), 0),
            ],
            offset: 16,
            line_number: 5,
        }
    );
    assert_eq!(
        nodes[5],
        ASTNode::Instruction {
            opcode: Opcode::Ja,
            operands: vec![Token::ImmediateValue(ImmediateValue::Int(2), 0)],
            offset: 24,
            line_number: 6,
        }
    );
    assert_eq!(
        nodes[6],
        ASTNode::Instruction {
            opcode: Opcode::JeqReg,
            operands: vec![
                Token::Register(0, 7),
                Token::Register(1, 7),
                Token::ImmediateValue(ImmediateValue::Int(-5), 0),
            ],
            offset: 32,
            line_number: 7,
        }
    );
}

#[test]
fn a_jump_to_itself_has_distance_minus_one() {
    let result = parse("here: ja here").unwrap();
    assert_eq!(
        result.code_section.nodes[1],
        ASTNode::Instruction {
            opcode: Opcode::Ja,
            operands: vec![Token::ImmediateValue(ImmediateValue::Int(-1), 0)],
            offset: 0,
            line_number: 1,
        }
    );
}

#[test]
fn lddw_gets_the_address_in_the_image() {
    let fixed = parse("lddw r1, msg\nexit\n.rodata\nmsg: \"hi\"").unwrap();
    assert!(fixed.prog_is_static);
    assert_eq!(headers_size(true), 120);
    assert_eq!(
        fixed.code_section.nodes[0],
        ASTNode::Instruction {
            opcode: Opcode::Lddw,
            operands: vec![
                Token::Register(1, 1),
                Token::ImmediateValue(ImmediateValue::Addr(24 + 120), 0),
            ],
            offset: 0,
            line_number: 1,
        }
    );
    let dynamic = parse("lddw r1, msg\ncall sol_log_\nexit\n.rodata\nmsg: \"hi\"").unwrap();
    assert!(!dynamic.prog_is_static);
    assert_eq!(headers_size(false), 232);
    assert_eq!(
        dynamic.code_section.nodes[0],
        ASTNode::Instruction {
            opcode: Opcode::Lddw,
            operands: vec![
                Token::Register(1, 1),
                Token::ImmediateValue(ImmediateValue::Addr(32 + 232), 0),
            ],
            offset: 0,
            line_number: 1,
        }
    );
}

#[test]
fn calls_and_loads_leave_relocations() {
    let result = parse("mov64 r2, 2\ncall sol_log_\nlddw r1, msg\nexit\n.rodata\nmsg: \"hello\" \"!\"").unwrap();
    assert!(!result.prog_is_static);
    let relocations = &result.relocation_data.entries;
    assert_eq!(relocations.len(), 2);
    assert_eq!(
        (relocations[0].offset, relocations[0].rel_type, relocations[0].name.clone()),
        (8, RelocationType::RSbfSyscall, name("sol_log_"))
    );
    assert_eq!(
        (relocations[1].offset, relocations[1].rel_type, relocations[1].name.clone()),
        (16, RelocationType::RSbf64Relative, name("msg"))
    );
    let symbols = &result.dynamic_symbols.symbols;
    assert_eq!(symbols.len(), 1);
    assert_eq!(
        (symbols[0].name.clone(), symbols[0].kind, symbols[0].offset),
        (name("sol_log_"), SymbolKind::CallTarget, 8)
    );
    assert_eq!(result.data_section.size, 6);
    assert_eq!(
        result.data_section.nodes,
        vec![
            ASTNode::Directive { name: name("rodata"), args: vec![], line_number: 5 },
            ASTNode::RODataLabel {
                name: name("msg"),
                args: vec![
                    Token::StringLiteral(name("hello"), 6),
                    Token::StringLiteral(name("!"), 6)
                ],
                offset: 40,
                line_number: 6,
            },
        ]
    );
}

#[test]
fn static_exactly_without_relocations() {
    assert!(parse("mov64 r0, 1\nexit").unwrap().prog_is_static);
    assert!(parse("mov64 r0, 1\nexit").unwrap().relocation_data.is_empty());
    let dynamic = parse("call sol_log_\nexit").unwrap();
    assert!(!dynamic.prog_is_static);
    assert!(!dynamic.relocation_data.is_empty());
}

#[test]
fn static_and_relocations_can_differ() {
    let load = parse("here: lddw r1, here\nexit").unwrap();
    assert!(load.prog_is_static);
    assert_eq!(load.relocation_data.entries.len(), 1);
    let call = parse("call 16\nexit").unwrap();
    assert!(!call.prog_is_static);
    assert!(call.relocation_data.is_empty());
}

#[test]
fn the_entry_label_gives_the_entry_offset() {
    let mut parser = Parser::new(tokenize(".globl main\nmov64 r0, 1\nmain:\n exit\n").unwrap());
    let result = parser.parse().unwrap();
    assert_eq!(result.entry_offset, 8);
    assert_eq!(parser.entry_offset(), 8);
    assert_eq!(parser.accum_offset(), 16);
    let symbols = &result.dynamic_symbols.symbols;
    assert_eq!(symbols.len(), 1);
    assert_eq!(
        (symbols[0].name.clone(), symbols[0].kind, symbols[0].offset),
        (name("main"), SymbolKind::EntryPoint, 8)
    );
    assert_eq!(
        result.code_section.nodes[0],
        ASTNode::Directive {
            name: name("global"),
            args: vec![Token::Label(name("main"), 1)],
            line_number: 1,
        }
    );
}

#[test]
fn an_entry_label_that_is_not_defined_is_left_at_zero() {
    let result = parse(".globl nowhere\nexit").unwrap();
    assert_eq!(result.entry_offset, 0);
    assert!(result.dynamic_symbols.symbols.is_empty());
}

#[test]
fn directives_take_their_argument() {
    let result = parse(".extern a b c\n.section \"x\"\n.text\n.equ here\nexit").unwrap();
    assert_eq!(
        result.code_section.nodes[0],
        ASTNode::Directive {
            name: name("extern"),
            args: vec![
                Token::Label(name("a"), 1),
                Token::Label(name("b"), 1),
                Token::Label(name("c"), 1)
            ],
            line_number: 1,
        }
    );
    assert_eq!(
        result.code_section.nodes[1],
        ASTNode::Directive {
            name: name("section"),
            args: vec![Token::StringLiteral(name("x"), 2)],
            line_number: 2,
        }
    );
    assert_eq!(
        result.code_section.nodes[2],
        ASTNode::Directive { name: name("text"), args: vec![], line_number: 3 }
    );
    assert_eq!(
        result.code_section.nodes[3],
        ASTNode::Directive {
            name: name("equ"),
            args: vec![Token::Label(name("here"), 4)],
            line_number: 4,
        }
    );
}

#[test]
fn a_later_definition_of_a_label_counts() {
    let result = parse("a: exit\na: exit\nja a").unwrap();
    assert_eq!(
        result.code_section.nodes[4],
        ASTNode::Instruction {
            opcode: Opcode::Ja,
            operands: vec![Token::ImmediateValue(ImmediateValue::Int(-2), 0)],
            offset: 16,
            line_number: 3,
        }
    );
}

#[test]
fn unexpected_token() {
    assert_eq!(parse("exit\n, exit"), Err(ParseError::UnexpectedToken { line: 2 }));
    assert_eq!(parse("r1"), Err(ParseError::UnexpectedToken { line: 1 }));
    assert_eq!(parse("mov64 r1, 2, 3"), Err(ParseError::UnexpectedToken { line: 1 }));
}

#[test]
fn unknown_opcode() {
    let mut parser = Parser::new(vec![
        Token::Opcode(Opcode::Exit, 1),
        Token::Identifier(name("frob"), 2),
    ]);
    assert_eq!(
        parser.parse(),
        Err(ParseError::UnknownOpcode { name: name("frob"), line: 2 })
    );
    assert_eq!(parser.accum_offset(), 8);
}

#[test]
fn unresolved_label_in_parse() {
    assert_eq!(
        parse("exit\njeq r1, 2, missing"),
        Err(ParseError::UnresolvedLabel { name: name("missing"), line: 2 })
    );
    assert_eq!(
        parse("lddw r1, missing"),
        Err(ParseError::UnresolvedLabel { name: name("missing"), line: 1 })
    );
}

#[test]
fn a_call_keeps_its_label() {
    let result = parse("call sol_log_").unwrap();
    assert_eq!(
        result.code_section.nodes[0],
        ASTNode::Instruction {
            opcode: Opcode::Call,
            operands: vec![Token::Label(name("sol_log_"), 1)],
            offset: 0,
            line_number: 1,
        }
    );
}

#[test]
fn node_getters() {
    let result = parse("main:\n.text \"s\"\nmov64 r1, 2\n.rodata\nmsg: \"a\"").unwrap();
    let label = &result.code_section.nodes[0];
    let directive = &result.code_section.nodes[1];
    let instruction = &result.code_section.nodes[2];
    let data = &result.data_section.nodes[1];
    assert_eq!(label.get_label_name(), Some(&name("main")));
    assert_eq!(data.get_label_name(), Some(&name("msg")));
    assert_eq!(instruction.get_label_name(), None);
    assert_eq!(instruction.get_offset(), Some(0));
    assert_eq!(label.get_offset(), None);
    assert_eq!(data.get_offset(), None);
    assert_eq!(instruction.get_opcode(), Some(&Opcode::Mov64Imm));
    assert_eq!(directive.get_opcode(), None);
    assert_eq!(instruction.get_operands().map(|o| o.len()), Some(2));
    assert_eq!(label.get_operands(), None);
    assert_eq!(directive.get_directive_name(), Some(&name("text")));
    assert_eq!(label.get_directive_name(), None);
    assert_eq!(
        directive.get_directive_args(),
        Some(&vec![Token::StringLiteral(name("s"), 2)])
    );
    assert_eq!(instruction.get_directive_args(), None);
    assert_eq!(data.get_rodata_args(), Some(&vec![Token::StringLiteral(name("a"), 5)]));
    assert_eq!(label.get_rodata_args(), None);
    assert_eq!(label.get_line_number(), 1);
    assert_eq!(directive.get_line_number(), 2);
    assert_eq!(instruction.get_line_number(), 3);
    assert_eq!(data.get_line_number(), 5);
}

#[test]
fn a_parse_can_start_at_an_offset() {
    let mut parser = Parser::new(tokenize("a: mov64 r1, 1\nja a\nlddw r2, a").unwrap());
    parser.set_accum_offset(800);
    parser.set_entry_offset(16);
    parser.set_prog_is_static(false);
    let result = parser.parse().unwrap();
    assert_eq!(
        instructions(&result),
        vec![(Opcode::Mov64Imm, 800), (Opcode::Ja, 808), (Opcode::Lddw, 816)]
    );
    assert_eq!(result.code_section.size, 832);
    assert_eq!(result.entry_offset, 16);
    assert!(!result.prog_is_static);
    assert_eq!(
        result.code_section.nodes[3],
        ASTNode::Instruction {
            opcode: Opcode::Lddw,
            operands: vec![
                Token::Register(2, 3),
                Token::ImmediateValue(ImmediateValue::Addr(800 + 232), 0),
            ],
            offset: 816,
            line_number: 3,
        }
    );
}

#[test]
fn offsets_that_do_not_fit() {
    let mut parser = Parser::new(tokenize("exit\nexit\n").unwrap());
    parser.set_accum_offset(u64::MAX - 15);
    assert_eq!(parser.parse(), Err(ParseError::OffsetOverflow { line: 2 }));
    assert_eq!(parser.accum_offset(), u64::MAX - 7);
    let mut parser = Parser::new(tokenize("exit\nlddw r1, 2\n").unwrap());
    parser.set_accum_offset(u64::MAX - 16);
    assert_eq!(parser.parse(), Err(ParseError::OffsetOverflow { line: 2 }));
    let mut parser = Parser::new(tokenize("\n\na:\n lddw r1, a\n").unwrap());
    parser.set_accum_offset(i64::MAX as u64 - 119);
    assert_eq!(parser.parse(), Err(ParseError::OffsetOverflow { line: 4 }));
    let mut parser = Parser::new(tokenize("a: lddw r1, a").unwrap());
    parser.set_accum_offset(i64::MAX as u64 - 120);
    assert!(parser.parse().is_ok());
}
