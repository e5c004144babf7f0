use vstd::prelude::*;
use vstd::string::*;
use crate::astnode::{ASTNode, NodeView, nodes_view};
use crate::bytes::copy_bytes;
use crate::dynsym::{
    DynamicSymbolMap, DynamicSymbolView, RelDynMap, RelocationType, RelocationView, SymbolKind,
};
use crate::error::{ParseError, ParseErrorView};
use crate::labels::LabelTable;
use crate::opcode::{Opcode, OperandRule};
use crate::section::{CodeSection, DataSection, SectionView};
use crate::token::{ImmediateValue, Token, TokenView, clone_tokens, tokens_view};

verus! {

/// Bytes of the file header that precedes the program headers of an image.
pub const FILE_HEADER_SIZE: u64 = 64;

/// Bytes of one program header.
pub const PROGRAM_HEADER_SIZE: u64 = 56;

/// How many program headers an image has: one for a static program and
/// three for one that calls out.
pub open spec fn spec_program_headers(prog_is_static: bool) -> u64 {
    if prog_is_static {
        1
    } else {
        3
    }
}

/// How many program headers an image has.
#[verifier::when_used_as_spec(spec_program_headers)]
pub fn program_headers(prog_is_static: bool) -> (n: u64)
    ensures
        n == spec_program_headers(prog_is_static),
{
    if prog_is_static {
        1
    } else {
        3
    }
}

/// Bytes that precede the code in an image: the file header and the program headers.
pub open spec fn spec_headers_size(prog_is_static: bool) -> u64 {
    (FILE_HEADER_SIZE + PROGRAM_HEADER_SIZE * program_headers(prog_is_static)) as u64
}

/// Bytes that precede the code in an image.
#[verifier::when_used_as_spec(spec_headers_size)]
pub fn headers_size(prog_is_static: bool) -> (n: u64)
    ensures
        n == spec_headers_size(prog_is_static),
{
    FILE_HEADER_SIZE + PROGRAM_HEADER_SIZE * program_headers(prog_is_static)
}

/// The immediate of a jump at byte `from` to byte `to`: the distance in
/// instruction slots, counted from the slot after the jump. Where the distance
/// is no multiple of 8 it is rounded towards zero.
pub open spec fn jump_distance(to: u64, from: u64) -> int {
    if to >= from {
        (to - from) / 8 - 1
    } else {
        -((from - to) / 8) - 1
    }
}

/// What the parser knows at a point of its first pass.
pub struct ParserView {
    pub tokens: Seq<TokenView>,
    pub current: int,
    pub prog_is_static: bool,
    pub accum_offset: u64,
    pub entry_offset: u64,
    pub entry_label: Option<Seq<u8>>,
    pub labels: Map<Seq<u8>, u64>,
    pub dynamic_symbols: Seq<DynamicSymbolView>,
    pub rel_dyns: Seq<RelocationView>,
    pub rodata_phase: bool,
    pub rodata_size: u64,
}

impl ParserView {
    /// The parser before it has read any of `tokens`.
    pub open spec fn fresh(tokens: Seq<TokenView>) -> ParserView {
        ParserView {
            tokens,
            current: 0,
            prog_is_static: true,
            accum_offset: 0,
            entry_offset: 0,
            entry_label: None,
            labels: Map::empty(),
            dynamic_symbols: Seq::empty(),
            rel_dyns: Seq::empty(),
            rodata_phase: false,
            rodata_size: 0,
        }
    }
}

/// The first pass at one point: the parser, and the nodes made so far.
pub struct FirstPass {
    pub parser: ParserView,
    pub nodes: Seq<NodeView>,
    pub rodata_nodes: Seq<NodeView>,
}

/// What a parse gives.
pub struct ParseResultView {
    pub code_section: SectionView,
    pub data_section: SectionView,
    pub dynamic_symbols: Seq<DynamicSymbolView>,
    pub relocation_data: Seq<RelocationView>,
    pub prog_is_static: bool,
    pub entry_offset: u64,
}

/// The kinds of token that a statement takes as many of as follow.
#[derive(Clone, Copy, Debug, PartialEq, Eq, Structural)]
pub enum TokenClass {
    /// Labels, after `.extern`.
    Labels,
    /// String literals and directives, after a label in the read-only data.
    Data,
    /// Operands and the commas between them, after a mnemonic with no rule of its own.
    Operands,
}

/// Whether a token can be an operand.
pub open spec fn is_operand(t: TokenView) -> bool {
    t is Register || t is ImmediateValue || t is StringLiteral || t is Label || t is Expression
}

/// The test that tells operands from the commas between them.
pub open spec fn not_comma() -> spec_fn(TokenView) -> bool {
    |t: TokenView| !(t is Comma)
}

/// Whether a token is of a class.
pub open spec fn in_class(class: TokenClass, t: TokenView) -> bool {
    match class {
        TokenClass::Labels => t is Label,
        TokenClass::Data => t is StringLiteral || t is Directive,
        TokenClass::Operands => is_operand(t) || t is Comma,
    }
}

/// The first position from `pos` on that holds no token of `class`.
pub open spec fn run_end(tokens: Seq<TokenView>, pos: int, class: TokenClass) -> int
    decreases tokens.len() - pos,
{
    if 0 <= pos < tokens.len() && in_class(class, tokens[pos]) {
        run_end(tokens, pos + 1, class)
    } else {
        pos
    }
}

/// The bytes of the string literals among `args`.
pub open spec fn literal_bytes(args: Seq<TokenView>) -> nat
    decreases args.len(),
{
    if args.len() == 0 {
        0
    } else {
        literal_bytes(args.drop_last()) + (match args.last() {
            TokenView::StringLiteral(s, _) => s.len(),
            _ => 0,
        })
    }
}

/// Operands taken from a token sequence, and the position after them.
pub struct Gathered {
    pub operands: Seq<TokenView>,
    pub end: int,
}

/// Up to `limit` registers and immediates from `pos` on, with the commas
/// before each left out.
pub open spec fn gather_limited(tokens: Seq<TokenView>, pos: int, limit: nat) -> Gathered
    decreases tokens.len() - pos,
{
    if limit == 0 || pos < 0 || pos >= tokens.len() {
        Gathered { operands: Seq::empty(), end: pos }
    } else if tokens[pos] is Comma {
        gather_limited(tokens, pos + 1, limit)
    } else if tokens[pos] is Register || tokens[pos] is ImmediateValue {
        let rest = gather_limited(tokens, pos + 1, (limit - 1) as nat);
        Gathered { operands: seq![tokens[pos]] + rest.operands, end: rest.end }
    } else {
        Gathered { operands: Seq::empty(), end: pos }
    }
}

/// The operands of the mnemonic `opcode` whose first operand would stand at `pos`.
pub open spec fn gather(tokens: Seq<TokenView>, pos: int, opcode: Opcode) -> Gathered {
    match opcode.operand_rule() {
        OperandRule::Alu => gather_limited(tokens, pos, 2),
        OperandRule::ConditionalJump => {
            let two = gather_limited(tokens, pos, 2);
            let at = if 0 <= two.end < tokens.len() && tokens[two.end] is Comma {
                two.end + 1
            } else {
                two.end
            };
            if 0 <= at < tokens.len() && tokens[at] is Label {
                Gathered { operands: two.operands.push(tokens[at]), end: at + 1 }
            } else {
                Gathered { operands: two.operands, end: at }
            }
        },
        OperandRule::Jump => {
            if 0 <= pos < tokens.len() && (tokens[pos] is Label || tokens[pos] is ImmediateValue) {
                Gathered { operands: seq![tokens[pos]], end: pos + 1 }
            } else {
                Gathered { operands: Seq::empty(), end: pos }
            }
        },
        OperandRule::Nothing => Gathered { operands: Seq::empty(), end: pos },
        OperandRule::Greedy => {
            let end = run_end(tokens, pos, TokenClass::Operands);
            Gathered { operands: tokens.subrange(pos, end).filter(not_comma()), end }
        },
    }
}

/// The member of its family that a mnemonic stands for, given its operands:
/// register/immediate or register/register, each with or without a label
/// behind; the mnemonic itself where the operands have another shape.
pub open spec fn promoted(opcode: Opcode, operands: Seq<TokenView>) -> Opcode {
    let shaped = operands.len() == 2 || (operands.len() == 3 && operands[2] is Label);
    if shaped && operands[0] is Register && operands[1] is ImmediateValue {
        match opcode.imm_form() {
            Some(o) => o,
            None => opcode,
        }
    } else if shaped && operands[0] is Register && operands[1] is Register {
        match opcode.reg_form() {
            Some(o) => o,
            None => opcode,
        }
    } else {
        opcode
    }
}

/// Whether the last of `operands` is a label.
pub open spec fn names_label(operands: Seq<TokenView>) -> bool {
    operands.len() > 0 && operands.last() is Label
}

/// The label that the last of `operands` is.
pub open spec fn named_label(operands: Seq<TokenView>) -> Seq<u8> {
    operands.last()->Label_0
}

/// Why the statement at the current token cannot be parsed, if it cannot.
pub open spec fn statement_error(s: FirstPass) -> Option<ParseErrorView>
    recommends
        0 <= s.parser.current < s.parser.tokens.len(),
{
    let p = s.parser;
    match p.tokens[p.current] {
        TokenView::Directive(_, _) => None,
        TokenView::Rodata(_) => None,
        TokenView::Global(_) => None,
        TokenView::Extern(_) => None,
        TokenView::Label(_, line) => {
            let end = run_end(p.tokens, p.current + 1, TokenClass::Data);
            if p.rodata_phase && p.rodata_size + literal_bytes(
                p.tokens.subrange(p.current + 1, end),
            ) > u64::MAX {
                Some(ParseErrorView::OffsetOverflow { line })
            } else {
                None
            }
        },
        TokenView::Opcode(mnemonic, line) => {
            if p.accum_offset + mnemonic.width() > u64::MAX {
                Some(ParseErrorView::OffsetOverflow { line })
            } else {
                None
            }
        },
        TokenView::Identifier(name, line) => Some(ParseErrorView::UnknownOpcode { name, line }),
        t => Some(ParseErrorView::UnexpectedToken { line: t.line() }),
    }
}

/// The first pass after the statement at the current token.
pub open spec fn statement_next(s: FirstPass) -> FirstPass
    recommends
        0 <= s.parser.current < s.parser.tokens.len(),
        statement_error(s) is None,
{
    let p = s.parser;
    let tokens = p.tokens;
    let next = p.current + 1;
    match tokens[p.current] {
        TokenView::Directive(name, line) => {
            let takes = next < tokens.len() && (tokens[next] is StringLiteral
                || tokens[next] is Label);
            let args = if takes {
                seq![tokens[next]]
            } else {
                Seq::empty()
            };
            FirstPass {
                parser: ParserView {
                    current: if takes {
                        next + 1
                    } else {
                        next
                    },
                    ..p
                },
                nodes: s.nodes.push(NodeView::Directive { name, args, line_number: line }),
                ..s
            }
        },
        TokenView::Rodata(line) => FirstPass {
            parser: ParserView { current: next, rodata_phase: true, ..p },
            rodata_nodes: s.rodata_nodes.push(
                NodeView::Directive {
                    name: "rodata".spec_bytes(),
                    args: Seq::empty(),
                    line_number: line,
                },
            ),
            ..s
        },
        TokenView::Global(line) => {
            let takes = next < tokens.len() && tokens[next] is Label;
            FirstPass {
                parser: ParserView {
                    current: if takes {
                        next + 1
                    } else {
                        next
                    },
                    entry_label: if takes {
                        Some(tokens[next]->Label_0)
                    } else {
                        p.entry_label
                    },
                    ..p
                },
                nodes: s.nodes.push(
                    NodeView::Directive {
                        name: "global".spec_bytes(),
                        args: if takes {
                            seq![tokens[next]]
                        } else {
                            Seq::empty()
                        },
                        line_number: line,
                    },
                ),
                ..s
            }
        },
        TokenView::Extern(line) => {
            let end = run_end(tokens, next, TokenClass::Labels);
            FirstPass {
                parser: ParserView { current: end, ..p },
                nodes: s.nodes.push(
                    NodeView::Directive {
                        name: "extern".spec_bytes(),
                        args: tokens.subrange(next, end),
                        line_number: line,
                    },
                ),
                ..s
            }
        },
        TokenView::Label(name, line) => {
            if p.rodata_phase {
                let end = run_end(tokens, next, TokenClass::Data);
                let args = tokens.subrange(next, end);
                FirstPass {
                    parser: ParserView {
                        current: end,
                        rodata_size: (p.rodata_size + literal_bytes(args)) as u64,
                        labels: p.labels.insert(name, p.accum_offset),
                        ..p
                    },
                    rodata_nodes: s.rodata_nodes.push(
                        NodeView::RODataLabel {
                            name,
                            args,
                            offset: p.accum_offset,
                            line_number: line,
                        },
                    ),
                    ..s
                }
            } else {
                FirstPass {
                    parser: ParserView {
                        current: next,
                        labels: p.labels.insert(name, p.accum_offset),
                        ..p
                    },
                    nodes: s.nodes.push(NodeView::Label { name, line_number: line }),
                    ..s
                }
            }
        },
        TokenView::Opcode(mnemonic, line) => {
            let g = gather(tokens, next, mnemonic);
            let opcode = match mnemonic.operand_rule() {
                OperandRule::Alu | OperandRule::ConditionalJump => promoted(mnemonic, g.operands),
                _ => mnemonic,
            };
            let named = names_label(g.operands);
            let name = named_label(g.operands);
            let at = p.accum_offset;
            FirstPass {
                parser: ParserView {
                    current: g.end,
                    prog_is_static: p.prog_is_static && opcode != Opcode::Call,
                    accum_offset: (at + opcode.width()) as u64,
                    dynamic_symbols: if opcode == Opcode::Call && named {
                        p.dynamic_symbols.push(
                            DynamicSymbolView { name, kind: SymbolKind::CallTarget, offset: at },
                        )
                    } else {
                        p.dynamic_symbols
                    },
                    rel_dyns: if opcode == Opcode::Call && named {
                        p.rel_dyns.push(
                            RelocationView {
                                offset: at,
                                rel_type: RelocationType::RSbfSyscall,
                                name,
                            },
                        )
                    } else if opcode == Opcode::Lddw && named {
                        p.rel_dyns.push(
                            RelocationView {
                                offset: at,
                                rel_type: RelocationType::RSbf64Relative,
                                name,
                            },
                        )
                    } else {
                        p.rel_dyns
                    },
                    ..p
                },
                nodes: s.nodes.push(
                    NodeView::Instruction {
                        opcode,
                        operands: g.operands,
                        offset: at,
                        line_number: line,
                    },
                ),
                ..s
            }
        },
        _ => s,
    }
}

/// A run ends at or behind its start, within the tokens.
pub proof fn lemma_run_end_bounds(tokens: Seq<TokenView>, pos: int, class: TokenClass)
    requires
        0 <= pos <= tokens.len(),
    ensures
        pos <= run_end(tokens, pos, class) <= tokens.len(),
    decreases tokens.len() - pos,
{
    if pos < tokens.len() && in_class(class, tokens[pos]) {
        lemma_run_end_bounds(tokens, pos + 1, class);
    }
}

/// Gathering ends at or behind its start, within the tokens, and keeps to its limit.
pub proof fn lemma_gather_limited_bounds(tokens: Seq<TokenView>, pos: int, limit: nat)
    requires
        0 <= pos <= tokens.len(),
    ensures
        pos <= gather_limited(tokens, pos, limit).end <= tokens.len(),
        gather_limited(tokens, pos, limit).operands.len() <= limit,
    decreases tokens.len() - pos,
{
    if limit == 0 || pos >= tokens.len() {
    } else if tokens[pos] is Comma {
        lemma_gather_limited_bounds(tokens, pos + 1, limit);
    } else if tokens[pos] is Register || tokens[pos] is ImmediateValue {
        lemma_gather_limited_bounds(tokens, pos + 1, (limit - 1) as nat);
    }
}

/// Gathering ends at or behind its start, within the tokens.
pub proof fn lemma_gather_bounds(tokens: Seq<TokenView>, pos: int, opcode: Opcode)
    requires
        0 <= pos <= tokens.len(),
    ensures
        pos <= gather(tokens, pos, opcode).end <= tokens.len(),
{
    lemma_gather_limited_bounds(tokens, pos, 2);
    lemma_run_end_bounds(tokens, pos, TokenClass::Operands);
}

/// A statement that parses takes at least its first token, and leaves the tokens as they are.
pub proof fn lemma_statement_advances(s: FirstPass)
    requires
        0 <= s.parser.current < s.parser.tokens.len(),
        statement_error(s) is None,
    ensures
        s.parser.current < statement_next(s).parser.current <= s.parser.tokens.len(),
        statement_next(s).parser.tokens == s.parser.tokens,
{
    let p = s.parser;
    let next = p.current + 1;
    lemma_run_end_bounds(p.tokens, next, TokenClass::Labels);
    lemma_run_end_bounds(p.tokens, next, TokenClass::Data);
    match p.tokens[p.current] {
        TokenView::Opcode(mnemonic, _) => {
            lemma_gather_bounds(p.tokens, next, mnemonic);
        },
        _ => {},
    }
}

/// The first pass run from `s` until the tokens are used up or a statement fails.
pub open spec fn first_pass(s: FirstPass) -> FirstPass
    decreases s.parser.tokens.len() - s.parser.current,
{
    if 0 <= s.parser.current < s.parser.tokens.len() && statement_error(s) is None {
        proof {
            lemma_statement_advances(s);
        }
        first_pass(statement_next(s))
    } else {
        s
    }
}

/// What the second pass makes of one node: a label at the end of a jump
/// becomes the distance to it, one at the end of an `lddw` its address in the
/// image; a label that is defined nowhere is an error.
pub open spec fn resolve(node: NodeView, labels: Map<Seq<u8>, u64>, prog_is_static: bool) -> Result<
    NodeView,
    ParseErrorView,
> {
    match node {
        NodeView::Instruction { opcode, operands, offset, line_number } => {
            if names_label(operands) && (opcode.is_jump() || opcode == Opcode::Lddw) {
                let name = named_label(operands);
                if !labels.contains_key(name) {
                    Err(ParseErrorView::UnresolvedLabel { name, line: line_number })
                } else if opcode.is_jump() {
                    Ok(
                        NodeView::Instruction {
                            opcode,
                            operands: operands.drop_last().push(
                                TokenView::ImmediateValue(
                                    ImmediateValue::Int(jump_distance(labels[name], offset) as i64),
                                    0,
                                ),
                            ),
                            offset,
                            line_number,
                        },
                    )
                } else if labels[name] + headers_size(prog_is_static) > i64::MAX {
                    Err(ParseErrorView::OffsetOverflow { line: line_number })
                } else {
                    Ok(
                        NodeView::Instruction {
                            opcode,
                            operands: operands.drop_last().push(
                                TokenView::ImmediateValue(
                                    ImmediateValue::Addr(
                                        (labels[name] + headers_size(prog_is_static)) as i64,
                                    ),
                                    0,
                                ),
                            ),
                            offset,
                            line_number,
                        },
                    )
                }
            } else {
                Ok(node)
            }
        },
        _ => Ok(node),
    }
}

/// The second pass over `nodes`: each node resolved, or the first error in their order.
pub open spec fn resolve_all(
    nodes: Seq<NodeView>,
    labels: Map<Seq<u8>, u64>,
    prog_is_static: bool,
) -> Result<Seq<NodeView>, ParseErrorView>
    decreases nodes.len(),
{
    if nodes.len() == 0 {
        Ok(Seq::empty())
    } else {
        match resolve_all(nodes.drop_last(), labels, prog_is_static) {
            Err(e) => Err(e),
            Ok(done) => match resolve(nodes.last(), labels, prog_is_static) {
                Err(e) => Err(e),
                Ok(n) => Ok(done.push(n)),
            },
        }
    }
}

/// The parser after the entry label has been looked up.
pub open spec fn with_entry(p: ParserView) -> ParserView {
    match p.entry_label {
        Some(name) if p.labels.contains_key(name) => ParserView {
            entry_offset: p.labels[name],
            dynamic_symbols: p.dynamic_symbols.push(
                DynamicSymbolView { name, kind: SymbolKind::EntryPoint, offset: p.labels[name] },
            ),
            ..p
        },
        _ => p,
    }
}

/// A whole parse from the state `p`: the state it ends in, and what it gives.
pub struct ParseOutcome {
    pub parser: ParserView,
    pub result: Result<ParseResultView, ParseErrorView>,
}

/// A whole parse from the state `p`: the first pass from the current token
/// on, the second pass over its nodes, and the entry label looked up. An
/// error of either pass leaves the parser as the first pass left it.
pub open spec fn parse_outcome(p: ParserView) -> ParseOutcome {
    let f = first_pass(FirstPass { parser: p, nodes: Seq::empty(), rodata_nodes: Seq::empty() });
    if 0 <= f.parser.current < f.parser.tokens.len() {
        ParseOutcome { parser: f.parser, result: Err(statement_error(f)->0) }
    } else {
        match resolve_all(f.nodes, f.parser.labels, f.parser.prog_is_static) {
            Err(e) => ParseOutcome { parser: f.parser, result: Err(e) },
            Ok(code) => {
                let end = with_entry(f.parser);
                ParseOutcome {
                    parser: end,
                    result: Ok(
                        ParseResultView {
                            code_section: SectionView { nodes: code, size: end.accum_offset },
                            data_section: SectionView {
                                nodes: f.rodata_nodes,
                                size: end.rodata_size,
                            },
                            dynamic_symbols: end.dynamic_symbols,
                            relocation_data: end.rel_dyns,
                            prog_is_static: end.prog_is_static,
                            entry_offset: end.entry_offset,
                        },
                    ),
                }
            },
        }
    }
}


/// What `parse` gives: the two sections, the tables for the loader, and where
/// the program starts.
#[derive(Debug, PartialEq, Eq)]
pub struct ParseResult {
    pub code_section: CodeSection,
    pub data_section: DataSection,
    pub dynamic_symbols: DynamicSymbolMap,
    pub relocation_data: RelDynMap,
    pub prog_is_static: bool,
    pub entry_offset: u64,
}

impl View for ParseResult {
    type V = ParseResultView;

    open spec fn view(&self) -> ParseResultView {
        ParseResultView {
            code_section: self.code_section@,
            data_section: self.data_section@,
            dynamic_symbols: self.dynamic_symbols@,
            relocation_data: self.relocation_data@,
            prog_is_static: self.prog_is_static,
            entry_offset: self.entry_offset,
        }
    }
}

/// A two-pass parser over a token sequence.
pub struct Parser {
    tokens: Vec<Token>,
    current: usize,
    m_prog_is_static: bool,
    m_accum_offset: u64,
    m_entry_offset: u64,
    m_entry_label: Option<Vec<u8>>,
    m_label_offsets: LabelTable,
    m_dynamic_symbols: DynamicSymbolMap,
    m_rel_dyns: RelDynMap,
    m_rodata_phase: bool,
    m_rodata_size: u64,
}

impl View for Parser {
    type V = ParserView;

    closed spec fn view(&self) -> ParserView {
        ParserView {
            tokens: tokens_view(self.tokens@),
            current: self.current as int,
            prog_is_static: self.m_prog_is_static,
            accum_offset: self.m_accum_offset,
            entry_offset: self.m_entry_offset,
            entry_label: match self.m_entry_label {
                Some(name) => Some(name@),
                None => None,
            },
            labels: self.m_label_offsets@,
            dynamic_symbols: self.m_dynamic_symbols@,
            rel_dyns: self.m_rel_dyns@,
            rodata_phase: self.m_rodata_phase,
            rodata_size: self.m_rodata_size,
        }
    }
}

fn push_node(nodes: &mut Vec<ASTNode>, node: ASTNode)
    ensures
        nodes_view(final(nodes)@) == nodes_view(old(nodes)@).push(node@),
{
    nodes.push(node);
    assert(nodes_view(nodes@) =~= nodes_view(old(nodes)@).push(node@));
}

fn push_token(tokens: &mut Vec<Token>, token: Token)
    ensures
        tokens_view(final(tokens)@) == tokens_view(old(tokens)@).push(token@),
        final(tokens)@.len() == old(tokens)@.len() + 1,
{
    tokens.push(token);
    assert(tokens_view(tokens@) =~= tokens_view(old(tokens)@).push(token@));
}

fn no_tokens() -> (tokens: Vec<Token>)
    ensures
        tokens_view(tokens@) == Seq::<TokenView>::empty(),
        tokens@.len() == 0,
{
    let tokens: Vec<Token> = Vec::new();
    assert(tokens_view(tokens@) =~= Seq::<TokenView>::empty());
    tokens
}

fn is_in_class(class: TokenClass, t: &Token) -> (b: bool)
    ensures
        b == in_class(class, t@),
{
    match class {
        TokenClass::Labels => match t {
            Token::Label(_, _) => true,
            _ => false,
        },
        TokenClass::Data => match t {
            Token::StringLiteral(_, _) | Token::Directive(_, _) => true,
            _ => false,
        },
        TokenClass::Operands => match t {
            Token::Register(_, _)
            | Token::ImmediateValue(_, _)
            | Token::StringLiteral(_, _)
            | Token::Label(_, _)
            | Token::Expression(_, _)
            | Token::Comma(_) => true,
            _ => false,
        },
    }
}

fn is_comma(t: &Token) -> (b: bool)
    ensures
        b == (t@ is Comma),
{
    match t {
        Token::Comma(_) => true,
        _ => false,
    }
}

fn is_register(t: &Token) -> (b: bool)
    ensures
        b == (t@ is Register),
{
    match t {
        Token::Register(_, _) => true,
        _ => false,
    }
}

fn is_immediate(t: &Token) -> (b: bool)
    ensures
        b == (t@ is ImmediateValue),
{
    match t {
        Token::ImmediateValue(_, _) => true,
        _ => false,
    }
}

fn is_label(t: &Token) -> (b: bool)
    ensures
        b == (t@ is Label),
{
    match t {
        Token::Label(_, _) => true,
        _ => false,
    }
}

/// The tokens of `class` from `start` on, and the position after them.
fn take_run(tokens: &Vec<Token>, start: usize, class: TokenClass) -> (r: (Vec<Token>, usize))
    requires
        start <= tokens.len(),
    ensures
        r.1 == run_end(tokens_view(tokens@), start as int, class),
        start <= r.1 <= tokens.len(),
        tokens_view(r.0@) == tokens_view(tokens@).subrange(start as int, r.1 as int),
{
    let ghost all = tokens_view(tokens@);
    let mut taken = no_tokens();
    let mut pos: usize = start;
    while pos < tokens.len() && is_in_class(class, &tokens[pos])
        invariant
            start <= pos <= tokens.len(),
            all == tokens_view(tokens@),
            run_end(all, pos as int, class) == run_end(all, start as int, class),
            tokens_view(taken@) == all.subrange(start as int, pos as int),
        decreases tokens.len() - pos,
    {
        push_token(&mut taken, tokens[pos].clone());
        assert(all.subrange(start as int, pos + 1) =~= all.subrange(start as int, pos as int).push(
            all[pos as int],
        ));
        pos += 1;
    }
    (taken, pos)
}

/// The operands from `start` on, with the commas between them left out, and
/// the position after them.
fn take_operands(tokens: &Vec<Token>, start: usize) -> (r: (Vec<Token>, usize))
    requires
        start <= tokens.len(),
    ensures
        r.1 == run_end(tokens_view(tokens@), start as int, TokenClass::Operands),
        start <= r.1 <= tokens.len(),
        tokens_view(r.0@) == tokens_view(tokens@).subrange(start as int, r.1 as int).filter(
            not_comma(),
        ),
{
    let ghost all = tokens_view(tokens@);
    let mut taken = no_tokens();
    let mut pos: usize = start;
    proof {
        reveal(Seq::filter);
        assert(all.subrange(start as int, start as int) =~= Seq::<TokenView>::empty());
    }
    while pos < tokens.len() && is_in_class(TokenClass::Operands, &tokens[pos])
        invariant
            start <= pos <= tokens.len(),
            all == tokens_view(tokens@),
            run_end(all, pos as int, TokenClass::Operands) == run_end(
                all,
                start as int,
                TokenClass::Operands,
            ),
            tokens_view(taken@) == all.subrange(start as int, pos as int).filter(not_comma()),
        decreases tokens.len() - pos,
    {
        proof {
            reveal(Seq::filter);
            assert(all.subrange(start as int, pos + 1).drop_last() =~= all.subrange(
                start as int,
                pos as int,
            ));
        }
        if !is_comma(&tokens[pos]) {
            push_token(&mut taken, tokens[pos].clone());
        }
        pos += 1;
    }
    (taken, pos)
}

/// Up to `limit` registers and immediates from `start` on, and the position after them.
fn take_limited(tokens: &Vec<Token>, start: usize, limit: usize) -> (r: (Vec<Token>, usize))
    requires
        start <= tokens.len(),
    ensures
        tokens_view(r.0@) == gather_limited(tokens_view(tokens@), start as int, limit as nat).operands,
        r.1 == gather_limited(tokens_view(tokens@), start as int, limit as nat).end,
        start <= r.1 <= tokens.len(),
        r.0.len() <= limit,
{
    let ghost all = tokens_view(tokens@);
    let ghost goal = gather_limited(all, start as int, limit as nat);
    let mut taken = no_tokens();
    let mut pos: usize = start;
    let mut done: bool = false;
    while !done
        invariant
            start <= pos <= tokens.len(),
            taken.len() <= limit,
            all == tokens_view(tokens@),
            goal == gather_limited(all, start as int, limit as nat),
            goal.end == gather_limited(all, pos as int, (limit - taken.len()) as nat).end,
            goal.operands == tokens_view(taken@) + gather_limited(
                all,
                pos as int,
                (limit - taken.len()) as nat,
            ).operands,
            done ==> gather_limited(all, pos as int, (limit - taken.len()) as nat) == (Gathered {
                operands: Seq::empty(),
                end: pos as int,
            }),
        decreases tokens.len() - pos + (if done {
            0int
        } else {
            1int
        }),
    {
        if taken.len() >= limit || pos >= tokens.len() {
            done = true;
        } else if is_comma(&tokens[pos]) {
            pos += 1;
        } else if is_register(&tokens[pos]) || is_immediate(&tokens[pos]) {
            let ghost before = tokens_view(taken@);
            let ghost rest = gather_limited(all, pos + 1, (limit - taken.len() - 1) as nat);
            push_token(&mut taken, tokens[pos].clone());
            assert(before + (seq![all[pos as int]] + rest.operands) =~= before.push(all[pos as int])
                + rest.operands);
            pos += 1;
        } else {
            done = true;
        }
    }
    assert(tokens_view(taken@) + Seq::<TokenView>::empty() =~= tokens_view(taken@));
    (taken, pos)
}

/// The operands of the mnemonic `opcode` from `start` on, and the position after them.
fn take_for(tokens: &Vec<Token>, start: usize, opcode: Opcode) -> (r: (Vec<Token>, usize))
    requires
        start <= tokens.len(),
    ensures
        tokens_view(r.0@) == gather(tokens_view(tokens@), start as int, opcode).operands,
        r.1 == gather(tokens_view(tokens@), start as int, opcode).end,
        start <= r.1 <= tokens.len(),
{
    match opcode.operand_rule() {
        OperandRule::Alu => take_limited(tokens, start, 2),
        OperandRule::ConditionalJump => {
            let (mut taken, end) = take_limited(tokens, start, 2);
            let mut at: usize = end;
            if at < tokens.len() && is_comma(&tokens[at]) {
                at += 1;
            }
            if at < tokens.len() && is_label(&tokens[at]) {
                push_token(&mut taken, tokens[at].clone());
                at += 1;
            }
            (taken, at)
        },
        OperandRule::Jump => {
            let mut taken = no_tokens();
            let mut at: usize = start;
            if at < tokens.len() && (is_label(&tokens[at]) || is_immediate(&tokens[at])) {
                push_token(&mut taken, tokens[at].clone());
                assert(tokens_view(taken@) =~= seq![tokens_view(tokens@)[at as int]]);
                at += 1;
            }
            (taken, at)
        },
        OperandRule::Nothing => (no_tokens(), start),
        OperandRule::Greedy => take_operands(tokens, start),
    }
}

/// The opcode that `opcode` stands for with these operands.
fn promote(opcode: Opcode, operands: &Vec<Token>) -> (r: Opcode)
    ensures
        r == promoted(opcode, tokens_view(operands@)),
{
    let n = operands.len();
    let shaped = n == 2 || (n == 3 && is_label(&operands[2]));
    if shaped && is_register(&operands[0]) && is_immediate(&operands[1]) {
        opcode.promote_imm()
    } else if shaped && is_register(&operands[0]) && is_register(&operands[1]) {
        opcode.promote_reg()
    } else {
        opcode
    }
}

/// The label that the last of `operands` is, if it is one.
fn last_label(operands: &Vec<Token>) -> (r: Option<Vec<u8>>)
    ensures
        match r {
            Some(name) => names_label(tokens_view(operands@)) && name@ == named_label(
                tokens_view(operands@),
            ),
            None => !names_label(tokens_view(operands@)),
        },
{
    if operands.len() == 0 {
        return None;
    }
    match &operands[operands.len() - 1] {
        Token::Label(name, _) => Some(copy_bytes(name.as_slice())),
        _ => None,
    }
}


proof fn lemma_literal_bytes_prefix(args: Seq<TokenView>, i: int)
    requires
        0 <= i <= args.len(),
    ensures
        literal_bytes(args.take(i)) <= literal_bytes(args),
    decreases args.len(),
{
    if i == args.len() {
        assert(args.take(i) =~= args);
    } else {
        assert(args.drop_last().take(i) =~= args.take(i));
        lemma_literal_bytes_prefix(args.drop_last(), i);
    }
}

/// The bytes of the string literals among `args`, unless they exceed 64 bits.
fn literal_size(args: &Vec<Token>) -> (r: Option<u64>)
    ensures
        match r {
            Some(n) => n == literal_bytes(tokens_view(args@)),
            None => literal_bytes(tokens_view(args@)) > u64::MAX,
        },
{
    let ghost all = tokens_view(args@);
    let mut sum: u64 = 0;
    let mut i: usize = 0;
    while i < args.len()
        invariant
            i <= args.len(),
            all == tokens_view(args@),
            sum == literal_bytes(all.take(i as int)),
        decreases args.len() - i,
    {
        proof {
            assert(all.take(i + 1).drop_last() =~= all.take(i as int));
            lemma_literal_bytes_prefix(all, i + 1);
        }
        match &args[i] {
            Token::StringLiteral(s, _) => {
                let n = s.len() as u64;
                if sum > u64::MAX - n {
                    return None;
                }
                sum = sum + n;
            },
            _ => {},
        }
        i += 1;
    }
    assert(all.take(args.len() as int) =~= all);
    Some(sum)
}

/// The immediate of a jump at byte `from` to byte `to`.
fn distance(to: u64, from: u64) -> (d: i64)
    ensures
        d == jump_distance(to, from),
{
    if to >= from {
        ((to - from) / 8) as i64 - 1
    } else {
        -(((from - to) / 8) as i64) - 1
    }
}

/// What the second pass makes of one node.
fn resolve_node(node: &ASTNode, labels: &LabelTable, prog_is_static: bool) -> (r: Result<
    ASTNode,
    ParseError,
>)
    ensures
        match r {
            Ok(n) => resolve(node@, labels@, prog_is_static) == Ok::<NodeView, ParseErrorView>(n@),
            Err(e) => resolve(node@, labels@, prog_is_static) == Err::<NodeView, ParseErrorView>(
                e@,
            ),
        },
{
    match node {
        ASTNode::Instruction { opcode, operands, offset, line_number } => {
            let jump = opcode.is_jump();
            if !jump && *opcode != Opcode::Lddw {
                return Ok(node.clone());
            }
            match last_label(operands) {
                None => Ok(node.clone()),
                Some(name) => match labels.get(name.as_slice()) {
                    None => Err(ParseError::UnresolvedLabel { name, line: *line_number }),
                    Some(target) => {
                        let value = if jump {
                            ImmediateValue::Int(distance(target, *offset))
                        } else {
                            let headers = headers_size(prog_is_static);
                            if target > 0x7fff_ffff_ffff_ffffu64 - headers {
                                return Err(ParseError::OffsetOverflow { line: *line_number });
                            }
                            ImmediateValue::Addr((target + headers) as i64)
                        };
                        let mut resolved = clone_tokens(operands);
                        resolved.pop();
                        assert(tokens_view(resolved@) =~= tokens_view(operands@).drop_last());
                        push_token(&mut resolved, Token::ImmediateValue(value, 0));
                        Ok(
                            ASTNode::Instruction {
                                opcode: *opcode,
                                operands: resolved,
                                offset: *offset,
                                line_number: *line_number,
                            },
                        )
                    },
                },
            }
        },
        _ => Ok(node.clone()),
    }
}

/// Promotion never makes or unmakes an `lddw`, so it keeps the width.
proof fn lemma_promoted_width(opcode: Opcode, operands: Seq<TokenView>)
    ensures
        promoted(opcode, operands).width() == opcode.width(),
{
}

impl Parser {
    /// A parser that has read none of `tokens`.
    pub fn new(tokens: Vec<Token>) -> (p: Parser)
        ensures
            p@ == ParserView::fresh(tokens_view(tokens@)),
    {
        Parser {
            tokens,
            current: 0,
            m_prog_is_static: true,
            m_accum_offset: 0,
            m_entry_label: None,
            m_entry_offset: 0,
            m_label_offsets: LabelTable::new(),
            m_rodata_phase: false,
            m_rodata_size: 0,
            m_dynamic_symbols: DynamicSymbolMap::new(),
            m_rel_dyns: RelDynMap::new(),
        }
    }

    /// False once a `call` has been parsed.
    pub fn prog_is_static(&self) -> (b: bool)
        ensures
            b == self@.prog_is_static,
    {
        self.m_prog_is_static
    }

    /// The bytes of the instructions parsed so far.
    pub fn accum_offset(&self) -> (n: u64)
        ensures
            n == self@.accum_offset,
    {
        self.m_accum_offset
    }

    /// The byte offset of the entry label, 0 until a parse has found it.
    pub fn entry_offset(&self) -> (n: u64)
        ensures
            n == self@.entry_offset,
    {
        self.m_entry_offset
    }

    /// Says whether the program is static so far.
    pub fn set_prog_is_static(&mut self, value: bool)
        ensures
            final(self)@ == (ParserView { prog_is_static: value, ..old(self)@ }),
    {
        self.m_prog_is_static = value;
    }

    /// Sets the byte offset that the next instruction gets.
    pub fn set_accum_offset(&mut self, offset: u64)
        ensures
            final(self)@ == (ParserView { accum_offset: offset, ..old(self)@ }),
    {
        self.m_accum_offset = offset;
    }

    /// Sets the entry offset, which a parse keeps unless it finds the entry label.
    pub fn set_entry_offset(&mut self, offset: u64)
        ensures
            final(self)@ == (ParserView { entry_offset: offset, ..old(self)@ }),
    {
        self.m_entry_offset = offset;
    }

    /// The token that the next statement starts with.
    pub fn peek(&self) -> (t: Option<&Token>)
        ensures
            match t {
                Some(t) => 0 <= self@.current < self@.tokens.len() && t@
                    == self@.tokens[self@.current],
                None => self@.current >= self@.tokens.len(),
            },
    {
        if self.current < self.tokens.len() {
            Some(&self.tokens[self.current])
        } else {
            None
        }
    }

    /// Steps over one token, if one is left.
    pub fn advance(&mut self)
        ensures
            final(self)@ == (ParserView {
                current: if old(self)@.current < old(self)@.tokens.len() {
                    old(self)@.current + 1
                } else {
                    old(self)@.current
                },
                ..old(self)@
            }),
    {
        if self.current < self.tokens.len() {
            self.current += 1;
        }
    }

    /// Parses the statement that starts at the current token.
    #[verifier::rlimit(50)]
    fn statement(&mut self, nodes: &mut Vec<ASTNode>, rodata_nodes: &mut Vec<ASTNode>) -> (r:
        Result<(), ParseError>)
        requires
            old(self)@.current < old(self)@.tokens.len(),
        ensures
            ({
                let before = FirstPass {
                    parser: old(self)@,
                    nodes: nodes_view(old(nodes)@),
                    rodata_nodes: nodes_view(old(rodata_nodes)@),
                };
                let after = FirstPass {
                    parser: final(self)@,
                    nodes: nodes_view(final(nodes)@),
                    rodata_nodes: nodes_view(final(rodata_nodes)@),
                };
                match r {
                    Ok(()) => statement_error(before) is None && after == statement_next(before),
                    Err(e) => statement_error(before) == Some(e@) && after == before,
                }
            }),
    {
        assert(self@.tokens.len() == self.tokens.len());
        let next: usize = self.current + 1;
        let ghost all = tokens_view(self.tokens@);
        match self.tokens[self.current].clone() {
            Token::Directive(name, line) => {
                let mut args = no_tokens();
                let mut end: usize = next;
                if next < self.tokens.len() {
                    let takes = match &self.tokens[next] {
                        Token::StringLiteral(_, _) | Token::Label(_, _) => true,
                        _ => false,
                    };
                    if takes {
                        push_token(&mut args, self.tokens[next].clone());
                        assert(tokens_view(args@) =~= seq![all[next as int]]);
                        end = next + 1;
                    }
                }
                self.current = end;
                push_node(nodes, ASTNode::Directive { name, args, line_number: line });
                Ok(())
            },
            Token::Rodata(line) => {
                self.m_rodata_phase = true;
                self.current = next;
                push_node(
                    rodata_nodes,
                    ASTNode::Directive {
                        name: copy_bytes("rodata".as_bytes()),
                        args: no_tokens(),
                        line_number: line,
                    },
                );
                Ok(())
            },
            Token::Global(line) => {
                let mut args = no_tokens();
                let mut end: usize = next;
                if next < self.tokens.len() {
                    match &self.tokens[next] {
                        Token::Label(name, _) => {
                            self.m_entry_label = Some(copy_bytes(name.as_slice()));
                            push_token(&mut args, self.tokens[next].clone());
                            assert(tokens_view(args@) =~= seq![all[next as int]]);
                            end = next + 1;
                        },
                        _ => {},
                    }
                }
                self.current = end;
                push_node(
                    nodes,
                    ASTNode::Directive {
                        name: copy_bytes("global".as_bytes()),
                        args,
                        line_number: line,
                    },
                );
                Ok(())
            },
            Token::Extern(line) => {
                let (args, end) = take_run(&self.tokens, next, TokenClass::Labels);
                self.current = end;
                push_node(
                    nodes,
                    ASTNode::Directive {
                        name: copy_bytes("extern".as_bytes()),
                        args,
                        line_number: line,
                    },
                );
                Ok(())
            },
            Token::Label(name, line) => {
                if self.m_rodata_phase {
                    let (args, end) = take_run(&self.tokens, next, TokenClass::Data);
                    let size = match literal_size(&args) {
                        Some(n) => n,
                        None => {
                            return Err(ParseError::OffsetOverflow { line });
                        },
                    };
                    if self.m_rodata_size > u64::MAX - size {
                        return Err(ParseError::OffsetOverflow { line });
                    }
                    self.m_rodata_size = self.m_rodata_size + size;
                    self.current = end;
                    self.m_label_offsets.insert(copy_bytes(name.as_slice()), self.m_accum_offset);
                    push_node(
                        rodata_nodes,
                        ASTNode::RODataLabel {
                            name,
                            args,
                            offset: self.m_accum_offset,
                            line_number: line,
                        },
                    );
                } else {
                    self.current = next;
                    self.m_label_offsets.insert(copy_bytes(name.as_slice()), self.m_accum_offset);
                    push_node(nodes, ASTNode::Label { name, line_number: line });
                }
                Ok(())
            },
            Token::Opcode(mnemonic, line) => {
                let at = self.m_accum_offset;
                let width = mnemonic.width();
                if at > u64::MAX - width {
                    return Err(ParseError::OffsetOverflow { line });
                }
                let (operands, end) = take_for(&self.tokens, next, mnemonic);
                let opcode = match mnemonic.operand_rule() {
                    OperandRule::Alu | OperandRule::ConditionalJump => promote(mnemonic, &operands),
                    _ => mnemonic,
                };
                proof {
                    lemma_promoted_width(mnemonic, tokens_view(operands@));
                }
                if opcode == Opcode::Call {
                    self.m_prog_is_static = false;
                    match last_label(&operands) {
                        Some(name) => {
                            self.m_dynamic_symbols.add_call_target(copy_bytes(name.as_slice()), at);
                            self.m_rel_dyns.add_rel_dyn(at, RelocationType::RSbfSyscall, name);
                        },
                        None => {},
                    }
                }
                if opcode == Opcode::Lddw {
                    match last_label(&operands) {
                        Some(name) => {
                            self.m_rel_dyns.add_rel_dyn(at, RelocationType::RSbf64Relative, name);
                        },
                        None => {},
                    }
                }
                self.current = end;
                self.m_accum_offset = at + width;
                push_node(
                    nodes,
                    ASTNode::Instruction { opcode, operands, offset: at, line_number: line },
                );
                Ok(())
            },
            Token::Identifier(name, line) => Err(ParseError::UnknownOpcode { name, line }),
            t => Err(ParseError::UnexpectedToken { line: t.line() }),
        }
    }

    /// Parses the tokens that are left: the first pass makes the nodes and
    /// the tables, the second puts a number in place of each label that a
    /// jump or an `lddw` names, and the entry label is looked up last.
    #[verifier::loop_isolation(false)]
    pub fn parse(&mut self) -> (r: Result<ParseResult, ParseError>)
        ensures
            final(self)@ == parse_outcome(old(self)@).parser,
            match r {
                Ok(result) => parse_outcome(old(self)@).result == Ok::<
                    ParseResultView,
                    ParseErrorView,
                >(result@),
                Err(e) => parse_outcome(old(self)@).result == Err::<
                    ParseResultView,
                    ParseErrorView,
                >(e@),
            },
    {
        let ghost start = FirstPass {
            parser: self@,
            nodes: Seq::empty(),
            rodata_nodes: Seq::empty(),
        };
        let mut nodes: Vec<ASTNode> = Vec::new();
        let mut rodata_nodes: Vec<ASTNode> = Vec::new();
        assert(nodes_view(nodes@) =~= Seq::<NodeView>::empty());
        assert(nodes_view(rodata_nodes@) =~= Seq::<NodeView>::empty());
        while self.current < self.tokens.len()
            invariant
                first_pass(start) == first_pass(
                    FirstPass {
                        parser: self@,
                        nodes: nodes_view(nodes@),
                        rodata_nodes: nodes_view(rodata_nodes@),
                    },
                ),
            decreases self.tokens.len() - self.current,
        {
            let ghost before = FirstPass {
                parser: self@,
                nodes: nodes_view(nodes@),
                rodata_nodes: nodes_view(rodata_nodes@),
            };
            match self.statement(&mut nodes, &mut rodata_nodes) {
                Ok(()) => {
                    proof {
                        lemma_statement_advances(before);
                    }
                },
                Err(e) => {
                    return Err(e);
                },
            }
        }
        let ghost first = FirstPass {
            parser: self@,
            nodes: nodes_view(nodes@),
            rodata_nodes: nodes_view(rodata_nodes@),
        };
        assert(first == first_pass(start));
        let mut code: Vec<ASTNode> = Vec::new();
        assert(nodes_view(code@) =~= Seq::<NodeView>::empty());
        let mut i: usize = 0;
        while i < nodes.len()
            invariant
                i <= nodes.len(),
                first.nodes == nodes_view(nodes@),
                first.parser == self@,
                resolve_all(first.nodes.take(i as int), self@.labels, self@.prog_is_static) == Ok::<
                    Seq<NodeView>,
                    ParseErrorView,
                >(nodes_view(code@)),
            decreases nodes.len() - i,
        {
            assert(first.nodes.take(i + 1).drop_last() =~= first.nodes.take(i as int));
            match resolve_node(&nodes[i], &self.m_label_offsets, self.m_prog_is_static) {
                Ok(n) => {
                    push_node(&mut code, n);
                },
                Err(e) => {
                    proof {
                        lemma_resolve_all_error(
                            first.nodes,
                            i + 1,
                            self@.labels,
                            self@.prog_is_static,
                        );
                    }
                    return Err(e);
                },
            }
            i += 1;
        }
        assert(first.nodes.take(nodes.len() as int) =~= first.nodes);
        let entry = match &self.m_entry_label {
            Some(name) => match self.m_label_offsets.get(name.as_slice()) {
                Some(offset) => Some((copy_bytes(name.as_slice()), offset)),
                None => None,
            },
            None => None,
        };
        match entry {
            Some((name, offset)) => {
                self.m_entry_offset = offset;
                self.m_dynamic_symbols.add_entry_point(name, offset);
            },
            None => {},
        }
        Ok(
            ParseResult {
                code_section: CodeSection::new(code, self.m_accum_offset),
                data_section: DataSection::new(rodata_nodes, self.m_rodata_size),
                dynamic_symbols: self.m_dynamic_symbols.copy(),
                relocation_data: self.m_rel_dyns.copy(),
                prog_is_static: self.m_prog_is_static,
                entry_offset: self.m_entry_offset,
            },
        )
    }
}

/// An error among the first `i` nodes is the error of the whole second pass.
proof fn lemma_resolve_all_error(
    nodes: Seq<NodeView>,
    i: int,
    labels: Map<Seq<u8>, u64>,
    prog_is_static: bool,
)
    requires
        0 <= i <= nodes.len(),
        resolve_all(nodes.take(i), labels, prog_is_static) is Err,
    ensures
        resolve_all(nodes, labels, prog_is_static) == resolve_all(
            nodes.take(i),
            labels,
            prog_is_static,
        ),
    decreases nodes.len(),
{
    if i == nodes.len() {
        assert(nodes.take(i) =~= nodes);
    } else {
        assert(nodes.drop_last().take(i) =~= nodes.take(i));
        lemma_resolve_all_error(nodes.drop_last(), i, labels, prog_is_static);
    }
}

} // verus!
