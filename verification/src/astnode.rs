use std::collections::HashMap;
use vstd::prelude::*;
use crate::bytes::copy_bytes;
use crate::debuginfo::{DebugInfo, RegisterHint, RegisterType};
use crate::encoding::{Fields, encode_slot, field_offset, lemma_offset_round_trip, slot_bytes};
use crate::error::EncodeError;
use crate::opcode::Opcode;
use crate::scan::{
    ByteClass, LOWER_R, MINUS, PLUS, lemma_span_end, number_value, parse_number, scan, span_end,
};
use crate::token::{ImmediateValue, Token, TokenView, clone_tokens, tokens_view};

verus! {

/// One node of the instruction-level representation.
#[derive(Debug, PartialEq, Eq)]
pub enum ASTNode {
    Directive { name: Vec<u8>, args: Vec<Token>, line_number: usize },
    Label { name: Vec<u8>, line_number: usize },
    Instruction { opcode: Opcode, operands: Vec<Token>, offset: u64, line_number: usize },
    RODataLabel { name: Vec<u8>, args: Vec<Token>, offset: u64, line_number: usize },
}

/// What a node is, with byte strings and token lists as sequences.
pub enum NodeView {
    Directive { name: Seq<u8>, args: Seq<TokenView>, line_number: usize },
    Label { name: Seq<u8>, line_number: usize },
    Instruction { opcode: Opcode, operands: Seq<TokenView>, offset: u64, line_number: usize },
    RODataLabel { name: Seq<u8>, args: Seq<TokenView>, offset: u64, line_number: usize },
}

impl View for ASTNode {
    type V = NodeView;

    open spec fn view(&self) -> NodeView {
        match *self {
            ASTNode::Directive { name, args, line_number } => NodeView::Directive {
                name: name@,
                args: tokens_view(args@),
                line_number,
            },
            ASTNode::Label { name, line_number } => NodeView::Label { name: name@, line_number },
            ASTNode::Instruction { opcode, operands, offset, line_number } => NodeView::Instruction {
                opcode,
                operands: tokens_view(operands@),
                offset,
                line_number,
            },
            ASTNode::RODataLabel { name, args, offset, line_number } => NodeView::RODataLabel {
                name: name@,
                args: tokens_view(args@),
                offset,
                line_number,
            },
        }
    }
}

impl Clone for ASTNode {
    fn clone(&self) -> (n: ASTNode)
        ensures
            n@ == self@,
    {
        match self {
            ASTNode::Directive { name, args, line_number } => ASTNode::Directive {
                name: copy_bytes(name.as_slice()),
                args: clone_tokens(args),
                line_number: *line_number,
            },
            ASTNode::Label { name, line_number } => ASTNode::Label {
                name: copy_bytes(name.as_slice()),
                line_number: *line_number,
            },
            ASTNode::Instruction { opcode, operands, offset, line_number } => ASTNode::Instruction {
                opcode: *opcode,
                operands: clone_tokens(operands),
                offset: *offset,
                line_number: *line_number,
            },
            ASTNode::RODataLabel { name, args, offset, line_number } => ASTNode::RODataLabel {
                name: copy_bytes(name.as_slice()),
                args: clone_tokens(args),
                offset: *offset,
                line_number: *line_number,
            },
        }
    }
}

/// The views of a sequence of nodes.
pub open spec fn nodes_view(nodes: Seq<ASTNode>) -> Seq<NodeView> {
    nodes.map_values(|n: ASTNode| n@)
}

impl NodeView {
    /// The source line of the node.
    pub open spec fn line_number(self) -> usize {
        match self {
            NodeView::Directive { line_number, .. } => line_number,
            NodeView::Label { line_number, .. } => line_number,
            NodeView::Instruction { line_number, .. } => line_number,
            NodeView::RODataLabel { line_number, .. } => line_number,
        }
    }
}

impl ASTNode {
    /// The byte offset of an instruction.
    pub fn get_offset(&self) -> (r: Option<u64>)
        ensures
            r == (match self@ {
                NodeView::Instruction { offset, .. } => Some(offset),
                _ => None,
            }),
    {
        match self {
            ASTNode::Instruction { offset, .. } => Some(*offset),
            _ => None,
        }
    }

    /// The opcode of an instruction.
    pub fn get_opcode(&self) -> (r: Option<&Opcode>)
        ensures
            match self@ {
                NodeView::Instruction { opcode, .. } => r == Some(&opcode),
                _ => r is None,
            },
    {
        match self {
            ASTNode::Instruction { opcode, .. } => Some(opcode),
            _ => None,
        }
    }

    /// The operands of an instruction.
    pub fn get_operands(&self) -> (r: Option<&Vec<Token>>)
        ensures
            match self@ {
                NodeView::Instruction { operands, .. } => r is Some && tokens_view(r->0@)
                    == operands,
                _ => r is None,
            },
    {
        match self {
            ASTNode::Instruction { operands, .. } => Some(operands),
            _ => None,
        }
    }

    /// The name of a label, in the code or in the read-only data.
    pub fn get_label_name(&self) -> (r: Option<&Vec<u8>>)
        ensures
            match self@ {
                NodeView::Label { name, .. } => r is Some && r->0@ == name,
                NodeView::RODataLabel { name, .. } => r is Some && r->0@ == name,
                _ => r is None,
            },
    {
        match self {
            ASTNode::Label { name, .. } => Some(name),
            ASTNode::RODataLabel { name, .. } => Some(name),
            _ => None,
        }
    }

    /// The name of a directive.
    pub fn get_directive_name(&self) -> (r: Option<&Vec<u8>>)
        ensures
            match self@ {
                NodeView::Directive { name, .. } => r is Some && r->0@ == name,
                _ => r is None,
            },
    {
        match self {
            ASTNode::Directive { name, .. } => Some(name),
            _ => None,
        }
    }

    /// The arguments of a directive.
    pub fn get_directive_args(&self) -> (r: Option<&Vec<Token>>)
        ensures
            match self@ {
                NodeView::Directive { args, .. } => r is Some && tokens_view(r->0@) == args,
                _ => r is None,
            },
    {
        match self {
            ASTNode::Directive { args, .. } => Some(args),
            _ => None,
        }
    }

    /// The string literals and directives behind a label in the read-only data.
    pub fn get_rodata_args(&self) -> (r: Option<&Vec<Token>>)
        ensures
            match self@ {
                NodeView::RODataLabel { args, .. } => r is Some && tokens_view(r->0@) == args,
                _ => r is None,
            },
    {
        match self {
            ASTNode::RODataLabel { args, .. } => Some(args),
            _ => None,
        }
    }

    /// The source line of the node.
    pub fn get_line_number(&self) -> (l: usize)
        ensures
            l == self@.line_number(),
    {
        match self {
            ASTNode::Directive { line_number, .. } => *line_number,
            ASTNode::Label { line_number, .. } => *line_number,
            ASTNode::Instruction { line_number, .. } => *line_number,
            ASTNode::RODataLabel { line_number, .. } => *line_number,
        }
    }
}


/// The base register and the offset that a memory operand `rX+N` names:
/// blanks may stand around the register, the `+` and the number; the
/// register is `r0` to `r10`; the number may have a sign and fits in 16 bits.
pub open spec fn expression_parts(expr: Seq<u8>) -> Option<(u8, i16)> {
    let a = span_end(expr, 0, ByteClass::Blank);
    let b = span_end(expr, a + 1, ByteClass::Digit);
    let c = span_end(expr, b, ByteClass::Blank);
    let d = span_end(expr, c + 1, ByteClass::Blank);
    let negative = d < expr.len() && expr[d] == MINUS;
    let signed = d < expr.len() && (expr[d] == MINUS || expr[d] == PLUS);
    let e = if signed {
        d + 1
    } else {
        d
    };
    let f = span_end(expr, e, ByteClass::Digit);
    let g = span_end(expr, f, ByteClass::Blank);
    let register = number_value(expr.subrange(a + 1, b), 10);
    let number = number_value(expr.subrange(e, f), 10);
    if a < expr.len() && expr[a] == LOWER_R && b > a + 1 && register <= 10 && c < expr.len() && expr[c]
        == PLUS && f > e && g == expr.len() && number <= (if negative {
        32768nat
    } else {
        32767nat
    }) {
        Some(
            (
                register as u8,
                if negative {
                    (-(number as int)) as i16
                } else {
                    number as i16
                },
            ),
        )
    } else {
        None
    }
}

/// The base register and the offset that a memory operand names.
pub fn parse_expression(expr: &[u8]) -> (r: Option<(u8, i16)>)
    ensures
        r == expression_parts(expr@),
{
    let n = expr.len();
    let a = scan(expr, 0, ByteClass::Blank);
    if a >= n || expr[a] != LOWER_R {
        return None;
    }
    let b = scan(expr, a + 1, ByteClass::Digit);
    if b <= a + 1 {
        return None;
    }
    proof {
        lemma_span_end(expr@, a + 1, ByteClass::Digit);
    }
    let register = match parse_number(expr, a + 1, b, 10, 10) {
        Some(v) => v as u8,
        None => {
            return None;
        },
    };
    let c = scan(expr, b, ByteClass::Blank);
    if c >= n || expr[c] != PLUS {
        return None;
    }
    let d = scan(expr, c + 1, ByteClass::Blank);
    let negative = d < n && expr[d] == MINUS;
    let signed = d < n && (expr[d] == MINUS || expr[d] == PLUS);
    let e: usize = if signed {
        d + 1
    } else {
        d
    };
    let f = scan(expr, e, ByteClass::Digit);
    if f <= e {
        return None;
    }
    let g = scan(expr, f, ByteClass::Blank);
    if g != n {
        return None;
    }
    proof {
        lemma_span_end(expr@, e as int, ByteClass::Digit);
    }
    let limit: u64 = if negative {
        32768
    } else {
        32767
    };
    match parse_number(expr, e, f, 10, limit) {
        Some(v) => {
            let offset: i16 = if negative {
                (-(v as i32)) as i16
            } else {
                v as i16
            };
            Some((register, offset))
        },
        None => None,
    }
}

/// The fields that the operands of an instruction give it, by their shape:
/// none (for `exit` alone), one immediate, a register and an immediate, these
/// two and an offset, two registers, or a register and a memory operand.
/// `call` has fixed fields whatever its operands. Every other shape, and a
/// register above `r10`, gives none.
pub open spec fn operand_fields(opcode: Opcode, operands: Seq<TokenView>) -> Option<Fields> {
    if opcode == Opcode::Call {
        Some(Fields { dst: 0, src: 1, offset: 0, imm: -1i64 })
    } else if operands.len() == 0 {
        if opcode == Opcode::Exit {
            Some(Fields { dst: 0, src: 0, offset: 0, imm: 0 })
        } else {
            None
        }
    } else if operands.len() == 1 {
        match operands[0] {
            TokenView::ImmediateValue(v, _) => Some(
                if opcode == Opcode::Ja {
                    Fields { dst: 0, src: 0, offset: v.value() as i16, imm: 0 }
                } else {
                    Fields { dst: 0, src: 0, offset: 0, imm: v.value() }
                },
            ),
            _ => None,
        }
    } else if operands.len() == 2 {
        match (operands[0], operands[1]) {
            (TokenView::Register(d, _), TokenView::ImmediateValue(v, _)) if d <= 10 => Some(
                Fields { dst: d, src: 0, offset: 0, imm: v.value() },
            ),
            (TokenView::Register(d, _), TokenView::Register(s, _)) if d <= 10 && s <= 10 => Some(
                Fields { dst: d, src: s, offset: 0, imm: 0 },
            ),
            (TokenView::Register(d, _), TokenView::Expression(e, _)) if d <= 10 => {
                match expression_parts(e) {
                    Some((base, offset)) => Some(Fields { dst: d, src: base, offset, imm: 0 }),
                    None => None,
                }
            },
            _ => None,
        }
    } else if operands.len() == 3 {
        match (operands[0], operands[1], operands[2]) {
            (
                TokenView::Register(d, _),
                TokenView::ImmediateValue(v, _),
                TokenView::ImmediateValue(o, _),
            ) if d <= 10 => Some(
                Fields { dst: d, src: 0, offset: o.value() as i16, imm: v.value() },
            ),
            _ => None,
        }
    } else {
        None
    }
}

/// The hint that an instruction leaves: its first operand holds an address
/// where its second is an immediate that is one.
pub open spec fn operand_hint(opcode: Opcode, operands: Seq<TokenView>) -> Option<RegisterHint> {
    if opcode != Opcode::Call && (operands.len() == 2 || operands.len() == 3) {
        match (operands[0], operands[1]) {
            (
                TokenView::Register(d, _),
                TokenView::ImmediateValue(ImmediateValue::Addr(_), _),
            ) => Some(RegisterHint { register: d as usize, register_type: RegisterType::Addr }),
            _ => None,
        }
    } else {
        None
    }
}

/// The bytes of the string literals among `args`, in their order.
pub open spec fn literal_concat(args: Seq<TokenView>) -> Seq<u8>
    decreases args.len(),
{
    if args.len() == 0 {
        Seq::empty()
    } else {
        literal_concat(args.drop_last()) + (match args.last() {
            TokenView::StringLiteral(s, _) => s,
            _ => Seq::empty(),
        })
    }
}

/// The bytes that a node stands for in the image: those of its instruction,
/// or of its string literals; none for a directive or a label in the code.
pub open spec fn node_bytes(node: NodeView) -> Result<Option<Seq<u8>>, EncodeError> {
    match node {
        NodeView::Instruction { opcode, operands, line_number, .. } => {
            match (opcode.bytecode(), operand_fields(opcode, operands)) {
                (Some(_), Some(f)) => Ok(Some(slot_bytes(opcode, f))),
                _ => Err(EncodeError { line: line_number }),
            }
        },
        NodeView::RODataLabel { args, .. } => Ok(Some(literal_concat(args))),
        _ => Ok(None),
    }
}

/// The debug information of a node: for an instruction its line and hint, at
/// its byte offset.
pub open spec fn node_debug(node: NodeView) -> Map<u64, DebugInfo> {
    match node {
        NodeView::Instruction { opcode, operands, offset, line_number } => Map::empty().insert(
            offset,
            DebugInfo { line_number, register_hint: operand_hint(opcode, operands) },
        ),
        _ => Map::empty(),
    }
}

fn register_of(t: &Token) -> (r: Option<u8>)
    ensures
        r == (match t@ {
            TokenView::Register(d, _) if d <= 10 => Some(d),
            _ => None,
        }),
{
    match t {
        Token::Register(d, _) => if *d <= 10 {
            Some(*d)
        } else {
            None
        },
        _ => None,
    }
}

fn immediate_of(t: &Token) -> (r: Option<ImmediateValue>)
    ensures
        r == (match t@ {
            TokenView::ImmediateValue(v, _) => Some(v),
            _ => None,
        }),
{
    match t {
        Token::ImmediateValue(v, _) => Some(*v),
        _ => None,
    }
}

/// The fields that the operands of an instruction give it.
pub fn fields_for(opcode: Opcode, operands: &Vec<Token>) -> (r: Option<Fields>)
    ensures
        r == operand_fields(opcode, tokens_view(operands@)),
{
    let n = operands.len();
    if opcode == Opcode::Call {
        return Some(Fields { dst: 0, src: 1, offset: 0, imm: -1 });
    }
    if n == 0 {
        return if opcode == Opcode::Exit {
            Some(Fields { dst: 0, src: 0, offset: 0, imm: 0 })
        } else {
            None
        };
    }
    if n == 1 {
        return match immediate_of(&operands[0]) {
            Some(v) => Some(
                if opcode == Opcode::Ja {
                    Fields {
                        dst: 0,
                        src: 0,
                        offset: #[verifier::truncate] (v.value() as i16),
                        imm: 0,
                    }
                } else {
                    Fields { dst: 0, src: 0, offset: 0, imm: v.value() }
                },
            ),
            None => None,
        };
    }
    if n > 3 {
        return None;
    }
    let d = match register_of(&operands[0]) {
        Some(d) => d,
        None => {
            return None;
        },
    };
    if n == 3 {
        return match (immediate_of(&operands[1]), immediate_of(&operands[2])) {
            (Some(v), Some(o)) => Some(
                Fields {
                    dst: d,
                    src: 0,
                    offset: #[verifier::truncate] (o.value() as i16),
                    imm: v.value(),
                },
            ),
            _ => None,
        };
    }
    match &operands[1] {
        Token::ImmediateValue(v, _) => Some(Fields { dst: d, src: 0, offset: 0, imm: v.value() }),
        Token::Register(_, _) => match register_of(&operands[1]) {
            Some(s) => Some(Fields { dst: d, src: s, offset: 0, imm: 0 }),
            None => None,
        },
        Token::Expression(e, _) => match parse_expression(e.as_slice()) {
            Some((base, offset)) => Some(Fields { dst: d, src: base, offset, imm: 0 }),
            None => None,
        },
        _ => None,
    }
}

/// The hint that an instruction leaves.
pub fn hint_for(opcode: Opcode, operands: &Vec<Token>) -> (r: Option<RegisterHint>)
    ensures
        r == operand_hint(opcode, tokens_view(operands@)),
{
    let n = operands.len();
    if opcode == Opcode::Call || (n != 2 && n != 3) {
        return None;
    }
    match (&operands[0], &operands[1]) {
        (Token::Register(d, _), Token::ImmediateValue(ImmediateValue::Addr(_), _)) => Some(
            RegisterHint { register: *d as usize, register_type: RegisterType::Addr },
        ),
        _ => None,
    }
}

/// The bytes of the string literals among `args`, in their order.
pub fn concat_literals(args: &Vec<Token>) -> (bytes: Vec<u8>)
    ensures
        bytes@ == literal_concat(tokens_view(args@)),
{
    let ghost all = tokens_view(args@);
    let mut bytes: Vec<u8> = Vec::new();
    let mut i: usize = 0;
    assert(all.take(0) =~= Seq::<TokenView>::empty());
    while i < args.len()
        invariant
            i <= args.len(),
            all == tokens_view(args@),
            bytes@ == literal_concat(all.take(i as int)),
        decreases args.len() - i,
    {
        assert(all.take(i + 1).drop_last() =~= all.take(i as int));
        match &args[i] {
            Token::StringLiteral(s, _) => {
                let mut copy = copy_bytes(s.as_slice());
                bytes.append(&mut copy);
            },
            _ => {
                assert(bytes@ + Seq::<u8>::empty() =~= bytes@);
            },
        }
        i += 1;
    }
    assert(all.take(args.len() as int) =~= all);
    bytes
}

/// The bytes and the debug information of an instruction.
pub fn encode_instruction(opcode: Opcode, operands: &Vec<Token>, line_number: usize) -> (r: Result<
    (Vec<u8>, DebugInfo),
    EncodeError,
>)
    ensures
        match r {
            Ok((bytes, debug)) => opcode.bytecode() is Some && operand_fields(
                opcode,
                tokens_view(operands@),
            ) is Some && bytes@ == slot_bytes(
                opcode,
                operand_fields(opcode, tokens_view(operands@))->0,
            ) && debug == (DebugInfo {
                line_number,
                register_hint: operand_hint(opcode, tokens_view(operands@)),
            }),
            Err(e) => e == (EncodeError { line: line_number }) && (opcode.bytecode() is None
                || operand_fields(opcode, tokens_view(operands@)) is None),
        },
{
    if opcode.to_bytecode().is_none() {
        return Err(EncodeError { line: line_number });
    }
    match fields_for(opcode, operands) {
        Some(f) => Ok(
            (
                encode_slot(opcode, f),
                DebugInfo { line_number, register_hint: hint_for(opcode, operands) },
            ),
        ),
        None => Err(EncodeError { line: line_number }),
    }
}

impl ASTNode {
    /// The bytes that the node stands for in the image, with the debug
    /// information that belongs to them.
    pub fn bytecode_with_debug_map(&self) -> (r: Result<
        Option<(Vec<u8>, HashMap<u64, DebugInfo>)>,
        EncodeError,
    >)
        ensures
            match r {
                Ok(Some((bytes, debug_map))) => node_bytes(self@) == Ok::<
                    Option<Seq<u8>>,
                    EncodeError,
                >(Some(bytes@)) && debug_map@ == node_debug(self@),
                Ok(None) => node_bytes(self@) == Ok::<Option<Seq<u8>>, EncodeError>(None),
                Err(e) => node_bytes(self@) == Err::<Option<Seq<u8>>, EncodeError>(e),
            },
    {
        broadcast use vstd::std_specs::hash::group_hash_axioms;

        match self {
            ASTNode::Instruction { opcode, operands, offset, line_number } => {
                match encode_instruction(*opcode, operands, *line_number) {
                    Ok((bytes, debug)) => {
                        let mut debug_map: HashMap<u64, DebugInfo> = HashMap::new();
                        debug_map.insert(*offset, debug);
                        Ok(Some((bytes, debug_map)))
                    },
                    Err(e) => Err(e),
                }
            },
            ASTNode::RODataLabel { args, .. } => {
                let debug_map: HashMap<u64, DebugInfo> = HashMap::new();
                Ok(Some((concat_literals(args), debug_map)))
            },
            _ => Ok(None),
        }
    }

    /// The bytes that the node stands for in the image.
    pub fn bytecode(&self) -> (r: Result<Option<Vec<u8>>, EncodeError>)
        ensures
            match r {
                Ok(Some(bytes)) => node_bytes(self@) == Ok::<Option<Seq<u8>>, EncodeError>(
                    Some(bytes@),
                ),
                Ok(None) => node_bytes(self@) == Ok::<Option<Seq<u8>>, EncodeError>(None),
                Err(e) => node_bytes(self@) == Err::<Option<Seq<u8>>, EncodeError>(e),
            },
    {
        match self.bytecode_with_debug_map() {
            Ok(Some((bytes, _))) => Ok(Some(bytes)),
            Ok(None) => Ok(None),
            Err(e) => Err(e),
        }
    }
}


/// The bytes of a jump hold, as its offset, the number that its last operand
/// is: the one operand of `ja`, the third of a conditional jump. A number
/// that fits in 16 bits is held as it is.
pub proof fn lemma_jump_offset_encoded(opcode: Opcode, operands: Seq<TokenView>)
    requires
        opcode.is_jump(),
        operand_fields(opcode, operands) is Some,
        operands.len() == 3 || (opcode == Opcode::Ja && operands.len() == 1),
    ensures
        operands.last() is ImmediateValue,
        ({
            let distance = operands.last()->ImmediateValue_0.value();
            let bytes = slot_bytes(opcode, operand_fields(opcode, operands)->0);
            &&& field_offset(bytes) == distance as i16
            &&& i16::MIN <= distance <= i16::MAX ==> field_offset(bytes) == distance
        }),
{
    lemma_offset_round_trip(opcode, operand_fields(opcode, operands)->0);
    let distance = operands.last()->ImmediateValue_0.value();
    assert(-0x8000 <= distance <= 0x7fff ==> (distance as i16) as i64 == distance) by (bit_vector);
}

} // verus!
