use std::collections::HashMap;
use vstd::prelude::*;
use vstd::string::StringSliceAdditionalSpecFns;
use crate::astnode::{
    ASTNode, NodeView, concat_literals, encode_instruction, literal_concat, node_bytes, nodes_view,
    operand_fields, operand_hint,
};
use crate::bytes::copy_bytes;
use crate::debuginfo::DebugInfo;
use crate::encoding::{le64, lemma_le64_round_trip, lemma_slot_len, put_le64};
use crate::error::{EncodeError, LexError, LoadError, ParseError, ParseErrorView};
use crate::lexer::{lex, tokenize};
use crate::parser::{
    PROGRAM_HEADER_SIZE, ParseResult, ParseResultView, Parser, ParserView, headers_size,
    parse_outcome, program_headers,
};
use crate::parser_laws::{code_len, lemma_entry_in_code};
use crate::program::{has_magic, header_entry};
use crate::vm::{RodataEntry, load_outcome, rodata_view};

verus! {

/// Why a source text has no image.
#[derive(Debug, PartialEq, Eq)]
pub enum AssembleError {
    Lex(LexError),
    Parse(ParseError),
    Encode(EncodeError),
    /// The entry point does not fit in the 64 bits that the header has for it.
    ImageTooLarge,
}

/// An assembly error as a value.
pub enum AssembleErrorView {
    Lex(LexError),
    Parse(ParseErrorView),
    Encode(EncodeError),
    ImageTooLarge,
}

impl View for AssembleError {
    type V = AssembleErrorView;

    open spec fn view(&self) -> AssembleErrorView {
        match *self {
            AssembleError::Lex(e) => AssembleErrorView::Lex(e),
            AssembleError::Parse(e) => AssembleErrorView::Parse(e@),
            AssembleError::Encode(e) => AssembleErrorView::Encode(e),
            AssembleError::ImageTooLarge => AssembleErrorView::ImageTooLarge,
        }
    }
}

/// The bytes of a sequence of nodes, one node after the other, or the error
/// of the first node that has none.
pub open spec fn section_bytes(nodes: Seq<NodeView>) -> Result<Seq<u8>, EncodeError>
    decreases nodes.len(),
{
    if nodes.len() == 0 {
        Ok(Seq::empty())
    } else {
        match section_bytes(nodes.drop_last()) {
            Err(e) => Err(e),
            Ok(before) => match node_bytes(nodes.last()) {
                Err(e) => Err(e),
                Ok(Some(bytes)) => Ok(before + bytes),
                Ok(None) => Ok(before),
            },
        }
    }
}

/// The debug information of the instructions among `nodes`, by their byte
/// offsets; of two instructions at one offset the later counts.
pub open spec fn section_debug(nodes: Seq<NodeView>) -> Map<u64, DebugInfo>
    decreases nodes.len(),
{
    if nodes.len() == 0 {
        Map::empty()
    } else {
        match nodes.last() {
            NodeView::Instruction { opcode, operands, offset, line_number } => section_debug(
                nodes.drop_last(),
            ).insert(offset, DebugInfo { line_number, register_hint: operand_hint(opcode, operands) }),
            _ => section_debug(nodes.drop_last()),
        }
    }
}

/// The source lines of the instructions among `nodes`, by their byte offsets.
pub open spec fn section_lines(nodes: Seq<NodeView>) -> Map<u64, usize>
    decreases nodes.len(),
{
    if nodes.len() == 0 {
        Map::empty()
    } else {
        match nodes.last() {
            NodeView::Instruction { offset, line_number, .. } => section_lines(
                nodes.drop_last(),
            ).insert(offset, line_number),
            _ => section_lines(nodes.drop_last()),
        }
    }
}

/// The first 24 bytes of the file header: the ELF mark; 64-bit,
/// little-endian, version 1; a shared object for the BPF machine.
pub open spec fn header_start() -> Seq<u8> {
    seq![
        0x7fu8, 0x45u8, 0x4cu8, 0x46u8, 0x02u8, 0x01u8, 0x01u8, 0x00u8,
        0x00u8, 0x00u8, 0x00u8, 0x00u8, 0x00u8, 0x00u8, 0x00u8, 0x00u8,
        0x03u8, 0x00u8, 0xf7u8, 0x00u8, 0x01u8, 0x00u8, 0x00u8, 0x00u8,
    ]
}

/// The last 32 bytes of the file header: the program headers begin at byte
/// 64 and there are no section headers; no flags; the sizes of the file
/// header and of one program header; the number of program headers; and the
/// size and number of section headers.
pub open spec fn header_end(program_headers: u8) -> Seq<u8> {
    seq![
        0x40u8, 0x00u8, 0x00u8, 0x00u8, 0x00u8, 0x00u8, 0x00u8, 0x00u8,
        0x00u8, 0x00u8, 0x00u8, 0x00u8, 0x00u8, 0x00u8, 0x00u8, 0x00u8,
        0x00u8, 0x00u8, 0x00u8, 0x00u8, 0x40u8, 0x00u8, 0x38u8, 0x00u8,
        program_headers, 0x00u8, 0x40u8, 0x00u8, 0x00u8, 0x00u8, 0x00u8, 0x00u8,
    ]
}

/// What precedes the code in an image: the file header, which holds the
/// entry point in its bytes 24 to 31, and the program headers, which are
/// left empty.
pub open spec fn image_headers(prog_is_static: bool, entry: u64) -> Seq<u8> {
    header_start() + le64(entry) + header_end(program_headers(prog_is_static) as u8) + Seq::new(
        (PROGRAM_HEADER_SIZE * program_headers(prog_is_static)) as nat,
        |i: int| 0u8,
    )
}

/// An assembled program.
#[derive(Debug, PartialEq, Eq)]
pub struct Assembly {
    /// The image: the headers, the code, the read-only data.
    pub bytecode: Vec<u8>,
    /// The debug information of each instruction, by its byte offset in the code.
    pub debug_map: HashMap<u64, DebugInfo>,
    /// The source line of each instruction, by its byte offset in the code.
    pub line_map: HashMap<u64, usize>,
    /// The strings of the read-only data.
    pub rodata: Vec<RodataEntry>,
    /// What the parser gave.
    pub parsed: ParseResult,
}

/// An assembled program as a value.
pub struct AssemblyView {
    pub bytecode: Seq<u8>,
    pub debug_map: Map<u64, DebugInfo>,
    pub line_map: Map<u64, usize>,
    pub rodata: Seq<(Seq<u8>, usize, Seq<u8>)>,
    pub parsed: ParseResultView,
}

impl View for Assembly {
    type V = AssemblyView;

    open spec fn view(&self) -> AssemblyView {
        AssemblyView {
            bytecode: self.bytecode@,
            debug_map: self.debug_map@,
            line_map: self.line_map@,
            rodata: rodata_view(self.rodata@),
            parsed: self.parsed@,
        }
    }
}

/// The image of a parsed program. The entry point in its header is the
/// place of the entry instruction in the image: the size of the headers
/// plus the entry offset.
pub open spec fn image_of(parsed: ParseResultView) -> Result<AssemblyView, AssembleErrorView> {
    match (section_bytes(parsed.code_section.nodes), section_bytes(parsed.data_section.nodes)) {
        (Err(e), _) => Err(AssembleErrorView::Encode(e)),
        (Ok(_), Err(e)) => Err(AssembleErrorView::Encode(e)),
        (Ok(code), Ok(data)) => {
            if headers_size(parsed.prog_is_static) + parsed.entry_offset > u64::MAX {
                Err(AssembleErrorView::ImageTooLarge)
            } else {
                Ok(
                    AssemblyView {
                        bytecode: image_headers(
                            parsed.prog_is_static,
                            (headers_size(parsed.prog_is_static) + parsed.entry_offset) as u64,
                        ) + code + data,
                        debug_map: section_debug(parsed.code_section.nodes),
                        line_map: section_lines(parsed.code_section.nodes),
                        rodata: rodata_of(parsed.data_section.nodes),
                        parsed,
                    },
                )
            }
        },
    }
}

/// What a source text assembles to: it is lexed, parsed, and encoded.
pub open spec fn assembled(source: Seq<u8>) -> Result<AssemblyView, AssembleErrorView> {
    match lex(source) {
        Err(e) => Err(AssembleErrorView::Lex(e)),
        Ok(tokens) => match parse_outcome(ParserView::fresh(tokens)).result {
            Err(e) => Err(AssembleErrorView::Parse(e)),
            Ok(parsed) => image_of(parsed),
        },
    }
}

/// An image starts with the ELF mark and holds its entry point where a
/// loader reads it.
pub proof fn lemma_image_headers(prog_is_static: bool, entry: u64)
    ensures
        image_headers(prog_is_static, entry).len() == headers_size(prog_is_static),
        has_magic(image_headers(prog_is_static, entry)),
        header_entry(image_headers(prog_is_static, entry)) == entry,
{
    let h = image_headers(prog_is_static, entry);
    lemma_le64_round_trip(entry);
    assert(h.subrange(24, 32) =~= le64(entry));
}

/// Whatever a source text assembles to, it assembles to every time: two
/// assemblies of one text have the same image and the same debug map.
pub proof fn lemma_assembly_deterministic(
    source: Seq<u8>,
    first: AssemblyView,
    second: AssemblyView,
)
    requires
        assembled(source) == Ok::<AssemblyView, AssembleErrorView>(first),
        assembled(source) == Ok::<AssemblyView, AssembleErrorView>(second),
    ensures
        first.bytecode == second.bytecode,
        first.debug_map == second.debug_map,
{
}

/// The bytes of the nodes of a section, with the two maps of its instructions.
pub fn emit_section(nodes: &Vec<ASTNode>) -> (r: Result<
    (Vec<u8>, HashMap<u64, DebugInfo>, HashMap<u64, usize>),
    EncodeError,
>)
    ensures
        match r {
            Ok((bytes, debug_map, line_map)) => section_bytes(nodes_view(nodes@)) == Ok::<
                Seq<u8>,
                EncodeError,
            >(bytes@) && debug_map@ == section_debug(nodes_view(nodes@)) && line_map@
                == section_lines(nodes_view(nodes@)),
            Err(e) => section_bytes(nodes_view(nodes@)) == Err::<Seq<u8>, EncodeError>(e),
        },
{
    broadcast use vstd::std_specs::hash::group_hash_axioms;

    let ghost all = nodes_view(nodes@);
    let mut bytes: Vec<u8> = Vec::new();
    let mut debug_map: HashMap<u64, DebugInfo> = HashMap::new();
    let mut line_map: HashMap<u64, usize> = HashMap::new();
    let mut i: usize = 0;
    assert(all.take(0) =~= Seq::<NodeView>::empty());
    while i < nodes.len()
        invariant
            i <= nodes.len(),
            all == nodes_view(nodes@),
            section_bytes(all.take(i as int)) == Ok::<Seq<u8>, EncodeError>(bytes@),
            debug_map@ == section_debug(all.take(i as int)),
            line_map@ == section_lines(all.take(i as int)),
        decreases nodes.len() - i,
    {
        assert(all.take(i + 1).drop_last() =~= all.take(i as int));
        assert(all.take(i + 1).last() == nodes@[i as int]@);
        match &nodes[i] {
            ASTNode::Instruction { opcode, operands, offset, line_number } => {
                match encode_instruction(*opcode, operands, *line_number) {
                    Ok((mut slot, debug)) => {
                        bytes.append(&mut slot);
                        debug_map.insert(*offset, debug);
                        line_map.insert(*offset, *line_number);
                    },
                    Err(e) => {
                        proof {
                            lemma_section_error(all, i + 1);
                        }
                        return Err(e);
                    },
                }
            },
            ASTNode::RODataLabel { args, .. } => {
                let mut data = concat_literals(args);
                bytes.append(&mut data);
            },
            _ => {},
        }
        i += 1;
    }
    assert(all.take(nodes.len() as int) =~= all);
    Ok((bytes, debug_map, line_map))
}

proof fn lemma_section_error(nodes: Seq<NodeView>, i: int)
    requires
        0 <= i <= nodes.len(),
        section_bytes(nodes.take(i)) is Err,
    ensures
        section_bytes(nodes) == section_bytes(nodes.take(i)),
    decreases nodes.len(),
{
    if i == nodes.len() {
        assert(nodes.take(i) =~= nodes);
    } else {
        assert(nodes.drop_last().take(i) =~= nodes.take(i));
        lemma_section_error(nodes.drop_last(), i);
    }
}

/// What precedes the code in an image.
pub fn emit_headers(prog_is_static: bool, entry: u64) -> (bytes: Vec<u8>)
    ensures
        bytes@ == image_headers(prog_is_static, entry),
{
    let count: u8 = program_headers(prog_is_static) as u8;
    let mut bytes: Vec<u8> = vec![
        0x7fu8, 0x45u8, 0x4cu8, 0x46u8, 0x02u8, 0x01u8, 0x01u8, 0x00u8,
        0x00u8, 0x00u8, 0x00u8, 0x00u8, 0x00u8, 0x00u8, 0x00u8, 0x00u8,
        0x03u8, 0x00u8, 0xf7u8, 0x00u8, 0x01u8, 0x00u8, 0x00u8, 0x00u8,
    ];
    assert(bytes@ =~= header_start());
    put_le64(&mut bytes, entry);
    let mut end: Vec<u8> = vec![
        0x40u8, 0x00u8, 0x00u8, 0x00u8, 0x00u8, 0x00u8, 0x00u8, 0x00u8,
        0x00u8, 0x00u8, 0x00u8, 0x00u8, 0x00u8, 0x00u8, 0x00u8, 0x00u8,
        0x00u8, 0x00u8, 0x00u8, 0x00u8, 0x40u8, 0x00u8, 0x38u8, 0x00u8,
        count, 0x00u8, 0x40u8, 0x00u8, 0x00u8, 0x00u8, 0x00u8, 0x00u8,
    ];
    assert(end@ =~= header_end(count));
    bytes.append(&mut end);
    let ghost head = bytes@;
    let padding: usize = PROGRAM_HEADER_SIZE as usize * count as usize;
    let mut i: usize = 0;
    while i < padding
        invariant
            i <= padding,
            bytes@ == head + Seq::new(i as nat, |k: int| 0u8),
        decreases padding - i,
    {
        bytes.push(0);
        assert(bytes@ =~= head + Seq::new((i + 1) as nat, |k: int| 0u8));
        i += 1;
    }
    assert(bytes@ =~= image_headers(prog_is_static, entry));
    bytes
}

/// The strings of the read-only data: for each label there, its name, its
/// offset, and the bytes of its string literals.
pub open spec fn rodata_of(nodes: Seq<NodeView>) -> Seq<(Seq<u8>, usize, Seq<u8>)>
    decreases nodes.len(),
{
    if nodes.len() == 0 {
        Seq::empty()
    } else {
        match nodes.last() {
            NodeView::RODataLabel { name, args, offset, .. } => rodata_of(nodes.drop_last()).push(
                (name, offset as usize, literal_concat(args)),
            ),
            _ => rodata_of(nodes.drop_last()),
        }
    }
}

/// The strings of the read-only data, for display.
pub fn parse_rodata(nodes: &Vec<ASTNode>) -> (entries: Vec<RodataEntry>)
    ensures
        rodata_view(entries@) == rodata_of(nodes_view(nodes@)),
{
    let ghost all = nodes_view(nodes@);
    let mut entries: Vec<RodataEntry> = Vec::new();
    let mut i: usize = 0;
    assert(all.take(0) =~= Seq::<NodeView>::empty());
    assert(rodata_view(entries@) =~= Seq::empty());
    while i < nodes.len()
        invariant
            i <= nodes.len(),
            all == nodes_view(nodes@),
            rodata_view(entries@) == rodata_of(all.take(i as int)),
        decreases nodes.len() - i,
    {
        assert(all.take(i + 1).drop_last() =~= all.take(i as int));
        assert(all.take(i + 1).last() == nodes@[i as int]@);
        match &nodes[i] {
            ASTNode::RODataLabel { name, args, offset, .. } => {
                let ghost before = rodata_view(entries@);
                let entry = RodataEntry {
                    label: copy_bytes(name.as_slice()),
                    offset: #[verifier::truncate] (*offset as usize),
                    value: concat_literals(args),
                };
                let ghost added = (entry.label@, entry.offset, entry.value@);
                entries.push(entry);
                assert(rodata_view(entries@) =~= before.push(added));
            },
            _ => {},
        }
        i += 1;
    }
    assert(all.take(nodes.len() as int) =~= all);
    entries
}

/// The image of a parsed program, with its debug information.
pub fn build_image(parsed: ParseResult) -> (r: Result<Assembly, AssembleError>)
    ensures
        match r {
            Ok(a) => image_of(parsed@) == Ok::<AssemblyView, AssembleErrorView>(a@),
            Err(e) => image_of(parsed@) == Err::<AssemblyView, AssembleErrorView>(e@),
        },
{
    let (mut code, debug_map, line_map) = match emit_section(&parsed.code_section.nodes) {
        Ok(c) => c,
        Err(e) => {
            return Err(AssembleError::Encode(e));
        },
    };
    let mut data = match emit_section(&parsed.data_section.nodes) {
        Ok((bytes, _, _)) => bytes,
        Err(e) => {
            return Err(AssembleError::Encode(e));
        },
    };
    let headers = headers_size(parsed.prog_is_static);
    if parsed.entry_offset > u64::MAX - headers {
        return Err(AssembleError::ImageTooLarge);
    }
    let mut bytecode = emit_headers(parsed.prog_is_static, headers + parsed.entry_offset);
    bytecode.append(&mut code);
    bytecode.append(&mut data);
    let rodata = parse_rodata(&parsed.data_section.nodes);
    Ok(Assembly { bytecode, debug_map, line_map, rodata, parsed })
}

/// Assembles a source text: lexes it, parses it, and encodes what the parse gives.
pub fn assemble_source(source: &str) -> (r: Result<Assembly, AssembleError>)
    ensures
        match r {
            Ok(a) => assembled(source.spec_bytes()) == Ok::<AssemblyView, AssembleErrorView>(a@),
            Err(e) => assembled(source.spec_bytes()) == Err::<AssemblyView, AssembleErrorView>(e@),
        },
{
    let tokens = match tokenize(source) {
        Ok(t) => t,
        Err(e) => {
            return Err(AssembleError::Lex(e));
        },
    };
    let mut parser = Parser::new(tokens);
    let parsed = match parser.parse() {
        Ok(p) => p,
        Err(e) => {
            return Err(AssembleError::Parse(e));
        },
    };
    build_image(parsed)
}


/// The bytes of a section are at least those that its instructions occupy.
pub proof fn lemma_section_length(nodes: Seq<NodeView>)
    requires
        section_bytes(nodes) is Ok,
    ensures
        section_bytes(nodes)->Ok_0.len() >= code_len(nodes),
    decreases nodes.len(),
{
    if nodes.len() > 0 {
        lemma_section_length(nodes.drop_last());
        match nodes.last() {
            NodeView::Instruction { opcode, operands, .. } => {
                lemma_slot_len(opcode, operand_fields(opcode, operands)->0);
            },
            _ => {},
        }
    }
}

/// An image that a source text assembles to can be loaded. Execution starts
/// at the entry offset of the parse, counted from the end of the headers,
/// which lies within the image.
pub proof fn lemma_assembled_loads(source: Seq<u8>)
    requires
        assembled(source) is Ok,
        assembled(source)->Ok_0.bytecode.len() <= usize::MAX,
    ensures
        headers_size(assembled(source)->Ok_0.parsed.prog_is_static) + assembled(
            source,
        )->Ok_0.parsed.entry_offset <= assembled(source)->Ok_0.bytecode.len(),
        ({
            let a = assembled(source)->Ok_0;
            load_outcome(a.bytecode) == Ok::<usize, LoadError>(
                (headers_size(a.parsed.prog_is_static) + a.parsed.entry_offset) as usize,
            )
        }),
{
    let tokens = lex(source)->Ok_0;
    let parsed = parse_outcome(ParserView::fresh(tokens)).result->Ok_0;
    let a = assembled(source)->Ok_0;
    let entry = (headers_size(parsed.prog_is_static) + parsed.entry_offset) as u64;
    let headers = image_headers(parsed.prog_is_static, entry);
    lemma_entry_in_code(tokens);
    lemma_section_length(parsed.code_section.nodes);
    lemma_image_headers(parsed.prog_is_static, entry);
    assert(a.bytecode.subrange(24, 32) =~= headers.subrange(24, 32));
    assert(a.bytecode[0] == headers[0]);
    assert(a.bytecode[1] == headers[1]);
    assert(a.bytecode[2] == headers[2]);
    assert(a.bytecode[3] == headers[3]);
}

} // verus!
