use vstd::prelude::*;
use crate::astnode::NodeView;
use crate::opcode::Opcode;
use crate::error::ParseErrorView;
use crate::parser::{
    FirstPass, ParserView, first_pass, gather, jump_distance, named_label, names_label, parse_outcome,
    promoted, resolve, resolve_all, statement_error, statement_next, lemma_statement_advances,
};
use crate::token::{ImmediateValue, TokenView};

verus! {

/// The first pass before its first statement.
pub open spec fn start_of(p: ParserView) -> FirstPass {
    FirstPass { parser: p, nodes: Seq::empty(), rodata_nodes: Seq::empty() }
}

/// Induction over the statements of the first pass: what holds at the start
/// and is kept by every statement that parses holds at the end.
pub proof fn lemma_first_pass_induction(s: FirstPass, inv: spec_fn(FirstPass) -> bool)
    requires
        inv(s),
        forall|t: FirstPass|
            inv(t) && 0 <= t.parser.current < t.parser.tokens.len() && statement_error(t) is None
                ==> #[trigger] inv(statement_next(t)),
    ensures
        inv(first_pass(s)),
    decreases s.parser.tokens.len() - s.parser.current,
{
    if 0 <= s.parser.current < s.parser.tokens.len() && statement_error(s) is None {
        lemma_statement_advances(s);
        lemma_first_pass_induction(statement_next(s), inv);
    }
}

/// The second pass keeps the number of nodes, and of each instruction the
/// opcode, the byte offset and the line; other nodes it keeps whole.
pub proof fn lemma_resolve_all_shape(
    nodes: Seq<NodeView>,
    labels: Map<Seq<u8>, u64>,
    prog_is_static: bool,
)
    requires
        resolve_all(nodes, labels, prog_is_static) is Ok,
    ensures
        resolve_all(nodes, labels, prog_is_static)->Ok_0.len() == nodes.len(),
        forall|k: int|
            0 <= k < nodes.len() ==> resolve(nodes[k], labels, prog_is_static) == Ok::<
                NodeView,
                ParseErrorView,
            >(#[trigger] resolve_all(nodes, labels, prog_is_static)->Ok_0[k]),
    decreases nodes.len(),
{
    if nodes.len() > 0 {
        lemma_resolve_all_shape(nodes.drop_last(), labels, prog_is_static);
    }
}

/// The bytes that the instructions among `nodes` occupy.
pub open spec fn code_len(nodes: Seq<NodeView>) -> nat
    decreases nodes.len(),
{
    if nodes.len() == 0 {
        0
    } else {
        code_len(nodes.drop_last()) + (match nodes.last() {
            NodeView::Instruction { opcode, .. } => opcode.width() as nat,
            _ => 0,
        })
    }
}

/// Every instruction among `nodes` stands at `base` plus the bytes of the
/// instructions before it.
pub open spec fn laid_out(nodes: Seq<NodeView>, base: int) -> bool {
    forall|k: int|
        0 <= k < nodes.len() ==> (#[trigger] nodes[k] matches NodeView::Instruction { offset, .. }
            ==> offset == base + code_len(nodes.take(k)))
}

spec fn layout_holds(base: int) -> spec_fn(FirstPass) -> bool {
    |s: FirstPass| laid_out(s.nodes, base) && s.parser.accum_offset == base + code_len(s.nodes)
}

proof fn lemma_layout_step(t: FirstPass, base: int)
    requires
        layout_holds(base)(t),
        0 <= t.parser.current < t.parser.tokens.len(),
        statement_error(t) is None,
    ensures
        layout_holds(base)(statement_next(t)),
{
    let n = statement_next(t);
    if n.nodes != t.nodes {
        assert(n.nodes.drop_last() =~= t.nodes);
        assert forall|k: int| 0 <= k < n.nodes.len() implies (#[trigger] n.nodes[k] matches NodeView::Instruction {
            offset,
            ..
        } ==> offset == base + code_len(n.nodes.take(k))) by {
            if k < t.nodes.len() {
                assert(n.nodes.take(k) =~= t.nodes.take(k));
                assert(n.nodes[k] == t.nodes[k]);
            } else {
                assert(n.nodes.take(k) =~= t.nodes);
            }
        }
        match t.parser.tokens[t.parser.current] {
            TokenView::Opcode(mnemonic, _) => {
                let g = gather(t.parser.tokens, t.parser.current + 1, mnemonic);
                assert(promoted(mnemonic, g.operands).width() == mnemonic.width());
            },
            _ => {},
        }
    }
}

/// After a first pass that starts with no nodes, every instruction stands at
/// the offset the parser started with plus the bytes of the instructions
/// before it, and the parser's offset is the one after the last.
pub proof fn lemma_first_pass_layout(p: ParserView)
    ensures
        laid_out(first_pass(start_of(p)).nodes, p.accum_offset as int),
        first_pass(start_of(p)).parser.accum_offset == p.accum_offset + code_len(
            first_pass(start_of(p)).nodes,
        ),
{
    let base = p.accum_offset as int;
    let inv = layout_holds(base);
    assert(inv(start_of(p)));
    assert forall|t: FirstPass|
        inv(t) && 0 <= t.parser.current < t.parser.tokens.len() && statement_error(t) is None
            implies #[trigger] inv(statement_next(t)) by {
        lemma_layout_step(t, base);
    }
    lemma_first_pass_induction(start_of(p), inv);
}

proof fn lemma_code_len_resolved(
    nodes: Seq<NodeView>,
    labels: Map<Seq<u8>, u64>,
    prog_is_static: bool,
    k: int,
)
    requires
        resolve_all(nodes, labels, prog_is_static) is Ok,
        0 <= k <= nodes.len(),
    ensures
        code_len(resolve_all(nodes, labels, prog_is_static)->Ok_0.take(k)) == code_len(
            nodes.take(k),
        ),
    decreases k,
{
    let done = resolve_all(nodes, labels, prog_is_static)->Ok_0;
    lemma_resolve_all_shape(nodes, labels, prog_is_static);
    if k > 0 {
        lemma_code_len_resolved(nodes, labels, prog_is_static, k - 1);
        assert(done.take(k).drop_last() =~= done.take(k - 1));
        assert(nodes.take(k).drop_last() =~= nodes.take(k - 1));
        assert(done.take(k).last() == done[k - 1]);
        assert(nodes.take(k).last() == nodes[k - 1]);
    } else {
        assert(done.take(0).len() == 0);
        assert(nodes.take(0).len() == 0);
    }
}

proof fn lemma_code_len_gap(nodes: Seq<NodeView>, i: int, j: int)
    requires
        0 <= i < j <= nodes.len(),
        forall|k: int| i < k < j ==> !(#[trigger] nodes[k] is Instruction),
    ensures
        code_len(nodes.take(j)) == code_len(nodes.take(i + 1)),
    decreases j - i,
{
    if j > i + 1 {
        lemma_code_len_gap(nodes, i, j - 1);
        assert(nodes.take(j).drop_last() =~= nodes.take(j - 1));
        assert(nodes.take(j).last() == nodes[j - 1]);
    }
}

/// In the code of a parse, every instruction stands at the offset that the
/// parser started with plus the bytes of the instructions before it.
pub proof fn lemma_code_layout(p: ParserView)
    requires
        parse_outcome(p).result is Ok,
    ensures
        laid_out(parse_outcome(p).result->Ok_0.code_section.nodes, p.accum_offset as int),
{
    let f = first_pass(start_of(p));
    let labels = f.parser.labels;
    let st = f.parser.prog_is_static;
    let code = parse_outcome(p).result->Ok_0.code_section.nodes;
    lemma_first_pass_layout(p);
    lemma_resolve_all_shape(f.nodes, labels, st);
    assert forall|k: int| 0 <= k < code.len() implies (#[trigger] code[k] matches NodeView::Instruction {
        offset,
        ..
    } ==> offset == p.accum_offset + code_len(code.take(k))) by {
        lemma_code_len_resolved(f.nodes, labels, st, k);
        assert(resolve(f.nodes[k], labels, st) == Ok::<NodeView, ParseErrorView>(code[k]));
        assert(f.nodes[k] is Instruction == code[k] is Instruction);
    }
}

/// In the code of a parse, an instruction ends where the next one begins:
/// its byte offset plus its width, 16 for `lddw` and 8 for every other, is
/// the byte offset of the instruction that follows it.
pub proof fn lemma_offsets_consecutive(p: ParserView, i: int, j: int)
    requires
        parse_outcome(p).result is Ok,
        0 <= i < j < parse_outcome(p).result->Ok_0.code_section.nodes.len(),
        parse_outcome(p).result->Ok_0.code_section.nodes[i] is Instruction,
        parse_outcome(p).result->Ok_0.code_section.nodes[j] is Instruction,
        forall|k: int|
            i < k < j ==> !(#[trigger] parse_outcome(p).result->Ok_0.code_section.nodes[k]
                is Instruction),
    ensures
        ({
            let code = parse_outcome(p).result->Ok_0.code_section.nodes;
            code[i]->Instruction_offset + code[i]->Instruction_opcode.width()
                == code[j]->Instruction_offset
        }),
{
    let f = first_pass(start_of(p));
    let labels = f.parser.labels;
    let st = f.parser.prog_is_static;
    let code = parse_outcome(p).result->Ok_0.code_section.nodes;
    assert(resolve_all(f.nodes, labels, st) == Ok::<Seq<NodeView>, ParseErrorView>(code));
    lemma_first_pass_layout(p);
    lemma_resolve_all_shape(f.nodes, labels, st);
    lemma_code_len_resolved(f.nodes, labels, st, i);
    lemma_code_len_resolved(f.nodes, labels, st, j);
    lemma_code_len_gap(code, i, j);
    assert(code.take(i + 1).drop_last() =~= code.take(i));
    assert(code.take(i + 1).last() == code[i]);
    assert(resolve(f.nodes[i], labels, st) == Ok::<NodeView, ParseErrorView>(code[i]));
    assert(resolve(f.nodes[j], labels, st) == Ok::<NodeView, ParseErrorView>(code[j]));
    assert(f.nodes[i] is Instruction);
    assert(f.nodes[j] is Instruction);
}


spec fn aligned_holds() -> spec_fn(FirstPass) -> bool {
    |s: FirstPass|
        {
            &&& s.parser.accum_offset % 8 == 0
            &&& forall|name: Seq<u8>| #[trigger]
                s.parser.labels.contains_key(name) ==> s.parser.labels[name] % 8 == 0
            &&& forall|k: int|
                0 <= k < s.nodes.len() ==> (#[trigger] s.nodes[k] matches NodeView::Instruction {
                    offset,
                    ..
                } ==> offset % 8 == 0)
        }
}

proof fn lemma_aligned_step(t: FirstPass)
    requires
        aligned_holds()(t),
        0 <= t.parser.current < t.parser.tokens.len(),
        statement_error(t) is None,
    ensures
        aligned_holds()(statement_next(t)),
{
    let n = statement_next(t);
    match t.parser.tokens[t.parser.current] {
        TokenView::Opcode(mnemonic, _) => {
            let g = gather(t.parser.tokens, t.parser.current + 1, mnemonic);
            assert(promoted(mnemonic, g.operands).width() == mnemonic.width());
        },
        _ => {},
    }
    assert forall|k: int| 0 <= k < n.nodes.len() implies (#[trigger] n.nodes[k] matches NodeView::Instruction {
        offset,
        ..
    } ==> offset % 8 == 0) by {
        if k < t.nodes.len() {
            assert(n.nodes[k] == t.nodes[k]);
        }
    }
}

proof fn lemma_first_pass_aligned(tokens: Seq<TokenView>)
    ensures
        aligned_holds()(first_pass(start_of(ParserView::fresh(tokens)))),
{
    let inv = aligned_holds();
    assert(inv(start_of(ParserView::fresh(tokens))));
    assert forall|t: FirstPass|
        inv(t) && 0 <= t.parser.current < t.parser.tokens.len() && statement_error(t) is None
            implies #[trigger] inv(statement_next(t)) by {
        lemma_aligned_step(t);
    }
    lemma_first_pass_induction(start_of(ParserView::fresh(tokens)), inv);
}

/// Where a jump names a label, the parse puts in its place the immediate
/// `(offset of the label - offset of the jump) / 8 - 1`.
pub proof fn lemma_jump_immediate(tokens: Seq<TokenView>, k: int)
    requires
        parse_outcome(ParserView::fresh(tokens)).result is Ok,
        0 <= k < first_pass(start_of(ParserView::fresh(tokens))).nodes.len(),
        first_pass(start_of(ParserView::fresh(tokens))).nodes[k] matches NodeView::Instruction {
            opcode,
            operands,
            ..
        } && opcode.is_jump() && names_label(operands),
    ensures
        ({
            let f = first_pass(start_of(ParserView::fresh(tokens)));
            let code = parse_outcome(ParserView::fresh(tokens)).result->Ok_0.code_section.nodes;
            let jump = f.nodes[k];
            let name = named_label(jump->Instruction_operands);
            let target = f.parser.labels[name];
            let from = jump->Instruction_offset;
            &&& f.parser.labels.contains_key(name)
            &&& i64::MIN <= (target - from) / 8 - 1 <= i64::MAX
            &&& code[k] == (NodeView::Instruction {
                opcode: jump->Instruction_opcode,
                operands: jump->Instruction_operands.drop_last().push(
                    TokenView::ImmediateValue(
                        ImmediateValue::Int(((target - from) / 8 - 1) as i64),
                        0,
                    ),
                ),
                offset: from,
                line_number: jump->Instruction_line_number,
            })
        }),
{
    let f = first_pass(start_of(ParserView::fresh(tokens)));
    let labels = f.parser.labels;
    let st = f.parser.prog_is_static;
    lemma_first_pass_aligned(tokens);
    lemma_resolve_all_shape(f.nodes, labels, st);
    let jump = f.nodes[k];
    let name = named_label(jump->Instruction_operands);
    assert(resolve(f.nodes[k], labels, st) is Ok);
    assert(labels.contains_key(name));
    let target = labels[name];
    let from = jump->Instruction_offset;
    assert(target % 8 == 0);
    assert(from % 8 == 0);
    assert(jump_distance(target, from) == (target - from) / 8 - 1);
}

/// After a parse no jump and no `lddw` ends in a label.
pub proof fn lemma_no_label_left(p: ParserView, k: int)
    requires
        parse_outcome(p).result is Ok,
        0 <= k < parse_outcome(p).result->Ok_0.code_section.nodes.len(),
    ensures
        parse_outcome(p).result->Ok_0.code_section.nodes[k] matches NodeView::Instruction {
            opcode,
            operands,
            ..
        } ==> !((opcode.is_jump() || opcode == Opcode::Lddw) && names_label(operands)),
{
    let f = first_pass(start_of(p));
    lemma_resolve_all_shape(f.nodes, f.parser.labels, f.parser.prog_is_static);
    assert(resolve(f.nodes[k], f.parser.labels, f.parser.prog_is_static) is Ok);
}

/// An instruction that the first pass records a relocation for: a `call` or
/// an `lddw` that ends in a label.
pub open spec fn needs_relocation(node: NodeView) -> bool {
    node matches NodeView::Instruction { opcode, operands, .. } && (opcode == Opcode::Call || opcode
        == Opcode::Lddw) && names_label(operands)
}

/// Whether a node is a `call`.
pub open spec fn is_call(node: NodeView) -> bool {
    node matches NodeView::Instruction { opcode, .. } && opcode == Opcode::Call
}

spec fn tables_hold() -> spec_fn(FirstPass) -> bool {
    |s: FirstPass|
        {
            &&& s.parser.prog_is_static <==> forall|k: int|
                0 <= k < s.nodes.len() ==> !is_call(#[trigger] s.nodes[k])
            &&& s.parser.rel_dyns.len() == 0 <==> forall|k: int|
                0 <= k < s.nodes.len() ==> !needs_relocation(#[trigger] s.nodes[k])
        }
}

#[verifier::rlimit(50)]
proof fn lemma_tables_step(t: FirstPass)
    requires
        tables_hold()(t),
        0 <= t.parser.current < t.parser.tokens.len(),
        statement_error(t) is None,
    ensures
        tables_hold()(statement_next(t)),
{
    let n = statement_next(t);
    if n.nodes != t.nodes {
        assert(n.nodes.drop_last() =~= t.nodes);
        let last = n.nodes.last();
        assert(n.nodes[n.nodes.len() - 1] == last);
        assert forall|k: int| 0 <= k < t.nodes.len() implies n.nodes[k] == t.nodes[k] by {}
        if n.parser.prog_is_static {
            assert forall|k: int| 0 <= k < n.nodes.len() implies !is_call(#[trigger] n.nodes[k]) by {
                if k < t.nodes.len() {
                    assert(n.nodes[k] == t.nodes[k]);
                }
            }
        } else if t.parser.prog_is_static {
            assert(is_call(n.nodes[n.nodes.len() - 1]));
        } else {
            let k = choose|k: int| 0 <= k < t.nodes.len() && is_call(#[trigger] t.nodes[k]);
            assert(is_call(n.nodes[k]));
        }
        if n.parser.rel_dyns.len() == 0 {
            assert forall|k: int| 0 <= k < n.nodes.len() implies !needs_relocation(
                #[trigger] n.nodes[k],
            ) by {
                if k < t.nodes.len() {
                    assert(n.nodes[k] == t.nodes[k]);
                }
            }
        } else if t.parser.rel_dyns.len() == 0 {
            assert(needs_relocation(n.nodes[n.nodes.len() - 1]));
        } else {
            let k = choose|k: int| 0 <= k < t.nodes.len() && needs_relocation(#[trigger] t.nodes[k]);
            assert(needs_relocation(n.nodes[k]));
        }
    }
}

proof fn lemma_first_pass_tables(tokens: Seq<TokenView>)
    ensures
        tables_hold()(first_pass(start_of(ParserView::fresh(tokens)))),
{
    let inv = tables_hold();
    assert(inv(start_of(ParserView::fresh(tokens))));
    assert forall|t: FirstPass|
        inv(t) && 0 <= t.parser.current < t.parser.tokens.len() && statement_error(t) is None
            implies #[trigger] inv(statement_next(t)) by {
        lemma_tables_step(t);
    }
    lemma_first_pass_induction(start_of(ParserView::fresh(tokens)), inv);
}

/// A parsed program is static exactly if its code holds no `call`.
pub proof fn lemma_static_iff_no_call(tokens: Seq<TokenView>)
    requires
        parse_outcome(ParserView::fresh(tokens)).result is Ok,
    ensures
        ({
            let r = parse_outcome(ParserView::fresh(tokens)).result->Ok_0;
            r.prog_is_static <==> forall|k: int|
                0 <= k < r.code_section.nodes.len() ==> !is_call(#[trigger] r.code_section.nodes[k])
        }),
{
    let f = first_pass(start_of(ParserView::fresh(tokens)));
    let r = parse_outcome(ParserView::fresh(tokens)).result->Ok_0;
    let code = r.code_section.nodes;
    lemma_first_pass_tables(tokens);
    lemma_resolve_all_shape(f.nodes, f.parser.labels, f.parser.prog_is_static);
    assert forall|k: int| 0 <= k < code.len() implies is_call(#[trigger] code[k]) == is_call(
        f.nodes[k],
    ) by {
        assert(resolve(f.nodes[k], f.parser.labels, f.parser.prog_is_static) == Ok::<
            NodeView,
            ParseErrorView,
        >(code[k]));
    }
    if r.prog_is_static {
        assert forall|k: int| 0 <= k < code.len() implies !is_call(#[trigger] code[k]) by {
            assert(!is_call(f.nodes[k]));
        }
    } else {
        let k = choose|k: int| 0 <= k < f.nodes.len() && is_call(#[trigger] f.nodes[k]);
        assert(is_call(code[k]));
    }
}

/// A parsed program has no relocation exactly if no `call` and no `lddw` of
/// its source ends in a label.
pub proof fn lemma_relocations_empty(tokens: Seq<TokenView>)
    requires
        parse_outcome(ParserView::fresh(tokens)).result is Ok,
    ensures
        ({
            let f = first_pass(start_of(ParserView::fresh(tokens)));
            let r = parse_outcome(ParserView::fresh(tokens)).result->Ok_0;
            r.relocation_data.len() == 0 <==> forall|k: int|
                0 <= k < f.nodes.len() ==> !needs_relocation(#[trigger] f.nodes[k])
        }),
{
    lemma_first_pass_tables(tokens);
}

/// `prog_is_static` says whether the relocations are empty, for every
/// program in which a `call` names a label as soon as there is any `call`,
/// and in which an `lddw` names a label only where there is a `call` too.
/// The other programs are left out: one `lddw` of a label alone gives a
/// relocation and leaves the program static, and a `call` of a number alone
/// makes it dynamic with no relocation.
pub proof fn lemma_static_iff_no_relocations(tokens: Seq<TokenView>)
    requires
        parse_outcome(ParserView::fresh(tokens)).result is Ok,
        ({
            let nodes = first_pass(start_of(ParserView::fresh(tokens))).nodes;
            let some_call = exists|k: int| 0 <= k < nodes.len() && is_call(#[trigger] nodes[k]);
            let some_relocation = exists|k: int|
                0 <= k < nodes.len() && needs_relocation(#[trigger] nodes[k]);
            some_call == some_relocation
        }),
    ensures
        ({
            let r = parse_outcome(ParserView::fresh(tokens)).result->Ok_0;
            r.prog_is_static == (r.relocation_data.len() == 0)
        }),
{
    lemma_first_pass_tables(tokens);
}


spec fn labels_bounded() -> spec_fn(FirstPass) -> bool {
    |s: FirstPass|
        forall|name: Seq<u8>| #[trigger]
            s.parser.labels.contains_key(name) ==> s.parser.labels[name] <= s.parser.accum_offset
}

proof fn lemma_labels_bounded_step(t: FirstPass)
    requires
        labels_bounded()(t),
        0 <= t.parser.current < t.parser.tokens.len(),
        statement_error(t) is None,
    ensures
        labels_bounded()(statement_next(t)),
{
    match t.parser.tokens[t.parser.current] {
        TokenView::Opcode(mnemonic, _) => {
            let g = gather(t.parser.tokens, t.parser.current + 1, mnemonic);
            assert(promoted(mnemonic, g.operands).width() == mnemonic.width());
        },
        _ => {},
    }
}

/// After a parse of a whole token sequence, the size of the code is the
/// bytes that its instructions occupy, and the entry offset lies within it.
pub proof fn lemma_entry_in_code(tokens: Seq<TokenView>)
    requires
        parse_outcome(ParserView::fresh(tokens)).result is Ok,
    ensures
        ({
            let r = parse_outcome(ParserView::fresh(tokens)).result->Ok_0;
            &&& r.code_section.size == code_len(r.code_section.nodes)
            &&& r.entry_offset <= r.code_section.size
        }),
{
    let p = ParserView::fresh(tokens);
    let f = first_pass(start_of(p));
    let inv = labels_bounded();
    assert(inv(start_of(p)));
    assert forall|t: FirstPass|
        inv(t) && 0 <= t.parser.current < t.parser.tokens.len() && statement_error(t) is None
            implies #[trigger] inv(statement_next(t)) by {
        lemma_labels_bounded_step(t);
    }
    lemma_first_pass_induction(start_of(p), inv);
    lemma_first_pass_layout(p);
    lemma_resolve_all_shape(f.nodes, f.parser.labels, f.parser.prog_is_static);
    lemma_code_len_resolved(f.nodes, f.parser.labels, f.parser.prog_is_static, f.nodes.len() as int);
    let code = parse_outcome(p).result->Ok_0.code_section.nodes;
    assert(code.take(code.len() as int) =~= code);
    assert(f.nodes.take(f.nodes.len() as int) =~= f.nodes);
    lemma_first_pass_keeps_entry(start_of(p));
}

spec fn entry_kept(entry: u64) -> spec_fn(FirstPass) -> bool {
    |s: FirstPass| s.parser.entry_offset == entry
}

proof fn lemma_first_pass_keeps_entry(s: FirstPass)
    ensures
        first_pass(s).parser.entry_offset == s.parser.entry_offset,
{
    let inv = entry_kept(s.parser.entry_offset);
    assert(inv(s));
    lemma_first_pass_induction(s, inv);
}


/// Whether `offset` is where an instruction among `nodes` stands.
pub open spec fn holds_instruction_at(nodes: Seq<NodeView>, offset: u64) -> bool {
    exists|k: int|
        0 <= k < nodes.len() && (#[trigger] nodes[k] matches NodeView::Instruction {
            offset: at,
            ..
        } && at == offset)
}

spec fn labels_placed() -> spec_fn(FirstPass) -> bool {
    |s: FirstPass|
        forall|name: Seq<u8>| #[trigger]
            s.parser.labels.contains_key(name) ==> s.parser.labels[name] == s.parser.accum_offset
                || holds_instruction_at(s.nodes, s.parser.labels[name])
}

proof fn lemma_labels_placed_step(t: FirstPass)
    requires
        labels_placed()(t),
        0 <= t.parser.current < t.parser.tokens.len(),
        statement_error(t) is None,
    ensures
        labels_placed()(statement_next(t)),
{
    let n = statement_next(t);
    assert forall|name: Seq<u8>| #[trigger] n.parser.labels.contains_key(name) implies n.parser.labels[name]
        == n.parser.accum_offset || holds_instruction_at(n.nodes, n.parser.labels[name]) by {
        let v = n.parser.labels[name];
        if t.parser.labels.contains_key(name) && t.parser.labels[name] == v {
            if holds_instruction_at(t.nodes, v) {
                let k = choose|k: int|
                    0 <= k < t.nodes.len() && (#[trigger] t.nodes[k] matches NodeView::Instruction {
                        offset: at,
                        ..
                    } && at == v);
                assert(n.nodes[k] == t.nodes[k]);
            } else if n.parser.accum_offset != v {
                assert(n.nodes.len() == t.nodes.len() + 1);
                assert(n.nodes[n.nodes.len() - 1] is Instruction);
            }
        }
    }
}

/// After a parse of a whole token sequence, every label stands for the
/// offset of an instruction, the one that follows its definition, or, where
/// none follows, for the end of the code.
pub proof fn lemma_labels_at_instructions(tokens: Seq<TokenView>, name: Seq<u8>)
    requires
        parse_outcome(ParserView::fresh(tokens)).result is Ok,
        parse_outcome(ParserView::fresh(tokens)).parser.labels.contains_key(name),
    ensures
        ({
            let end = parse_outcome(ParserView::fresh(tokens));
            let code = end.result->Ok_0.code_section;
            end.parser.labels[name] == code.size || holds_instruction_at(
                code.nodes,
                end.parser.labels[name],
            )
        }),
{
    let p = ParserView::fresh(tokens);
    let f = first_pass(start_of(p));
    let inv = labels_placed();
    assert(inv(start_of(p)));
    assert forall|t: FirstPass|
        inv(t) && 0 <= t.parser.current < t.parser.tokens.len() && statement_error(t) is None
            implies #[trigger] inv(statement_next(t)) by {
        lemma_labels_placed_step(t);
    }
    lemma_first_pass_induction(start_of(p), inv);
    lemma_resolve_all_shape(f.nodes, f.parser.labels, f.parser.prog_is_static);
    let code = parse_outcome(p).result->Ok_0.code_section.nodes;
    let v = f.parser.labels[name];
    assert(f.parser.labels.contains_key(name));
    if holds_instruction_at(f.nodes, v) {
        let k = choose|k: int|
            0 <= k < f.nodes.len() && (#[trigger] f.nodes[k] matches NodeView::Instruction {
                offset: at,
                ..
            } && at == v);
        assert(resolve(f.nodes[k], f.parser.labels, f.parser.prog_is_static) == Ok::<
            NodeView,
            ParseErrorView,
        >(code[k]));
        assert(code[k] matches NodeView::Instruction { offset: at, .. } && at == v);
    }
}

} // verus!
