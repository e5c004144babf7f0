use vstd::prelude::*;
use vstd::string::*;
use crate::bytes::bytes_eq;

verus! {

/// An sBPF mnemonic or one of its concrete instruction forms.
///
/// Every arithmetic, logic and conditional-jump family has three members: the
/// one the lexer produces from the mnemonic alone (for instance `Add64`), and
/// the two the parser picks once it has seen the operands (`Add64Imm` for
/// register/immediate, `Add64Reg` for register/register). Only the last two
/// have an encoding.
#[derive(Clone, Copy, Debug, PartialEq, Eq, Hash, Structural)]
pub enum Opcode {
    Lddw,
    Ldxb,
    Ldxh,
    Ldxw,
    Ldxdw,
    Stb,
    Sth,
    Stw,
    Stdw,
    Stxb,
    Stxh,
    Stxw,
    Stxdw,
    Add32,
    Add32Imm,
    Add32Reg,
    Sub32,
    Sub32Imm,
    Sub32Reg,
    Mul32,
    Mul32Imm,
    Mul32Reg,
    Div32,
    Div32Imm,
    Div32Reg,
    Or32,
    Or32Imm,
    Or32Reg,
    And32,
    And32Imm,
    And32Reg,
    Lsh32,
    Lsh32Imm,
    Lsh32Reg,
    Rsh32,
    Rsh32Imm,
    Rsh32Reg,
    Mod32,
    Mod32Imm,
    Mod32Reg,
    Xor32,
    Xor32Imm,
    Xor32Reg,
    Mov32,
    Mov32Imm,
    Mov32Reg,
    Arsh32,
    Arsh32Imm,
    Arsh32Reg,
    Lmul32,
    Lmul32Imm,
    Lmul32Reg,
    Udiv32,
    Udiv32Imm,
    Udiv32Reg,
    Urem32,
    Urem32Imm,
    Urem32Reg,
    Sdiv32,
    Sdiv32Imm,
    Sdiv32Reg,
    Srem32,
    Srem32Imm,
    Srem32Reg,
    Neg32,
    Le,
    Be,
    Add64,
    Add64Imm,
    Add64Reg,
    Sub64,
    Sub64Imm,
    Sub64Reg,
    Mul64,
    Mul64Imm,
    Mul64Reg,
    Div64,
    Div64Imm,
    Div64Reg,
    Or64,
    Or64Imm,
    Or64Reg,
    And64,
    And64Imm,
    And64Reg,
    Lsh64,
    Lsh64Imm,
    Lsh64Reg,
    Rsh64,
    Rsh64Imm,
    Rsh64Reg,
    Mod64,
    Mod64Imm,
    Mod64Reg,
    Xor64,
    Xor64Imm,
    Xor64Reg,
    Mov64,
    Mov64Imm,
    Mov64Reg,
    Arsh64,
    Arsh64Imm,
    Arsh64Reg,
    Lmul64,
    Lmul64Imm,
    Lmul64Reg,
    Uhmul64,
    Uhmul64Imm,
    Uhmul64Reg,
    Udiv64,
    Udiv64Imm,
    Udiv64Reg,
    Urem64,
    Urem64Imm,
    Urem64Reg,
    Sdiv64,
    Sdiv64Imm,
    Sdiv64Reg,
    Srem64,
    Srem64Imm,
    Srem64Reg,
    Neg64,
    Ja,
    Jeq,
    JeqImm,
    JeqReg,
    Jgt,
    JgtImm,
    JgtReg,
    Jge,
    JgeImm,
    JgeReg,
    Jlt,
    JltImm,
    JltReg,
    Jle,
    JleImm,
    JleReg,
    Jset,
    JsetImm,
    JsetReg,
    Jne,
    JneImm,
    JneReg,
    Jsgt,
    JsgtImm,
    JsgtReg,
    Jsge,
    JsgeImm,
    JsgeReg,
    Jslt,
    JsltImm,
    JsltReg,
    Jsle,
    JsleImm,
    JsleReg,
    Call,
    Callx,
    Exit,
}

/// How the parser gathers the operands that follow a mnemonic.
#[derive(Clone, Copy, Debug, PartialEq, Eq, Hash, Structural)]
pub enum OperandRule {
    /// Arithmetic, logic, shift and move: up to two registers or immediates.
    Alu,
    /// Conditional jumps: up to two registers or immediates, then a label.
    ConditionalJump,
    /// `ja`: one label or immediate.
    Jump,
    /// `exit`: nothing.
    Nothing,
    /// Everything else: as many operands as follow.
    Greedy,
}

impl Opcode {
    /// The assembly mnemonic; the three members of a family share one.
    pub open spec fn mnemonic(self) -> &'static str {
        match self {
            Opcode::Lddw => "lddw",
            Opcode::Ldxb => "ldxb",
            Opcode::Ldxh => "ldxh",
            Opcode::Ldxw => "ldxw",
            Opcode::Ldxdw => "ldxdw",
            Opcode::Stb => "stb",
            Opcode::Sth => "sth",
            Opcode::Stw => "stw",
            Opcode::Stdw => "stdw",
            Opcode::Stxb => "stxb",
            Opcode::Stxh => "stxh",
            Opcode::Stxw => "stxw",
            Opcode::Stxdw => "stxdw",
            Opcode::Add32 | Opcode::Add32Imm | Opcode::Add32Reg => "add32",
            Opcode::Sub32 | Opcode::Sub32Imm | Opcode::Sub32Reg => "sub32",
            Opcode::Mul32 | Opcode::Mul32Imm | Opcode::Mul32Reg => "mul32",
            Opcode::Div32 | Opcode::Div32Imm | Opcode::Div32Reg => "div32",
            Opcode::Or32 | Opcode::Or32Imm | Opcode::Or32Reg => "or32",
            Opcode::And32 | Opcode::And32Imm | Opcode::And32Reg => "and32",
            Opcode::Lsh32 | Opcode::Lsh32Imm | Opcode::Lsh32Reg => "lsh32",
            Opcode::Rsh32 | Opcode::Rsh32Imm | Opcode::Rsh32Reg => "rsh32",
            Opcode::Mod32 | Opcode::Mod32Imm | Opcode::Mod32Reg => "mod32",
            Opcode::Xor32 | Opcode::Xor32Imm | Opcode::Xor32Reg => "xor32",
            Opcode::Mov32 | Opcode::Mov32Imm | Opcode::Mov32Reg => "mov32",
            Opcode::Arsh32 | Opcode::Arsh32Imm | Opcode::Arsh32Reg => "arsh32",
            Opcode::Lmul32 | Opcode::Lmul32Imm | Opcode::Lmul32Reg => "lmul32",
            Opcode::Udiv32 | Opcode::Udiv32Imm | Opcode::Udiv32Reg => "udiv32",
            Opcode::Urem32 | Opcode::Urem32Imm | Opcode::Urem32Reg => "urem32",
            Opcode::Sdiv32 | Opcode::Sdiv32Imm | Opcode::Sdiv32Reg => "sdiv32",
            Opcode::Srem32 | Opcode::Srem32Imm | Opcode::Srem32Reg => "srem32",
            Opcode::Neg32 => "neg32",
            Opcode::Le => "le",
            Opcode::Be => "be",
            Opcode::Add64 | Opcode::Add64Imm | Opcode::Add64Reg => "add64",
            Opcode::Sub64 | Opcode::Sub64Imm | Opcode::Sub64Reg => "sub64",
            Opcode::Mul64 | Opcode::Mul64Imm | Opcode::Mul64Reg => "mul64",
            Opcode::Div64 | Opcode::Div64Imm | Opcode::Div64Reg => "div64",
            Opcode::Or64 | Opcode::Or64Imm | Opcode::Or64Reg => "or64",
            Opcode::And64 | Opcode::And64Imm | Opcode::And64Reg => "and64",
            Opcode::Lsh64 | Opcode::Lsh64Imm | Opcode::Lsh64Reg => "lsh64",
            Opcode::Rsh64 | Opcode::Rsh64Imm | Opcode::Rsh64Reg => "rsh64",
            Opcode::Mod64 | Opcode::Mod64Imm | Opcode::Mod64Reg => "mod64",
            Opcode::Xor64 | Opcode::Xor64Imm | Opcode::Xor64Reg => "xor64",
            Opcode::Mov64 | Opcode::Mov64Imm | Opcode::Mov64Reg => "mov64",
            Opcode::Arsh64 | Opcode::Arsh64Imm | Opcode::Arsh64Reg => "arsh64",
            Opcode::Lmul64 | Opcode::Lmul64Imm | Opcode::Lmul64Reg => "lmul64",
            Opcode::Uhmul64 | Opcode::Uhmul64Imm | Opcode::Uhmul64Reg => "uhmul64",
            Opcode::Udiv64 | Opcode::Udiv64Imm | Opcode::Udiv64Reg => "udiv64",
            Opcode::Urem64 | Opcode::Urem64Imm | Opcode::Urem64Reg => "urem64",
            Opcode::Sdiv64 | Opcode::Sdiv64Imm | Opcode::Sdiv64Reg => "sdiv64",
            Opcode::Srem64 | Opcode::Srem64Imm | Opcode::Srem64Reg => "srem64",
            Opcode::Neg64 => "neg64",
            Opcode::Ja => "ja",
            Opcode::Jeq | Opcode::JeqImm | Opcode::JeqReg => "jeq",
            Opcode::Jgt | Opcode::JgtImm | Opcode::JgtReg => "jgt",
            Opcode::Jge | Opcode::JgeImm | Opcode::JgeReg => "jge",
            Opcode::Jlt | Opcode::JltImm | Opcode::JltReg => "jlt",
            Opcode::Jle | Opcode::JleImm | Opcode::JleReg => "jle",
            Opcode::Jset | Opcode::JsetImm | Opcode::JsetReg => "jset",
            Opcode::Jne | Opcode::JneImm | Opcode::JneReg => "jne",
            Opcode::Jsgt | Opcode::JsgtImm | Opcode::JsgtReg => "jsgt",
            Opcode::Jsge | Opcode::JsgeImm | Opcode::JsgeReg => "jsge",
            Opcode::Jslt | Opcode::JsltImm | Opcode::JsltReg => "jslt",
            Opcode::Jsle | Opcode::JsleImm | Opcode::JsleReg => "jsle",
            Opcode::Call => "call",
            Opcode::Callx => "callx",
            Opcode::Exit => "exit",
        }
    }

    /// The opcode byte of a concrete form; `None` for a family's mnemonic, which has none.
    pub open spec fn bytecode(self) -> Option<u8> {
        match self {
            Opcode::Lddw => Some(0x18u8),
            Opcode::Ldxb => Some(0x71u8),
            Opcode::Ldxh => Some(0x69u8),
            Opcode::Ldxw => Some(0x61u8),
            Opcode::Ldxdw => Some(0x79u8),
            Opcode::Stb => Some(0x72u8),
            Opcode::Sth => Some(0x6au8),
            Opcode::Stw => Some(0x62u8),
            Opcode::Stdw => Some(0x7au8),
            Opcode::Stxb => Some(0x73u8),
            Opcode::Stxh => Some(0x6bu8),
            Opcode::Stxw => Some(0x63u8),
            Opcode::Stxdw => Some(0x7bu8),
            Opcode::Add32Imm => Some(0x04u8),
            Opcode::Add32Reg => Some(0x0cu8),
            Opcode::Sub32Imm => Some(0x14u8),
            Opcode::Sub32Reg => Some(0x1cu8),
            Opcode::Mul32Imm => Some(0x24u8),
            Opcode::Mul32Reg => Some(0x2cu8),
            Opcode::Div32Imm => Some(0x34u8),
            Opcode::Div32Reg => Some(0x3cu8),
            Opcode::Or32Imm => Some(0x44u8),
            Opcode::Or32Reg => Some(0x4cu8),
            Opcode::And32Imm => Some(0x54u8),
            Opcode::And32Reg => Some(0x5cu8),
            Opcode::Lsh32Imm => Some(0x64u8),
            Opcode::Lsh32Reg => Some(0x6cu8),
            Opcode::Rsh32Imm => Some(0x74u8),
            Opcode::Rsh32Reg => Some(0x7cu8),
            Opcode::Mod32Imm => Some(0x94u8),
            Opcode::Mod32Reg => Some(0x9cu8),
            Opcode::Xor32Imm => Some(0xa4u8),
            Opcode::Xor32Reg => Some(0xacu8),
            Opcode::Mov32Imm => Some(0xb4u8),
            Opcode::Mov32Reg => Some(0xbcu8),
            Opcode::Arsh32Imm => Some(0xc4u8),
            Opcode::Arsh32Reg => Some(0xccu8),
            Opcode::Lmul32Imm => Some(0x86u8),
            Opcode::Lmul32Reg => Some(0x8eu8),
            Opcode::Udiv32Imm => Some(0x46u8),
            Opcode::Udiv32Reg => Some(0x4eu8),
            Opcode::Urem32Imm => Some(0x66u8),
            Opcode::Urem32Reg => Some(0x6eu8),
            Opcode::Sdiv32Imm => Some(0xc6u8),
            Opcode::Sdiv32Reg => Some(0xceu8),
            Opcode::Srem32Imm => Some(0xe6u8),
            Opcode::Srem32Reg => Some(0xeeu8),
            Opcode::Neg32 => Some(0x84u8),
            Opcode::Le => Some(0xd4u8),
            Opcode::Be => Some(0xdcu8),
            Opcode::Add64Imm => Some(0x07u8),
            Opcode::Add64Reg => Some(0x0fu8),
            Opcode::Sub64Imm => Some(0x17u8),
            Opcode::Sub64Reg => Some(0x1fu8),
            Opcode::Mul64Imm => Some(0x27u8),
            Opcode::Mul64Reg => Some(0x2fu8),
            Opcode::Div64Imm => Some(0x37u8),
            Opcode::Div64Reg => Some(0x3fu8),
            Opcode::Or64Imm => Some(0x47u8),
            Opcode::Or64Reg => Some(0x4fu8),
            Opcode::And64Imm => Some(0x57u8),
            Opcode::And64Reg => Some(0x5fu8),
            Opcode::Lsh64Imm => Some(0x67u8),
            Opcode::Lsh64Reg => Some(0x6fu8),
            Opcode::Rsh64Imm => Some(0x77u8),
            Opcode::Rsh64Reg => Some(0x7fu8),
            Opcode::Mod64Imm => Some(0x97u8),
            Opcode::Mod64Reg => Some(0x9fu8),
            Opcode::Xor64Imm => Some(0xa7u8),
            Opcode::Xor64Reg => Some(0xafu8),
            Opcode::Mov64Imm => Some(0xb7u8),
            Opcode::Mov64Reg => Some(0xbfu8),
            Opcode::Arsh64Imm => Some(0xc7u8),
            Opcode::Arsh64Reg => Some(0xcfu8),
            Opcode::Lmul64Imm => Some(0x96u8),
            Opcode::Lmul64Reg => Some(0x9eu8),
            Opcode::Uhmul64Imm => Some(0x36u8),
            Opcode::Uhmul64Reg => Some(0x3eu8),
            Opcode::Udiv64Imm => Some(0x56u8),
            Opcode::Udiv64Reg => Some(0x5eu8),
            Opcode::Urem64Imm => Some(0x76u8),
            Opcode::Urem64Reg => Some(0x7eu8),
            Opcode::Sdiv64Imm => Some(0xd6u8),
            Opcode::Sdiv64Reg => Some(0xdeu8),
            Opcode::Srem64Imm => Some(0xf6u8),
            Opcode::Srem64Reg => Some(0xfeu8),
            Opcode::Neg64 => Some(0x87u8),
            Opcode::Ja => Some(0x05u8),
            Opcode::JeqImm => Some(0x15u8),
            Opcode::JeqReg => Some(0x1du8),
            Opcode::JgtImm => Some(0x25u8),
            Opcode::JgtReg => Some(0x2du8),
            Opcode::JgeImm => Some(0x35u8),
            Opcode::JgeReg => Some(0x3du8),
            Opcode::JltImm => Some(0xa5u8),
            Opcode::JltReg => Some(0xadu8),
            Opcode::JleImm => Some(0xb5u8),
            Opcode::JleReg => Some(0xbdu8),
            Opcode::JsetImm => Some(0x45u8),
            Opcode::JsetReg => Some(0x4du8),
            Opcode::JneImm => Some(0x55u8),
            Opcode::JneReg => Some(0x5du8),
            Opcode::JsgtImm => Some(0x65u8),
            Opcode::JsgtReg => Some(0x6du8),
            Opcode::JsgeImm => Some(0x75u8),
            Opcode::JsgeReg => Some(0x7du8),
            Opcode::JsltImm => Some(0xc5u8),
            Opcode::JsltReg => Some(0xcdu8),
            Opcode::JsleImm => Some(0xd5u8),
            Opcode::JsleReg => Some(0xddu8),
            Opcode::Call => Some(0x85u8),
            Opcode::Callx => Some(0x8du8),
            Opcode::Exit => Some(0x95u8),
            _ => None,
        }
    }

    /// The register/immediate member of the family that `self` names.
    pub open spec fn imm_form(self) -> Option<Opcode> {
        match self {
            Opcode::Add32 => Some(Opcode::Add32Imm),
            Opcode::Sub32 => Some(Opcode::Sub32Imm),
            Opcode::Mul32 => Some(Opcode::Mul32Imm),
            Opcode::Div32 => Some(Opcode::Div32Imm),
            Opcode::Or32 => Some(Opcode::Or32Imm),
            Opcode::And32 => Some(Opcode::And32Imm),
            Opcode::Lsh32 => Some(Opcode::Lsh32Imm),
            Opcode::Rsh32 => Some(Opcode::Rsh32Imm),
            Opcode::Mod32 => Some(Opcode::Mod32Imm),
            Opcode::Xor32 => Some(Opcode::Xor32Imm),
            Opcode::Mov32 => Some(Opcode::Mov32Imm),
            Opcode::Arsh32 => Some(Opcode::Arsh32Imm),
            Opcode::Lmul32 => Some(Opcode::Lmul32Imm),
            Opcode::Udiv32 => Some(Opcode::Udiv32Imm),
            Opcode::Urem32 => Some(Opcode::Urem32Imm),
            Opcode::Sdiv32 => Some(Opcode::Sdiv32Imm),
            Opcode::Srem32 => Some(Opcode::Srem32Imm),
            Opcode::Add64 => Some(Opcode::Add64Imm),
            Opcode::Sub64 => Some(Opcode::Sub64Imm),
            Opcode::Mul64 => Some(Opcode::Mul64Imm),
            Opcode::Div64 => Some(Opcode::Div64Imm),
            Opcode::Or64 => Some(Opcode::Or64Imm),
            Opcode::And64 => Some(Opcode::And64Imm),
            Opcode::Lsh64 => Some(Opcode::Lsh64Imm),
            Opcode::Rsh64 => Some(Opcode::Rsh64Imm),
            Opcode::Mod64 => Some(Opcode::Mod64Imm),
            Opcode::Xor64 => Some(Opcode::Xor64Imm),
            Opcode::Mov64 => Some(Opcode::Mov64Imm),
            Opcode::Arsh64 => Some(Opcode::Arsh64Imm),
            Opcode::Lmul64 => Some(Opcode::Lmul64Imm),
            Opcode::Uhmul64 => Some(Opcode::Uhmul64Imm),
            Opcode::Udiv64 => Some(Opcode::Udiv64Imm),
            Opcode::Urem64 => Some(Opcode::Urem64Imm),
            Opcode::Sdiv64 => Some(Opcode::Sdiv64Imm),
            Opcode::Srem64 => Some(Opcode::Srem64Imm),
            Opcode::Jeq => Some(Opcode::JeqImm),
            Opcode::Jgt => Some(Opcode::JgtImm),
            Opcode::Jge => Some(Opcode::JgeImm),
            Opcode::Jlt => Some(Opcode::JltImm),
            Opcode::Jle => Some(Opcode::JleImm),
            Opcode::Jset => Some(Opcode::JsetImm),
            Opcode::Jne => Some(Opcode::JneImm),
            Opcode::Jsgt => Some(Opcode::JsgtImm),
            Opcode::Jsge => Some(Opcode::JsgeImm),
            Opcode::Jslt => Some(Opcode::JsltImm),
            Opcode::Jsle => Some(Opcode::JsleImm),
            _ => None,
        }
    }

    /// The register/register member of the family that `self` names.
    pub open spec fn reg_form(self) -> Option<Opcode> {
        match self {
            Opcode::Add32 => Some(Opcode::Add32Reg),
            Opcode::Sub32 => Some(Opcode::Sub32Reg),
            Opcode::Mul32 => Some(Opcode::Mul32Reg),
            Opcode::Div32 => Some(Opcode::Div32Reg),
            Opcode::Or32 => Some(Opcode::Or32Reg),
            Opcode::And32 => Some(Opcode::And32Reg),
            Opcode::Lsh32 => Some(Opcode::Lsh32Reg),
            Opcode::Rsh32 => Some(Opcode::Rsh32Reg),
            Opcode::Mod32 => Some(Opcode::Mod32Reg),
            Opcode::Xor32 => Some(Opcode::Xor32Reg),
            Opcode::Mov32 => Some(Opcode::Mov32Reg),
            Opcode::Arsh32 => Some(Opcode::Arsh32Reg),
            Opcode::Lmul32 => Some(Opcode::Lmul32Reg),
            Opcode::Udiv32 => Some(Opcode::Udiv32Reg),
            Opcode::Urem32 => Some(Opcode::Urem32Reg),
            Opcode::Sdiv32 => Some(Opcode::Sdiv32Reg),
            Opcode::Srem32 => Some(Opcode::Srem32Reg),
            Opcode::Add64 => Some(Opcode::Add64Reg),
            Opcode::Sub64 => Some(Opcode::Sub64Reg),
            Opcode::Mul64 => Some(Opcode::Mul64Reg),
            Opcode::Div64 => Some(Opcode::Div64Reg),
            Opcode::Or64 => Some(Opcode::Or64Reg),
            Opcode::And64 => Some(Opcode::And64Reg),
            Opcode::Lsh64 => Some(Opcode::Lsh64Reg),
            Opcode::Rsh64 => Some(Opcode::Rsh64Reg),
            Opcode::Mod64 => Some(Opcode::Mod64Reg),
            Opcode::Xor64 => Some(Opcode::Xor64Reg),
            Opcode::Mov64 => Some(Opcode::Mov64Reg),
            Opcode::Arsh64 => Some(Opcode::Arsh64Reg),
            Opcode::Lmul64 => Some(Opcode::Lmul64Reg),
            Opcode::Uhmul64 => Some(Opcode::Uhmul64Reg),
            Opcode::Udiv64 => Some(Opcode::Udiv64Reg),
            Opcode::Urem64 => Some(Opcode::Urem64Reg),
            Opcode::Sdiv64 => Some(Opcode::Sdiv64Reg),
            Opcode::Srem64 => Some(Opcode::Srem64Reg),
            Opcode::Jeq => Some(Opcode::JeqReg),
            Opcode::Jgt => Some(Opcode::JgtReg),
            Opcode::Jge => Some(Opcode::JgeReg),
            Opcode::Jlt => Some(Opcode::JltReg),
            Opcode::Jle => Some(Opcode::JleReg),
            Opcode::Jset => Some(Opcode::JsetReg),
            Opcode::Jne => Some(Opcode::JneReg),
            Opcode::Jsgt => Some(Opcode::JsgtReg),
            Opcode::Jsge => Some(Opcode::JsgeReg),
            Opcode::Jslt => Some(Opcode::JsltReg),
            Opcode::Jsle => Some(Opcode::JsleReg),
            _ => None,
        }
    }

    /// False for the register/immediate and register/register members of a family,
    /// which no mnemonic names directly.
    pub open spec fn is_source_form(self) -> bool {
        match self {
            Opcode::Add32Imm | Opcode::Add32Reg | Opcode::Sub32Imm | Opcode::Sub32Reg
            | Opcode::Mul32Imm | Opcode::Mul32Reg | Opcode::Div32Imm | Opcode::Div32Reg
            | Opcode::Or32Imm | Opcode::Or32Reg | Opcode::And32Imm | Opcode::And32Reg
            | Opcode::Lsh32Imm | Opcode::Lsh32Reg | Opcode::Rsh32Imm | Opcode::Rsh32Reg
            | Opcode::Mod32Imm | Opcode::Mod32Reg | Opcode::Xor32Imm | Opcode::Xor32Reg
            | Opcode::Mov32Imm | Opcode::Mov32Reg | Opcode::Arsh32Imm | Opcode::Arsh32Reg
            | Opcode::Lmul32Imm | Opcode::Lmul32Reg | Opcode::Udiv32Imm | Opcode::Udiv32Reg
            | Opcode::Urem32Imm | Opcode::Urem32Reg | Opcode::Sdiv32Imm | Opcode::Sdiv32Reg
            | Opcode::Srem32Imm | Opcode::Srem32Reg | Opcode::Add64Imm | Opcode::Add64Reg
            | Opcode::Sub64Imm | Opcode::Sub64Reg | Opcode::Mul64Imm | Opcode::Mul64Reg
            | Opcode::Div64Imm | Opcode::Div64Reg | Opcode::Or64Imm | Opcode::Or64Reg
            | Opcode::And64Imm | Opcode::And64Reg | Opcode::Lsh64Imm | Opcode::Lsh64Reg
            | Opcode::Rsh64Imm | Opcode::Rsh64Reg | Opcode::Mod64Imm | Opcode::Mod64Reg
            | Opcode::Xor64Imm | Opcode::Xor64Reg | Opcode::Mov64Imm | Opcode::Mov64Reg
            | Opcode::Arsh64Imm | Opcode::Arsh64Reg | Opcode::Lmul64Imm | Opcode::Lmul64Reg
            | Opcode::Uhmul64Imm | Opcode::Uhmul64Reg | Opcode::Udiv64Imm | Opcode::Udiv64Reg
            | Opcode::Urem64Imm | Opcode::Urem64Reg | Opcode::Sdiv64Imm | Opcode::Sdiv64Reg
            | Opcode::Srem64Imm | Opcode::Srem64Reg | Opcode::JeqImm | Opcode::JeqReg
            | Opcode::JgtImm | Opcode::JgtReg | Opcode::JgeImm | Opcode::JgeReg
            | Opcode::JltImm | Opcode::JltReg | Opcode::JleImm | Opcode::JleReg
            | Opcode::JsetImm | Opcode::JsetReg | Opcode::JneImm | Opcode::JneReg
            | Opcode::JsgtImm | Opcode::JsgtReg | Opcode::JsgeImm | Opcode::JsgeReg
            | Opcode::JsltImm | Opcode::JsltReg | Opcode::JsleImm | Opcode::JsleReg => false,
            _ => true,
        }
    }

    /// How the parser gathers the operands that follow this mnemonic.
    pub open spec fn spec_operand_rule(self) -> OperandRule {
        match self {
            Opcode::Add32 | Opcode::Sub32 | Opcode::Mul32 | Opcode::Div32 | Opcode::Or32
            | Opcode::And32 | Opcode::Lsh32 | Opcode::Rsh32 | Opcode::Mod32 | Opcode::Xor32
            | Opcode::Mov32 | Opcode::Arsh32 | Opcode::Lmul32 | Opcode::Udiv32 | Opcode::Urem32
            | Opcode::Sdiv32 | Opcode::Srem32 | Opcode::Add64 | Opcode::Sub64 | Opcode::Mul64
            | Opcode::Div64 | Opcode::Or64 | Opcode::And64 | Opcode::Lsh64 | Opcode::Rsh64
            | Opcode::Mod64 | Opcode::Xor64 | Opcode::Mov64 | Opcode::Arsh64 | Opcode::Lmul64
            | Opcode::Uhmul64 | Opcode::Udiv64 | Opcode::Urem64 | Opcode::Sdiv64
            | Opcode::Srem64 | Opcode::Neg32 => OperandRule::Alu,
            Opcode::Jeq | Opcode::Jgt | Opcode::Jge | Opcode::Jlt | Opcode::Jle | Opcode::Jset
            | Opcode::Jne | Opcode::Jsgt | Opcode::Jsge | Opcode::Jslt | Opcode::Jsle => OperandRule::ConditionalJump,
            Opcode::Ja => OperandRule::Jump,
            Opcode::Exit => OperandRule::Nothing,
            _ => OperandRule::Greedy,
        }
    }

    /// `ja`, or a conditional jump whose form is known.
    pub open spec fn spec_is_jump(self) -> bool {
        match self {
            Opcode::Ja | Opcode::JeqImm | Opcode::JeqReg | Opcode::JgtImm | Opcode::JgtReg
            | Opcode::JgeImm | Opcode::JgeReg | Opcode::JltImm | Opcode::JltReg
            | Opcode::JleImm | Opcode::JleReg | Opcode::JsetImm | Opcode::JsetReg
            | Opcode::JneImm | Opcode::JneReg | Opcode::JsgtImm | Opcode::JsgtReg
            | Opcode::JsgeImm | Opcode::JsgeReg | Opcode::JsltImm | Opcode::JsltReg
            | Opcode::JsleImm | Opcode::JsleReg => true,
            _ => false,
        }
    }

    /// Bytes that an instruction with this opcode occupies.
    pub open spec fn spec_width(self) -> u64 {
        if self == Opcode::Lddw {
            16
        } else {
            8
        }
    }

    /// The opcode that a byte stands for.
    pub open spec fn of_byte(byte: u8) -> Option<Opcode> {
        match byte {
            0x04u8 => Some(Opcode::Add32Imm),
            0x05u8 => Some(Opcode::Ja),
            0x07u8 => Some(Opcode::Add64Imm),
            0x0cu8 => Some(Opcode::Add32Reg),
            0x0fu8 => Some(Opcode::Add64Reg),
            0x14u8 => Some(Opcode::Sub32Imm),
            0x15u8 => Some(Opcode::JeqImm),
            0x17u8 => Some(Opcode::Sub64Imm),
            0x18u8 => Some(Opcode::Lddw),
            0x1cu8 => Some(Opcode::Sub32Reg),
            0x1du8 => Some(Opcode::JeqReg),
            0x1fu8 => Some(Opcode::Sub64Reg),
            0x24u8 => Some(Opcode::Mul32Imm),
            0x25u8 => Some(Opcode::JgtImm),
            0x27u8 => Some(Opcode::Mul64Imm),
            0x2cu8 => Some(Opcode::Mul32Reg),
            0x2du8 => Some(Opcode::JgtReg),
            0x2fu8 => Some(Opcode::Mul64Reg),
            0x34u8 => Some(Opcode::Div32Imm),
            0x35u8 => Some(Opcode::JgeImm),
            0x36u8 => Some(Opcode::Uhmul64Imm),
            0x37u8 => Some(Opcode::Div64Imm),
            0x3cu8 => Some(Opcode::Div32Reg),
            0x3du8 => Some(Opcode::JgeReg),
            0x3eu8 => Some(Opcode::Uhmul64Reg),
            0x3fu8 => Some(Opcode::Div64Reg),
            0x44u8 => Some(Opcode::Or32Imm),
            0x45u8 => Some(Opcode::JsetImm),
            0x46u8 => Some(Opcode::Udiv32Imm),
            0x47u8 => Some(Opcode::Or64Imm),
            0x4cu8 => Some(Opcode::Or32Reg),
            0x4du8 => Some(Opcode::JsetReg),
            0x4eu8 => Some(Opcode::Udiv32Reg),
            0x4fu8 => Some(Opcode::Or64Reg),
            0x54u8 => Some(Opcode::And32Imm),
            0x55u8 => Some(Opcode::JneImm),
            0x56u8 => Some(Opcode::Udiv64Imm),
            0x57u8 => Some(Opcode::And64Imm),
            0x5cu8 => Some(Opcode::And32Reg),
            0x5du8 => Some(Opcode::JneReg),
            0x5eu8 => Some(Opcode::Udiv64Reg),
            0x5fu8 => Some(Opcode::And64Reg),
            0x61u8 => Some(Opcode::Ldxw),
            0x62u8 => Some(Opcode::Stw),
            0x63u8 => Some(Opcode::Stxw),
            0x64u8 => Some(Opcode::Lsh32Imm),
            0x65u8 => Some(Opcode::JsgtImm),
            0x66u8 => Some(Opcode::Urem32Imm),
            0x67u8 => Some(Opcode::Lsh64Imm),
            0x69u8 => Some(Opcode::Ldxh),
            0x6au8 => Some(Opcode::Sth),
            0x6bu8 => Some(Opcode::Stxh),
            0x6cu8 => Some(Opcode::Lsh32Reg),
            0x6du8 => Some(Opcode::JsgtReg),
            0x6eu8 => Some(Opcode::Urem32Reg),
            0x6fu8 => Some(Opcode::Lsh64Reg),
            0x71u8 => Some(Opcode::Ldxb),
            0x72u8 => Some(Opcode::Stb),
            0x73u8 => Some(Opcode::Stxb),
            0x74u8 => Some(Opcode::Rsh32Imm),
            0x75u8 => Some(Opcode::JsgeImm),
            0x76u8 => Some(Opcode::Urem64Imm),
            0x77u8 => Some(Opcode::Rsh64Imm),
            0x79u8 => Some(Opcode::Ldxdw),
            0x7au8 => Some(Opcode::Stdw),
            0x7bu8 => Some(Opcode::Stxdw),
            0x7cu8 => Some(Opcode::Rsh32Reg),
            0x7du8 => Some(Opcode::JsgeReg),
            0x7eu8 => Some(Opcode::Urem64Reg),
            0x7fu8 => Some(Opcode::Rsh64Reg),
            0x84u8 => Some(Opcode::Neg32),
            0x85u8 => Some(Opcode::Call),
            0x86u8 => Some(Opcode::Lmul32Imm),
            0x87u8 => Some(Opcode::Neg64),
            0x8du8 => Some(Opcode::Callx),
            0x8eu8 => Some(Opcode::Lmul32Reg),
            0x94u8 => Some(Opcode::Mod32Imm),
            0x95u8 => Some(Opcode::Exit),
            0x96u8 => Some(Opcode::Lmul64Imm),
            0x97u8 => Some(Opcode::Mod64Imm),
            0x9cu8 => Some(Opcode::Mod32Reg),
            0x9eu8 => Some(Opcode::Lmul64Reg),
            0x9fu8 => Some(Opcode::Mod64Reg),
            0xa4u8 => Some(Opcode::Xor32Imm),
            0xa5u8 => Some(Opcode::JltImm),
            0xa7u8 => Some(Opcode::Xor64Imm),
            0xacu8 => Some(Opcode::Xor32Reg),
            0xadu8 => Some(Opcode::JltReg),
            0xafu8 => Some(Opcode::Xor64Reg),
            0xb4u8 => Some(Opcode::Mov32Imm),
            0xb5u8 => Some(Opcode::JleImm),
            0xb7u8 => Some(Opcode::Mov64Imm),
            0xbcu8 => Some(Opcode::Mov32Reg),
            0xbdu8 => Some(Opcode::JleReg),
            0xbfu8 => Some(Opcode::Mov64Reg),
            0xc4u8 => Some(Opcode::Arsh32Imm),
            0xc5u8 => Some(Opcode::JsltImm),
            0xc6u8 => Some(Opcode::Sdiv32Imm),
            0xc7u8 => Some(Opcode::Arsh64Imm),
            0xccu8 => Some(Opcode::Arsh32Reg),
            0xcdu8 => Some(Opcode::JsltReg),
            0xceu8 => Some(Opcode::Sdiv32Reg),
            0xcfu8 => Some(Opcode::Arsh64Reg),
            0xd4u8 => Some(Opcode::Le),
            0xd5u8 => Some(Opcode::JsleImm),
            0xd6u8 => Some(Opcode::Sdiv64Imm),
            0xdcu8 => Some(Opcode::Be),
            0xddu8 => Some(Opcode::JsleReg),
            0xdeu8 => Some(Opcode::Sdiv64Reg),
            0xe6u8 => Some(Opcode::Srem32Imm),
            0xeeu8 => Some(Opcode::Srem32Reg),
            0xf6u8 => Some(Opcode::Srem64Imm),
            0xfeu8 => Some(Opcode::Srem64Reg),
            _ => None,
        }
    }

    /// `of_byte` is the inverse of `bytecode`.
    #[verifier::rlimit(50)]
    pub proof fn lemma_byte_table(byte: u8)
        ensures
            forall|o: Opcode| Opcode::of_byte(byte) == Some(o) <==> #[trigger] o.bytecode() == Some(byte),
    {
    }

    /// Bytes that an instruction with this opcode occupies: 16 for `lddw`, 8 for every other.
    #[verifier::when_used_as_spec(spec_width)]
    pub fn width(self) -> (w: u64)
        ensures
            w == self.spec_width(),
    {
        match self {
            Opcode::Lddw => 16,
            _ => 8,
        }
    }

    /// The assembly mnemonic.
    pub fn to_str(self) -> (s: &'static str)
        ensures
            s == self.mnemonic(),
    {
        match self {
            Opcode::Lddw => "lddw",
            Opcode::Ldxb => "ldxb",
            Opcode::Ldxh => "ldxh",
            Opcode::Ldxw => "ldxw",
            Opcode::Ldxdw => "ldxdw",
            Opcode::Stb => "stb",
            Opcode::Sth => "sth",
            Opcode::Stw => "stw",
            Opcode::Stdw => "stdw",
            Opcode::Stxb => "stxb",
            Opcode::Stxh => "stxh",
            Opcode::Stxw => "stxw",
            Opcode::Stxdw => "stxdw",
            Opcode::Add32 | Opcode::Add32Imm | Opcode::Add32Reg => "add32",
            Opcode::Sub32 | Opcode::Sub32Imm | Opcode::Sub32Reg => "sub32",
            Opcode::Mul32 | Opcode::Mul32Imm | Opcode::Mul32Reg => "mul32",
            Opcode::Div32 | Opcode::Div32Imm | Opcode::Div32Reg => "div32",
            Opcode::Or32 | Opcode::Or32Imm | Opcode::Or32Reg => "or32",
            Opcode::And32 | Opcode::And32Imm | Opcode::And32Reg => "and32",
            Opcode::Lsh32 | Opcode::Lsh32Imm | Opcode::Lsh32Reg => "lsh32",
            Opcode::Rsh32 | Opcode::Rsh32Imm | Opcode::Rsh32Reg => "rsh32",
            Opcode::Mod32 | Opcode::Mod32Imm | Opcode::Mod32Reg => "mod32",
            Opcode::Xor32 | Opcode::Xor32Imm | Opcode::Xor32Reg => "xor32",
            Opcode::Mov32 | Opcode::Mov32Imm | Opcode::Mov32Reg => "mov32",
            Opcode::Arsh32 | Opcode::Arsh32Imm | Opcode::Arsh32Reg => "arsh32",
            Opcode::Lmul32 | Opcode::Lmul32Imm | Opcode::Lmul32Reg => "lmul32",
            Opcode::Udiv32 | Opcode::Udiv32Imm | Opcode::Udiv32Reg => "udiv32",
            Opcode::Urem32 | Opcode::Urem32Imm | Opcode::Urem32Reg => "urem32",
            Opcode::Sdiv32 | Opcode::Sdiv32Imm | Opcode::Sdiv32Reg => "sdiv32",
            Opcode::Srem32 | Opcode::Srem32Imm | Opcode::Srem32Reg => "srem32",
            Opcode::Neg32 => "neg32",
            Opcode::Le => "le",
            Opcode::Be => "be",
            Opcode::Add64 | Opcode::Add64Imm | Opcode::Add64Reg => "add64",
            Opcode::Sub64 | Opcode::Sub64Imm | Opcode::Sub64Reg => "sub64",
            Opcode::Mul64 | Opcode::Mul64Imm | Opcode::Mul64Reg => "mul64",
            Opcode::Div64 | Opcode::Div64Imm | Opcode::Div64Reg => "div64",
            Opcode::Or64 | Opcode::Or64Imm | Opcode::Or64Reg => "or64",
            Opcode::And64 | Opcode::And64Imm | Opcode::And64Reg => "and64",
            Opcode::Lsh64 | Opcode::Lsh64Imm | Opcode::Lsh64Reg => "lsh64",
            Opcode::Rsh64 | Opcode::Rsh64Imm | Opcode::Rsh64Reg => "rsh64",
            Opcode::Mod64 | Opcode::Mod64Imm | Opcode::Mod64Reg => "mod64",
            Opcode::Xor64 | Opcode::Xor64Imm | Opcode::Xor64Reg => "xor64",
            Opcode::Mov64 | Opcode::Mov64Imm | Opcode::Mov64Reg => "mov64",
            Opcode::Arsh64 | Opcode::Arsh64Imm | Opcode::Arsh64Reg => "arsh64",
            Opcode::Lmul64 | Opcode::Lmul64Imm | Opcode::Lmul64Reg => "lmul64",
            Opcode::Uhmul64 | Opcode::Uhmul64Imm | Opcode::Uhmul64Reg => "uhmul64",
            Opcode::Udiv64 | Opcode::Udiv64Imm | Opcode::Udiv64Reg => "udiv64",
            Opcode::Urem64 | Opcode::Urem64Imm | Opcode::Urem64Reg => "urem64",
            Opcode::Sdiv64 | Opcode::Sdiv64Imm | Opcode::Sdiv64Reg => "sdiv64",
            Opcode::Srem64 | Opcode::Srem64Imm | Opcode::Srem64Reg => "srem64",
            Opcode::Neg64 => "neg64",
            Opcode::Ja => "ja",
            Opcode::Jeq | Opcode::JeqImm | Opcode::JeqReg => "jeq",
            Opcode::Jgt | Opcode::JgtImm | Opcode::JgtReg => "jgt",
            Opcode::Jge | Opcode::JgeImm | Opcode::JgeReg => "jge",
            Opcode::Jlt | Opcode::JltImm | Opcode::JltReg => "jlt",
            Opcode::Jle | Opcode::JleImm | Opcode::JleReg => "jle",
            Opcode::Jset | Opcode::JsetImm | Opcode::JsetReg => "jset",
            Opcode::Jne | Opcode::JneImm | Opcode::JneReg => "jne",
            Opcode::Jsgt | Opcode::JsgtImm | Opcode::JsgtReg => "jsgt",
            Opcode::Jsge | Opcode::JsgeImm | Opcode::JsgeReg => "jsge",
            Opcode::Jslt | Opcode::JsltImm | Opcode::JsltReg => "jslt",
            Opcode::Jsle | Opcode::JsleImm | Opcode::JsleReg => "jsle",
            Opcode::Call => "call",
            Opcode::Callx => "callx",
            Opcode::Exit => "exit",
        }
    }

    /// The opcode byte of a concrete form.
    pub fn to_bytecode(self) -> (b: Option<u8>)
        ensures
            b == self.bytecode(),
    {
        match self {
            Opcode::Lddw => Some(0x18u8),
            Opcode::Ldxb => Some(0x71u8),
            Opcode::Ldxh => Some(0x69u8),
            Opcode::Ldxw => Some(0x61u8),
            Opcode::Ldxdw => Some(0x79u8),
            Opcode::Stb => Some(0x72u8),
            Opcode::Sth => Some(0x6au8),
            Opcode::Stw => Some(0x62u8),
            Opcode::Stdw => Some(0x7au8),
            Opcode::Stxb => Some(0x73u8),
            Opcode::Stxh => Some(0x6bu8),
            Opcode::Stxw => Some(0x63u8),
            Opcode::Stxdw => Some(0x7bu8),
            Opcode::Add32Imm => Some(0x04u8),
            Opcode::Add32Reg => Some(0x0cu8),
            Opcode::Sub32Imm => Some(0x14u8),
            Opcode::Sub32Reg => Some(0x1cu8),
            Opcode::Mul32Imm => Some(0x24u8),
            Opcode::Mul32Reg => Some(0x2cu8),
            Opcode::Div32Imm => Some(0x34u8),
            Opcode::Div32Reg => Some(0x3cu8),
            Opcode::Or32Imm => Some(0x44u8),
            Opcode::Or32Reg => Some(0x4cu8),
            Opcode::And32Imm => Some(0x54u8),
            Opcode::And32Reg => Some(0x5cu8),
            Opcode::Lsh32Imm => Some(0x64u8),
            Opcode::Lsh32Reg => Some(0x6cu8),
            Opcode::Rsh32Imm => Some(0x74u8),
            Opcode::Rsh32Reg => Some(0x7cu8),
            Opcode::Mod32Imm => Some(0x94u8),
            Opcode::Mod32Reg => Some(0x9cu8),
            Opcode::Xor32Imm => Some(0xa4u8),
            Opcode::Xor32Reg => Some(0xacu8),
            Opcode::Mov32Imm => Some(0xb4u8),
            Opcode::Mov32Reg => Some(0xbcu8),
            Opcode::Arsh32Imm => Some(0xc4u8),
            Opcode::Arsh32Reg => Some(0xccu8),
            Opcode::Lmul32Imm => Some(0x86u8),
            Opcode::Lmul32Reg => Some(0x8eu8),
            Opcode::Udiv32Imm => Some(0x46u8),
            Opcode::Udiv32Reg => Some(0x4eu8),
            Opcode::Urem32Imm => Some(0x66u8),
            Opcode::Urem32Reg => Some(0x6eu8),
            Opcode::Sdiv32Imm => Some(0xc6u8),
            Opcode::Sdiv32Reg => Some(0xceu8),
            Opcode::Srem32Imm => Some(0xe6u8),
            Opcode::Srem32Reg => Some(0xeeu8),
            Opcode::Neg32 => Some(0x84u8),
            Opcode::Le => Some(0xd4u8),
            Opcode::Be => Some(0xdcu8),
            Opcode::Add64Imm => Some(0x07u8),
            Opcode::Add64Reg => Some(0x0fu8),
            Opcode::Sub64Imm => Some(0x17u8),
            Opcode::Sub64Reg => Some(0x1fu8),
            Opcode::Mul64Imm => Some(0x27u8),
            Opcode::Mul64Reg => Some(0x2fu8),
            Opcode::Div64Imm => Some(0x37u8),
            Opcode::Div64Reg => Some(0x3fu8),
            Opcode::Or64Imm => Some(0x47u8),
            Opcode::Or64Reg => Some(0x4fu8),
            Opcode::And64Imm => Some(0x57u8),
            Opcode::And64Reg => Some(0x5fu8),
            Opcode::Lsh64Imm => Some(0x67u8),
            Opcode::Lsh64Reg => Some(0x6fu8),
            Opcode::Rsh64Imm => Some(0x77u8),
            Opcode::Rsh64Reg => Some(0x7fu8),
            Opcode::Mod64Imm => Some(0x97u8),
            Opcode::Mod64Reg => Some(0x9fu8),
            Opcode::Xor64Imm => Some(0xa7u8),
            Opcode::Xor64Reg => Some(0xafu8),
            Opcode::Mov64Imm => Some(0xb7u8),
            Opcode::Mov64Reg => Some(0xbfu8),
            Opcode::Arsh64Imm => Some(0xc7u8),
            Opcode::Arsh64Reg => Some(0xcfu8),
            Opcode::Lmul64Imm => Some(0x96u8),
            Opcode::Lmul64Reg => Some(0x9eu8),
            Opcode::Uhmul64Imm => Some(0x36u8),
            Opcode::Uhmul64Reg => Some(0x3eu8),
            Opcode::Udiv64Imm => Some(0x56u8),
            Opcode::Udiv64Reg => Some(0x5eu8),
            Opcode::Urem64Imm => Some(0x76u8),
            Opcode::Urem64Reg => Some(0x7eu8),
            Opcode::Sdiv64Imm => Some(0xd6u8),
            Opcode::Sdiv64Reg => Some(0xdeu8),
            Opcode::Srem64Imm => Some(0xf6u8),
            Opcode::Srem64Reg => Some(0xfeu8),
            Opcode::Neg64 => Some(0x87u8),
            Opcode::Ja => Some(0x05u8),
            Opcode::JeqImm => Some(0x15u8),
            Opcode::JeqReg => Some(0x1du8),
            Opcode::JgtImm => Some(0x25u8),
            Opcode::JgtReg => Some(0x2du8),
            Opcode::JgeImm => Some(0x35u8),
            Opcode::JgeReg => Some(0x3du8),
            Opcode::JltImm => Some(0xa5u8),
            Opcode::JltReg => Some(0xadu8),
            Opcode::JleImm => Some(0xb5u8),
            Opcode::JleReg => Some(0xbdu8),
            Opcode::JsetImm => Some(0x45u8),
            Opcode::JsetReg => Some(0x4du8),
            Opcode::JneImm => Some(0x55u8),
            Opcode::JneReg => Some(0x5du8),
            Opcode::JsgtImm => Some(0x65u8),
            Opcode::JsgtReg => Some(0x6du8),
            Opcode::JsgeImm => Some(0x75u8),
            Opcode::JsgeReg => Some(0x7du8),
            Opcode::JsltImm => Some(0xc5u8),
            Opcode::JsltReg => Some(0xcdu8),
            Opcode::JsleImm => Some(0xd5u8),
            Opcode::JsleReg => Some(0xddu8),
            Opcode::Call => Some(0x85u8),
            Opcode::Callx => Some(0x8du8),
            Opcode::Exit => Some(0x95u8),
            _ => None,
        }
    }

    /// The opcode that a byte stands for.
    #[verifier::rlimit(50)]
    pub fn from_u8(byte: u8) -> (op: Option<Opcode>)
        ensures
            op == Opcode::of_byte(byte),
            forall|o: Opcode| op == Some(o) <==> #[trigger] o.bytecode() == Some(byte),
    {
        proof {
            Opcode::lemma_byte_table(byte);
        }
        match byte {
            0x04u8 => Some(Opcode::Add32Imm),
            0x05u8 => Some(Opcode::Ja),
            0x07u8 => Some(Opcode::Add64Imm),
            0x0cu8 => Some(Opcode::Add32Reg),
            0x0fu8 => Some(Opcode::Add64Reg),
            0x14u8 => Some(Opcode::Sub32Imm),
            0x15u8 => Some(Opcode::JeqImm),
            0x17u8 => Some(Opcode::Sub64Imm),
            0x18u8 => Some(Opcode::Lddw),
            0x1cu8 => Some(Opcode::Sub32Reg),
            0x1du8 => Some(Opcode::JeqReg),
            0x1fu8 => Some(Opcode::Sub64Reg),
            0x24u8 => Some(Opcode::Mul32Imm),
            0x25u8 => Some(Opcode::JgtImm),
            0x27u8 => Some(Opcode::Mul64Imm),
            0x2cu8 => Some(Opcode::Mul32Reg),
            0x2du8 => Some(Opcode::JgtReg),
            0x2fu8 => Some(Opcode::Mul64Reg),
            0x34u8 => Some(Opcode::Div32Imm),
            0x35u8 => Some(Opcode::JgeImm),
            0x36u8 => Some(Opcode::Uhmul64Imm),
            0x37u8 => Some(Opcode::Div64Imm),
            0x3cu8 => Some(Opcode::Div32Reg),
            0x3du8 => Some(Opcode::JgeReg),
            0x3eu8 => Some(Opcode::Uhmul64Reg),
            0x3fu8 => Some(Opcode::Div64Reg),
            0x44u8 => Some(Opcode::Or32Imm),
            0x45u8 => Some(Opcode::JsetImm),
            0x46u8 => Some(Opcode::Udiv32Imm),
            0x47u8 => Some(Opcode::Or64Imm),
            0x4cu8 => Some(Opcode::Or32Reg),
            0x4du8 => Some(Opcode::JsetReg),
            0x4eu8 => Some(Opcode::Udiv32Reg),
            0x4fu8 => Some(Opcode::Or64Reg),
            0x54u8 => Some(Opcode::And32Imm),
            0x55u8 => Some(Opcode::JneImm),
            0x56u8 => Some(Opcode::Udiv64Imm),
            0x57u8 => Some(Opcode::And64Imm),
            0x5cu8 => Some(Opcode::And32Reg),
            0x5du8 => Some(Opcode::JneReg),
            0x5eu8 => Some(Opcode::Udiv64Reg),
            0x5fu8 => Some(Opcode::And64Reg),
            0x61u8 => Some(Opcode::Ldxw),
            0x62u8 => Some(Opcode::Stw),
            0x63u8 => Some(Opcode::Stxw),
            0x64u8 => Some(Opcode::Lsh32Imm),
            0x65u8 => Some(Opcode::JsgtImm),
            0x66u8 => Some(Opcode::Urem32Imm),
            0x67u8 => Some(Opcode::Lsh64Imm),
            0x69u8 => Some(Opcode::Ldxh),
            0x6au8 => Some(Opcode::Sth),
            0x6bu8 => Some(Opcode::Stxh),
            0x6cu8 => Some(Opcode::Lsh32Reg),
            0x6du8 => Some(Opcode::JsgtReg),
            0x6eu8 => Some(Opcode::Urem32Reg),
            0x6fu8 => Some(Opcode::Lsh64Reg),
            0x71u8 => Some(Opcode::Ldxb),
            0x72u8 => Some(Opcode::Stb),
            0x73u8 => Some(Opcode::Stxb),
            0x74u8 => Some(Opcode::Rsh32Imm),
            0x75u8 => Some(Opcode::JsgeImm),
            0x76u8 => Some(Opcode::Urem64Imm),
            0x77u8 => Some(Opcode::Rsh64Imm),
            0x79u8 => Some(Opcode::Ldxdw),
            0x7au8 => Some(Opcode::Stdw),
            0x7bu8 => Some(Opcode::Stxdw),
            0x7cu8 => Some(Opcode::Rsh32Reg),
            0x7du8 => Some(Opcode::JsgeReg),
            0x7eu8 => Some(Opcode::Urem64Reg),
            0x7fu8 => Some(Opcode::Rsh64Reg),
            0x84u8 => Some(Opcode::Neg32),
            0x85u8 => Some(Opcode::Call),
            0x86u8 => Some(Opcode::Lmul32Imm),
            0x87u8 => Some(Opcode::Neg64),
            0x8du8 => Some(Opcode::Callx),
            0x8eu8 => Some(Opcode::Lmul32Reg),
            0x94u8 => Some(Opcode::Mod32Imm),
            0x95u8 => Some(Opcode::Exit),
            0x96u8 => Some(Opcode::Lmul64Imm),
            0x97u8 => Some(Opcode::Mod64Imm),
            0x9cu8 => Some(Opcode::Mod32Reg),
            0x9eu8 => Some(Opcode::Lmul64Reg),
            0x9fu8 => Some(Opcode::Mod64Reg),
            0xa4u8 => Some(Opcode::Xor32Imm),
            0xa5u8 => Some(Opcode::JltImm),
            0xa7u8 => Some(Opcode::Xor64Imm),
            0xacu8 => Some(Opcode::Xor32Reg),
            0xadu8 => Some(Opcode::JltReg),
            0xafu8 => Some(Opcode::Xor64Reg),
            0xb4u8 => Some(Opcode::Mov32Imm),
            0xb5u8 => Some(Opcode::JleImm),
            0xb7u8 => Some(Opcode::Mov64Imm),
            0xbcu8 => Some(Opcode::Mov32Reg),
            0xbdu8 => Some(Opcode::JleReg),
            0xbfu8 => Some(Opcode::Mov64Reg),
            0xc4u8 => Some(Opcode::Arsh32Imm),
            0xc5u8 => Some(Opcode::JsltImm),
            0xc6u8 => Some(Opcode::Sdiv32Imm),
            0xc7u8 => Some(Opcode::Arsh64Imm),
            0xccu8 => Some(Opcode::Arsh32Reg),
            0xcdu8 => Some(Opcode::JsltReg),
            0xceu8 => Some(Opcode::Sdiv32Reg),
            0xcfu8 => Some(Opcode::Arsh64Reg),
            0xd4u8 => Some(Opcode::Le),
            0xd5u8 => Some(Opcode::JsleImm),
            0xd6u8 => Some(Opcode::Sdiv64Imm),
            0xdcu8 => Some(Opcode::Be),
            0xddu8 => Some(Opcode::JsleReg),
            0xdeu8 => Some(Opcode::Sdiv64Reg),
            0xe6u8 => Some(Opcode::Srem32Imm),
            0xeeu8 => Some(Opcode::Srem32Reg),
            0xf6u8 => Some(Opcode::Srem64Imm),
            0xfeu8 => Some(Opcode::Srem64Reg),
            _ => None,
        }
    }

    /// The register/immediate member of the family, or `self` where it names no family.
    pub fn promote_imm(self) -> (op: Opcode)
        ensures
            op == match self.imm_form() {
                Some(o) => o,
                None => self,
            },
    {
        match self {
            Opcode::Add32 => Opcode::Add32Imm,
            Opcode::Sub32 => Opcode::Sub32Imm,
            Opcode::Mul32 => Opcode::Mul32Imm,
            Opcode::Div32 => Opcode::Div32Imm,
            Opcode::Or32 => Opcode::Or32Imm,
            Opcode::And32 => Opcode::And32Imm,
            Opcode::Lsh32 => Opcode::Lsh32Imm,
            Opcode::Rsh32 => Opcode::Rsh32Imm,
            Opcode::Mod32 => Opcode::Mod32Imm,
            Opcode::Xor32 => Opcode::Xor32Imm,
            Opcode::Mov32 => Opcode::Mov32Imm,
            Opcode::Arsh32 => Opcode::Arsh32Imm,
            Opcode::Lmul32 => Opcode::Lmul32Imm,
            Opcode::Udiv32 => Opcode::Udiv32Imm,
            Opcode::Urem32 => Opcode::Urem32Imm,
            Opcode::Sdiv32 => Opcode::Sdiv32Imm,
            Opcode::Srem32 => Opcode::Srem32Imm,
            Opcode::Add64 => Opcode::Add64Imm,
            Opcode::Sub64 => Opcode::Sub64Imm,
            Opcode::Mul64 => Opcode::Mul64Imm,
            Opcode::Div64 => Opcode::Div64Imm,
            Opcode::Or64 => Opcode::Or64Imm,
            Opcode::And64 => Opcode::And64Imm,
            Opcode::Lsh64 => Opcode::Lsh64Imm,
            Opcode::Rsh64 => Opcode::Rsh64Imm,
            Opcode::Mod64 => Opcode::Mod64Imm,
            Opcode::Xor64 => Opcode::Xor64Imm,
            Opcode::Mov64 => Opcode::Mov64Imm,
            Opcode::Arsh64 => Opcode::Arsh64Imm,
            Opcode::Lmul64 => Opcode::Lmul64Imm,
            Opcode::Uhmul64 => Opcode::Uhmul64Imm,
            Opcode::Udiv64 => Opcode::Udiv64Imm,
            Opcode::Urem64 => Opcode::Urem64Imm,
            Opcode::Sdiv64 => Opcode::Sdiv64Imm,
            Opcode::Srem64 => Opcode::Srem64Imm,
            Opcode::Jeq => Opcode::JeqImm,
            Opcode::Jgt => Opcode::JgtImm,
            Opcode::Jge => Opcode::JgeImm,
            Opcode::Jlt => Opcode::JltImm,
            Opcode::Jle => Opcode::JleImm,
            Opcode::Jset => Opcode::JsetImm,
            Opcode::Jne => Opcode::JneImm,
            Opcode::Jsgt => Opcode::JsgtImm,
            Opcode::Jsge => Opcode::JsgeImm,
            Opcode::Jslt => Opcode::JsltImm,
            Opcode::Jsle => Opcode::JsleImm,
            _ => self,
        }
    }

    /// The register/register member of the family, or `self` where it names no family.
    pub fn promote_reg(self) -> (op: Opcode)
        ensures
            op == match self.reg_form() {
                Some(o) => o,
                None => self,
            },
    {
        match self {
            Opcode::Add32 => Opcode::Add32Reg,
            Opcode::Sub32 => Opcode::Sub32Reg,
            Opcode::Mul32 => Opcode::Mul32Reg,
            Opcode::Div32 => Opcode::Div32Reg,
            Opcode::Or32 => Opcode::Or32Reg,
            Opcode::And32 => Opcode::And32Reg,
            Opcode::Lsh32 => Opcode::Lsh32Reg,
            Opcode::Rsh32 => Opcode::Rsh32Reg,
            Opcode::Mod32 => Opcode::Mod32Reg,
            Opcode::Xor32 => Opcode::Xor32Reg,
            Opcode::Mov32 => Opcode::Mov32Reg,
            Opcode::Arsh32 => Opcode::Arsh32Reg,
            Opcode::Lmul32 => Opcode::Lmul32Reg,
            Opcode::Udiv32 => Opcode::Udiv32Reg,
            Opcode::Urem32 => Opcode::Urem32Reg,
            Opcode::Sdiv32 => Opcode::Sdiv32Reg,
            Opcode::Srem32 => Opcode::Srem32Reg,
            Opcode::Add64 => Opcode::Add64Reg,
            Opcode::Sub64 => Opcode::Sub64Reg,
            Opcode::Mul64 => Opcode::Mul64Reg,
            Opcode::Div64 => Opcode::Div64Reg,
            Opcode::Or64 => Opcode::Or64Reg,
            Opcode::And64 => Opcode::And64Reg,
            Opcode::Lsh64 => Opcode::Lsh64Reg,
            Opcode::Rsh64 => Opcode::Rsh64Reg,
            Opcode::Mod64 => Opcode::Mod64Reg,
            Opcode::Xor64 => Opcode::Xor64Reg,
            Opcode::Mov64 => Opcode::Mov64Reg,
            Opcode::Arsh64 => Opcode::Arsh64Reg,
            Opcode::Lmul64 => Opcode::Lmul64Reg,
            Opcode::Uhmul64 => Opcode::Uhmul64Reg,
            Opcode::Udiv64 => Opcode::Udiv64Reg,
            Opcode::Urem64 => Opcode::Urem64Reg,
            Opcode::Sdiv64 => Opcode::Sdiv64Reg,
            Opcode::Srem64 => Opcode::Srem64Reg,
            Opcode::Jeq => Opcode::JeqReg,
            Opcode::Jgt => Opcode::JgtReg,
            Opcode::Jge => Opcode::JgeReg,
            Opcode::Jlt => Opcode::JltReg,
            Opcode::Jle => Opcode::JleReg,
            Opcode::Jset => Opcode::JsetReg,
            Opcode::Jne => Opcode::JneReg,
            Opcode::Jsgt => Opcode::JsgtReg,
            Opcode::Jsge => Opcode::JsgeReg,
            Opcode::Jslt => Opcode::JsltReg,
            Opcode::Jsle => Opcode::JsleReg,
            _ => self,
        }
    }

    /// How the parser gathers the operands that follow this mnemonic.
    #[verifier::when_used_as_spec(spec_operand_rule)]
    pub fn operand_rule(self) -> (r: OperandRule)
        ensures
            r == self.spec_operand_rule(),
    {
        match self {
            Opcode::Add32 | Opcode::Sub32 | Opcode::Mul32 | Opcode::Div32 | Opcode::Or32
            | Opcode::And32 | Opcode::Lsh32 | Opcode::Rsh32 | Opcode::Mod32 | Opcode::Xor32
            | Opcode::Mov32 | Opcode::Arsh32 | Opcode::Lmul32 | Opcode::Udiv32 | Opcode::Urem32
            | Opcode::Sdiv32 | Opcode::Srem32 | Opcode::Add64 | Opcode::Sub64 | Opcode::Mul64
            | Opcode::Div64 | Opcode::Or64 | Opcode::And64 | Opcode::Lsh64 | Opcode::Rsh64
            | Opcode::Mod64 | Opcode::Xor64 | Opcode::Mov64 | Opcode::Arsh64 | Opcode::Lmul64
            | Opcode::Uhmul64 | Opcode::Udiv64 | Opcode::Urem64 | Opcode::Sdiv64
            | Opcode::Srem64 | Opcode::Neg32 => OperandRule::Alu,
            Opcode::Jeq | Opcode::Jgt | Opcode::Jge | Opcode::Jlt | Opcode::Jle | Opcode::Jset
            | Opcode::Jne | Opcode::Jsgt | Opcode::Jsge | Opcode::Jslt | Opcode::Jsle => OperandRule::ConditionalJump,
            Opcode::Ja => OperandRule::Jump,
            Opcode::Exit => OperandRule::Nothing,
            _ => OperandRule::Greedy,
        }
    }

    /// `ja`, or a conditional jump whose form is known.
    #[verifier::when_used_as_spec(spec_is_jump)]
    pub fn is_jump(self) -> (b: bool)
        ensures
            b == self.spec_is_jump(),
    {
        match self {
            Opcode::Ja | Opcode::JeqImm | Opcode::JeqReg | Opcode::JgtImm | Opcode::JgtReg
            | Opcode::JgeImm | Opcode::JgeReg | Opcode::JltImm | Opcode::JltReg
            | Opcode::JleImm | Opcode::JleReg | Opcode::JsetImm | Opcode::JsetReg
            | Opcode::JneImm | Opcode::JneReg | Opcode::JsgtImm | Opcode::JsgtReg
            | Opcode::JsgeImm | Opcode::JsgeReg | Opcode::JsltImm | Opcode::JsltReg
            | Opcode::JsleImm | Opcode::JsleReg => true,
            _ => false,
        }
    }

    /// The opcodes that a mnemonic can name, in table order.
    pub open spec fn source_form(i: usize) -> Opcode {
        match i {
            0usize => Opcode::Lddw,
            1usize => Opcode::Ldxb,
            2usize => Opcode::Ldxh,
            3usize => Opcode::Ldxw,
            4usize => Opcode::Ldxdw,
            5usize => Opcode::Stb,
            6usize => Opcode::Sth,
            7usize => Opcode::Stw,
            8usize => Opcode::Stdw,
            9usize => Opcode::Stxb,
            10usize => Opcode::Stxh,
            11usize => Opcode::Stxw,
            12usize => Opcode::Stxdw,
            13usize => Opcode::Add32,
            14usize => Opcode::Sub32,
            15usize => Opcode::Mul32,
            16usize => Opcode::Div32,
            17usize => Opcode::Or32,
            18usize => Opcode::And32,
            19usize => Opcode::Lsh32,
            20usize => Opcode::Rsh32,
            21usize => Opcode::Mod32,
            22usize => Opcode::Xor32,
            23usize => Opcode::Mov32,
            24usize => Opcode::Arsh32,
            25usize => Opcode::Lmul32,
            26usize => Opcode::Udiv32,
            27usize => Opcode::Urem32,
            28usize => Opcode::Sdiv32,
            29usize => Opcode::Srem32,
            30usize => Opcode::Neg32,
            31usize => Opcode::Le,
            32usize => Opcode::Be,
            33usize => Opcode::Add64,
            34usize => Opcode::Sub64,
            35usize => Opcode::Mul64,
            36usize => Opcode::Div64,
            37usize => Opcode::Or64,
            38usize => Opcode::And64,
            39usize => Opcode::Lsh64,
            40usize => Opcode::Rsh64,
            41usize => Opcode::Mod64,
            42usize => Opcode::Xor64,
            43usize => Opcode::Mov64,
            44usize => Opcode::Arsh64,
            45usize => Opcode::Lmul64,
            46usize => Opcode::Uhmul64,
            47usize => Opcode::Udiv64,
            48usize => Opcode::Urem64,
            49usize => Opcode::Sdiv64,
            50usize => Opcode::Srem64,
            51usize => Opcode::Neg64,
            52usize => Opcode::Ja,
            53usize => Opcode::Jeq,
            54usize => Opcode::Jgt,
            55usize => Opcode::Jge,
            56usize => Opcode::Jlt,
            57usize => Opcode::Jle,
            58usize => Opcode::Jset,
            59usize => Opcode::Jne,
            60usize => Opcode::Jsgt,
            61usize => Opcode::Jsge,
            62usize => Opcode::Jslt,
            63usize => Opcode::Jsle,
            64usize => Opcode::Call,
            65usize => Opcode::Callx,
            _ => Opcode::Exit,
        }
    }

    /// Where `source_form` lists the mnemonic of `self`.
    pub open spec fn source_index(self) -> usize {
        match self {
            Opcode::Lddw => 0,
            Opcode::Ldxb => 1,
            Opcode::Ldxh => 2,
            Opcode::Ldxw => 3,
            Opcode::Ldxdw => 4,
            Opcode::Stb => 5,
            Opcode::Sth => 6,
            Opcode::Stw => 7,
            Opcode::Stdw => 8,
            Opcode::Stxb => 9,
            Opcode::Stxh => 10,
            Opcode::Stxw => 11,
            Opcode::Stxdw => 12,
            Opcode::Add32 | Opcode::Add32Imm | Opcode::Add32Reg => 13,
            Opcode::Sub32 | Opcode::Sub32Imm | Opcode::Sub32Reg => 14,
            Opcode::Mul32 | Opcode::Mul32Imm | Opcode::Mul32Reg => 15,
            Opcode::Div32 | Opcode::Div32Imm | Opcode::Div32Reg => 16,
            Opcode::Or32 | Opcode::Or32Imm | Opcode::Or32Reg => 17,
            Opcode::And32 | Opcode::And32Imm | Opcode::And32Reg => 18,
            Opcode::Lsh32 | Opcode::Lsh32Imm | Opcode::Lsh32Reg => 19,
            Opcode::Rsh32 | Opcode::Rsh32Imm | Opcode::Rsh32Reg => 20,
            Opcode::Mod32 | Opcode::Mod32Imm | Opcode::Mod32Reg => 21,
            Opcode::Xor32 | Opcode::Xor32Imm | Opcode::Xor32Reg => 22,
            Opcode::Mov32 | Opcode::Mov32Imm | Opcode::Mov32Reg => 23,
            Opcode::Arsh32 | Opcode::Arsh32Imm | Opcode::Arsh32Reg => 24,
            Opcode::Lmul32 | Opcode::Lmul32Imm | Opcode::Lmul32Reg => 25,
            Opcode::Udiv32 | Opcode::Udiv32Imm | Opcode::Udiv32Reg => 26,
            Opcode::Urem32 | Opcode::Urem32Imm | Opcode::Urem32Reg => 27,
            Opcode::Sdiv32 | Opcode::Sdiv32Imm | Opcode::Sdiv32Reg => 28,
            Opcode::Srem32 | Opcode::Srem32Imm | Opcode::Srem32Reg => 29,
            Opcode::Neg32 => 30,
            Opcode::Le => 31,
            Opcode::Be => 32,
            Opcode::Add64 | Opcode::Add64Imm | Opcode::Add64Reg => 33,
            Opcode::Sub64 | Opcode::Sub64Imm | Opcode::Sub64Reg => 34,
            Opcode::Mul64 | Opcode::Mul64Imm | Opcode::Mul64Reg => 35,
            Opcode::Div64 | Opcode::Div64Imm | Opcode::Div64Reg => 36,
            Opcode::Or64 | Opcode::Or64Imm | Opcode::Or64Reg => 37,
            Opcode::And64 | Opcode::And64Imm | Opcode::And64Reg => 38,
            Opcode::Lsh64 | Opcode::Lsh64Imm | Opcode::Lsh64Reg => 39,
            Opcode::Rsh64 | Opcode::Rsh64Imm | Opcode::Rsh64Reg => 40,
            Opcode::Mod64 | Opcode::Mod64Imm | Opcode::Mod64Reg => 41,
            Opcode::Xor64 | Opcode::Xor64Imm | Opcode::Xor64Reg => 42,
            Opcode::Mov64 | Opcode::Mov64Imm | Opcode::Mov64Reg => 43,
            Opcode::Arsh64 | Opcode::Arsh64Imm | Opcode::Arsh64Reg => 44,
            Opcode::Lmul64 | Opcode::Lmul64Imm | Opcode::Lmul64Reg => 45,
            Opcode::Uhmul64 | Opcode::Uhmul64Imm | Opcode::Uhmul64Reg => 46,
            Opcode::Udiv64 | Opcode::Udiv64Imm | Opcode::Udiv64Reg => 47,
            Opcode::Urem64 | Opcode::Urem64Imm | Opcode::Urem64Reg => 48,
            Opcode::Sdiv64 | Opcode::Sdiv64Imm | Opcode::Sdiv64Reg => 49,
            Opcode::Srem64 | Opcode::Srem64Imm | Opcode::Srem64Reg => 50,
            Opcode::Neg64 => 51,
            Opcode::Ja => 52,
            Opcode::Jeq | Opcode::JeqImm | Opcode::JeqReg => 53,
            Opcode::Jgt | Opcode::JgtImm | Opcode::JgtReg => 54,
            Opcode::Jge | Opcode::JgeImm | Opcode::JgeReg => 55,
            Opcode::Jlt | Opcode::JltImm | Opcode::JltReg => 56,
            Opcode::Jle | Opcode::JleImm | Opcode::JleReg => 57,
            Opcode::Jset | Opcode::JsetImm | Opcode::JsetReg => 58,
            Opcode::Jne | Opcode::JneImm | Opcode::JneReg => 59,
            Opcode::Jsgt | Opcode::JsgtImm | Opcode::JsgtReg => 60,
            Opcode::Jsge | Opcode::JsgeImm | Opcode::JsgeReg => 61,
            Opcode::Jslt | Opcode::JsltImm | Opcode::JsltReg => 62,
            Opcode::Jsle | Opcode::JsleImm | Opcode::JsleReg => 63,
            Opcode::Call => 64,
            Opcode::Callx => 65,
            Opcode::Exit => 66,
        }
    }

    /// The table lists every opcode that a mnemonic can name.
    pub proof fn lemma_source_index(self)
        requires
            self.is_source_form(),
        ensures
            self.source_index() < 67,
            Opcode::source_form(self.source_index()) == self,
    {
    }

    fn nth_source_form(i: usize) -> (o: Opcode)
        requires
            i < 67,
        ensures
            o == Opcode::source_form(i),
            o.is_source_form(),
    {
        match i {
            0 => Opcode::Lddw,
            1 => Opcode::Ldxb,
            2 => Opcode::Ldxh,
            3 => Opcode::Ldxw,
            4 => Opcode::Ldxdw,
            5 => Opcode::Stb,
            6 => Opcode::Sth,
            7 => Opcode::Stw,
            8 => Opcode::Stdw,
            9 => Opcode::Stxb,
            10 => Opcode::Stxh,
            11 => Opcode::Stxw,
            12 => Opcode::Stxdw,
            13 => Opcode::Add32,
            14 => Opcode::Sub32,
            15 => Opcode::Mul32,
            16 => Opcode::Div32,
            17 => Opcode::Or32,
            18 => Opcode::And32,
            19 => Opcode::Lsh32,
            20 => Opcode::Rsh32,
            21 => Opcode::Mod32,
            22 => Opcode::Xor32,
            23 => Opcode::Mov32,
            24 => Opcode::Arsh32,
            25 => Opcode::Lmul32,
            26 => Opcode::Udiv32,
            27 => Opcode::Urem32,
            28 => Opcode::Sdiv32,
            29 => Opcode::Srem32,
            30 => Opcode::Neg32,
            31 => Opcode::Le,
            32 => Opcode::Be,
            33 => Opcode::Add64,
            34 => Opcode::Sub64,
            35 => Opcode::Mul64,
            36 => Opcode::Div64,
            37 => Opcode::Or64,
            38 => Opcode::And64,
            39 => Opcode::Lsh64,
            40 => Opcode::Rsh64,
            41 => Opcode::Mod64,
            42 => Opcode::Xor64,
            43 => Opcode::Mov64,
            44 => Opcode::Arsh64,
            45 => Opcode::Lmul64,
            46 => Opcode::Uhmul64,
            47 => Opcode::Udiv64,
            48 => Opcode::Urem64,
            49 => Opcode::Sdiv64,
            50 => Opcode::Srem64,
            51 => Opcode::Neg64,
            52 => Opcode::Ja,
            53 => Opcode::Jeq,
            54 => Opcode::Jgt,
            55 => Opcode::Jge,
            56 => Opcode::Jlt,
            57 => Opcode::Jle,
            58 => Opcode::Jset,
            59 => Opcode::Jne,
            60 => Opcode::Jsgt,
            61 => Opcode::Jsge,
            62 => Opcode::Jslt,
            63 => Opcode::Jsle,
            64 => Opcode::Call,
            65 => Opcode::Callx,
            _ => Opcode::Exit,
        }
    }

    /// The first opcode from place `i` of the table on whose mnemonic is `name`.
    pub open spec fn named_from(name: Seq<u8>, i: usize) -> Option<Opcode>
        decreases 67 - i,
    {
        if i >= 67 {
            None
        } else if Opcode::source_form(i).mnemonic().spec_bytes() == name {
            Some(Opcode::source_form(i))
        } else {
            Opcode::named_from(name, (i + 1) as usize)
        }
    }

    /// The opcode that the mnemonic `name` stands for.
    pub open spec fn named(name: Seq<u8>) -> Option<Opcode> {
        Opcode::named_from(name, 0)
    }

    /// The opcode that a mnemonic names: one that a mnemonic can name and
    /// that has this one; none where no opcode has it.
    pub fn from_mnemonic(name: &[u8]) -> (op: Option<Opcode>)
        ensures
            op == Opcode::named(name@),
            match op {
                Some(o) => o.is_source_form() && name@ == o.mnemonic().spec_bytes(),
                None => forall|o: Opcode|
                    o.is_source_form() ==> name@ != (#[trigger] o.mnemonic()).spec_bytes(),
            },
    {
        let mut i: usize = 0;
        while i < 67
            invariant
                i <= 67,
                Opcode::named(name@) == Opcode::named_from(name@, i),
                forall|j: usize|
                    j < i ==> name@ != (#[trigger] Opcode::source_form(j)).mnemonic().spec_bytes(),
            decreases 67 - i,
        {
            let o = Opcode::nth_source_form(i);
            if bytes_eq(name, o.to_str().as_bytes()) {
                return Some(o);
            }
            i += 1;
        }
        assert forall|o: Opcode| o.is_source_form() implies name@ != (#[trigger] o.mnemonic()).spec_bytes() by {
            o.lemma_source_index();
        }
        None
    }
}

} // verus!
