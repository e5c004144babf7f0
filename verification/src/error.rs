use vstd::prelude::*;

verus! {

/// Why a source text is not a token sequence.
#[derive(Clone, Copy, Debug, PartialEq, Eq, Hash, Structural)]
pub enum LexError {
    /// A byte that starts no token.
    UnexpectedCharacter { byte: u8, line: usize },
    /// A string literal whose closing quote is not on its line.
    UnterminatedString { line: usize },
    /// A number that has no digits or does not fit in 64 bits.
    InvalidNumber { line: usize },
}

/// Why a token sequence is not a program.
#[derive(Debug, PartialEq, Eq)]
pub enum ParseError {
    /// A token that cannot start a statement.
    UnexpectedToken { line: usize },
    /// A name where a mnemonic is expected.
    UnknownOpcode { name: Vec<u8>, line: usize },
    /// A jump or load that names a label which is defined nowhere.
    UnresolvedLabel { name: Vec<u8>, line: usize },
    /// A byte offset or an address that does not fit in 64 bits.
    OffsetOverflow { line: usize },
}

/// A parse error, with its name as a sequence.
pub enum ParseErrorView {
    UnexpectedToken { line: usize },
    UnknownOpcode { name: Seq<u8>, line: usize },
    UnresolvedLabel { name: Seq<u8>, line: usize },
    OffsetOverflow { line: usize },
}

impl View for ParseError {
    type V = ParseErrorView;

    open spec fn view(&self) -> ParseErrorView {
        match *self {
            ParseError::UnexpectedToken { line } => ParseErrorView::UnexpectedToken { line },
            ParseError::UnknownOpcode { name, line } => ParseErrorView::UnknownOpcode {
                name: name@,
                line,
            },
            ParseError::UnresolvedLabel { name, line } => ParseErrorView::UnresolvedLabel {
                name: name@,
                line,
            },
            ParseError::OffsetOverflow { line } => ParseErrorView::OffsetOverflow { line },
        }
    }
}

/// An instruction whose operands fit none of the encodings of its opcode.
#[derive(Clone, Copy, Debug, PartialEq, Eq, Hash, Structural)]
pub struct EncodeError {
    pub line: usize,
}

/// Why a byte string is not a program image.
#[derive(Clone, Copy, Debug, PartialEq, Eq, Hash, Structural)]
pub enum LoadError {
    TooShort,
    BadMagic,
}

/// Why the bytes at the program counter are not an instruction.
#[derive(Clone, Copy, Debug, PartialEq, Eq, Hash, Structural)]
pub enum DecodeError {
    /// The first byte is no opcode.
    UnknownOpcode { byte: u8 },
    /// The first byte is an opcode that the interpreter does not run.
    UnsupportedOpcode { byte: u8 },
    /// Fewer bytes are left than the instruction is wide.
    Truncated,
}

/// Why an instruction cannot be executed.
#[derive(Clone, Copy, Debug, PartialEq, Eq, Hash, Structural)]
pub enum RuntimeError {
    InvalidRegister { index: usize },
    InvalidSyscall { id: u32 },
    MemoryOutOfBounds,
    /// A jump, or the step to the next instruction, leaves the range of addresses.
    InvalidJump,
}

/// Why the interpreter stopped before `exit`, with the program counter where it did.
#[allow(inconsistent_fields)]
#[derive(Clone, Copy, Debug, PartialEq, Eq, Hash, Structural)]
pub enum VmError {
    NoProgram,
    Decode { pc: usize, error: DecodeError },
    Runtime { pc: usize, error: RuntimeError },
    /// The step budget ran out.
    StepLimit { pc: usize },
}

} // verus!
