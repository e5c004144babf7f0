use vstd::prelude::*;
use vstd::string::*;
use crate::error::{
    DecodeError, EncodeError, LexError, LoadError, ParseError, ParseErrorView, RuntimeError,
    VmError,
};
use crate::image::{AssembleError, AssembleErrorView};
use crate::session::{RunError, RunErrorView};
use crate::text::{decimal, hexadecimal, push_decimal, push_hexadecimal, push_lossy, utf8_lossy};

verus! {

/// `what`, and the source line it is about.
pub open spec fn at_line(what: Seq<char>, line: usize) -> Seq<char> {
    what + " at line "@ + decimal(line as nat)
}

/// `what`, the name it is about in quotes, and the source line.
pub open spec fn named_at_line(what: Seq<char>, name: Seq<u8>, line: usize) -> Seq<char> {
    at_line(what + " '"@ + utf8_lossy(name) + "'"@, line)
}

fn finish(text: &mut String, line: usize)
    ensures
        final(text)@ == at_line(old(text)@, line),
{
    text.append(" at line ");
    push_decimal(text, line as u64);
}

fn quote(text: &mut String, name: &[u8])
    ensures
        final(text)@ == old(text)@ + " '"@ + utf8_lossy(name@) + "'"@,
{
    text.append(" '");
    push_lossy(text, name);
    text.append("'");
}

impl LexError {
    /// What the error says.
    pub open spec fn text(self) -> Seq<char> {
        match self {
            LexError::UnexpectedCharacter { byte, line } => at_line(
                "Unexpected character 0x"@ + hexadecimal(byte as nat),
                line,
            ),
            LexError::UnterminatedString { line } => at_line("Unterminated string"@, line),
            LexError::InvalidNumber { line } => at_line("Invalid number"@, line),
        }
    }

    /// The error in words, with the source line it is about.
    pub fn message(&self) -> (s: String)
        ensures
            s@ == self.text(),
    {
        let mut s = String::new();
        match self {
            LexError::UnexpectedCharacter { byte, line } => {
                s.append("Unexpected character 0x");
                push_hexadecimal(&mut s, *byte as u64);
                assert(s@ =~= "Unexpected character 0x"@ + hexadecimal(*byte as nat));
                finish(&mut s, *line);
            },
            LexError::UnterminatedString { line } => {
                s.append("Unterminated string");
                assert(s@ =~= "Unterminated string"@);
                finish(&mut s, *line);
            },
            LexError::InvalidNumber { line } => {
                s.append("Invalid number");
                assert(s@ =~= "Invalid number"@);
                finish(&mut s, *line);
            },
        }
        s
    }
}

impl ParseErrorView {
    /// What the error says.
    pub open spec fn text(self) -> Seq<char> {
        match self {
            ParseErrorView::UnexpectedToken { line } => at_line("Unexpected token"@, line),
            ParseErrorView::UnknownOpcode { name, line } => named_at_line(
                "Unknown opcode"@,
                name,
                line,
            ),
            ParseErrorView::UnresolvedLabel { name, line } => named_at_line(
                "Undefined label"@,
                name,
                line,
            ),
            ParseErrorView::OffsetOverflow { line } => at_line("Offset out of range"@, line),
        }
    }
}

impl ParseError {
    /// The error in words, with the name and the source line it is about.
    pub fn message(&self) -> (s: String)
        ensures
            s@ == self@.text(),
    {
        let mut s = String::new();
        match self {
            ParseError::UnexpectedToken { line } => {
                s.append("Unexpected token");
                assert(s@ =~= "Unexpected token"@);
                finish(&mut s, *line);
            },
            ParseError::UnknownOpcode { name, line } => {
                s.append("Unknown opcode");
                assert(s@ =~= "Unknown opcode"@);
                quote(&mut s, name.as_slice());
                finish(&mut s, *line);
            },
            ParseError::UnresolvedLabel { name, line } => {
                s.append("Undefined label");
                assert(s@ =~= "Undefined label"@);
                quote(&mut s, name.as_slice());
                finish(&mut s, *line);
            },
            ParseError::OffsetOverflow { line } => {
                s.append("Offset out of range");
                assert(s@ =~= "Offset out of range"@);
                finish(&mut s, *line);
            },
        }
        s
    }
}

impl EncodeError {
    /// What the error says.
    pub open spec fn text(self) -> Seq<char> {
        at_line("Unsupported operands"@, self.line)
    }

    /// The error in words, with the source line it is about.
    pub fn message(&self) -> (s: String)
        ensures
            s@ == self.text(),
    {
        let mut s = String::new();
        s.append("Unsupported operands");
        assert(s@ =~= "Unsupported operands"@);
        finish(&mut s, self.line);
        s
    }
}

impl LoadError {
    /// What the error says.
    pub open spec fn text(self) -> Seq<char> {
        match self {
            LoadError::TooShort => "Invalid bytecode: too short to be an ELF file"@,
            LoadError::BadMagic => "Invalid bytecode: not an ELF file"@,
        }
    }

    /// The error in words.
    pub fn message(&self) -> (s: String)
        ensures
            s@ == self.text(),
    {
        let mut s = String::new();
        match self {
            LoadError::TooShort => s.append("Invalid bytecode: too short to be an ELF file"),
            LoadError::BadMagic => s.append("Invalid bytecode: not an ELF file"),
        }
        assert(s@ =~= self.text());
        s
    }
}

impl DecodeError {
    /// What the error says.
    pub open spec fn text(self) -> Seq<char> {
        match self {
            DecodeError::UnknownOpcode { byte } => "Unknown opcode: 0x"@ + hexadecimal(byte as nat),
            DecodeError::UnsupportedOpcode { byte } => "Unsupported opcode: 0x"@ + hexadecimal(
                byte as nat,
            ),
            DecodeError::Truncated => "Not enough bytes for an instruction"@,
        }
    }

    /// The error in words.
    pub fn message(&self) -> (s: String)
        ensures
            s@ == self.text(),
    {
        let mut s = String::new();
        self.write(&mut s);
        assert(s@ =~= self.text());
        s
    }

    fn write(&self, s: &mut String)
        ensures
            final(s)@ == old(s)@ + self.text(),
    {
        match self {
            DecodeError::UnknownOpcode { byte } => {
                s.append("Unknown opcode: 0x");
                push_hexadecimal(s, *byte as u64);
            },
            DecodeError::UnsupportedOpcode { byte } => {
                s.append("Unsupported opcode: 0x");
                push_hexadecimal(s, *byte as u64);
            },
            DecodeError::Truncated => {
                s.append("Not enough bytes for an instruction");
            },
        }
        assert(s@ =~= old(s)@ + self.text());
    }
}

impl RuntimeError {
    /// What the error says.
    pub open spec fn text(self) -> Seq<char> {
        match self {
            RuntimeError::InvalidRegister { index } => "Invalid register index: "@ + decimal(
                index as nat,
            ),
            RuntimeError::InvalidSyscall { id } => "Unsupported function ID: 0x"@ + hexadecimal(
                id as nat,
            ),
            RuntimeError::MemoryOutOfBounds => "Memory access out of bounds"@,
            RuntimeError::InvalidJump => "Invalid jump"@,
        }
    }

    /// The error in words.
    pub fn message(&self) -> (s: String)
        ensures
            s@ == self.text(),
    {
        let mut s = String::new();
        self.write(&mut s);
        assert(s@ =~= self.text());
        s
    }

    fn write(&self, s: &mut String)
        ensures
            final(s)@ == old(s)@ + self.text(),
    {
        match self {
            RuntimeError::InvalidRegister { index } => {
                s.append("Invalid register index: ");
                push_decimal(s, *index as u64);
            },
            RuntimeError::InvalidSyscall { id } => {
                s.append("Unsupported function ID: 0x");
                push_hexadecimal(s, *id as u64);
            },
            RuntimeError::MemoryOutOfBounds => {
                s.append("Memory access out of bounds");
            },
            RuntimeError::InvalidJump => {
                s.append("Invalid jump");
            },
        }
        assert(s@ =~= old(s)@ + self.text());
    }
}

/// `what`, and the program counter it happened at.
pub open spec fn at_pc(what: Seq<char>, pc: usize) -> Seq<char> {
    what + " at pc "@ + decimal(pc as nat)
}

impl VmError {
    /// What the error says.
    pub open spec fn text(self) -> Seq<char> {
        match self {
            VmError::NoProgram => "No program loaded"@,
            VmError::Decode { pc, error } => at_pc(error.text(), pc),
            VmError::Runtime { pc, error } => at_pc(error.text(), pc),
            VmError::StepLimit { pc } => at_pc("Step limit reached"@, pc),
        }
    }

    /// The error in words, with the program counter it happened at.
    pub fn message(&self) -> (s: String)
        ensures
            s@ == self.text(),
    {
        let mut s = String::new();
        match self {
            VmError::NoProgram => {
                s.append("No program loaded");
                assert(s@ =~= "No program loaded"@);
            },
            VmError::Decode { pc, error } => {
                error.write(&mut s);
                assert(s@ =~= error.text());
                s.append(" at pc ");
                push_decimal(&mut s, *pc as u64);
            },
            VmError::Runtime { pc, error } => {
                error.write(&mut s);
                assert(s@ =~= error.text());
                s.append(" at pc ");
                push_decimal(&mut s, *pc as u64);
            },
            VmError::StepLimit { pc } => {
                s.append("Step limit reached");
                assert(s@ =~= "Step limit reached"@);
                s.append(" at pc ");
                push_decimal(&mut s, *pc as u64);
            },
        }
        s
    }
}

impl AssembleErrorView {
    /// What the error says.
    pub open spec fn text(self) -> Seq<char> {
        match self {
            AssembleErrorView::Lex(e) => "Tokenizer error: "@ + e.text(),
            AssembleErrorView::Parse(e) => "Parser error: "@ + e.text(),
            AssembleErrorView::Encode(e) => "Encoder error: "@ + e.text(),
            AssembleErrorView::ImageTooLarge => "Encoder error: image too large"@,
        }
    }
}

impl AssembleError {
    /// The error in words, with the stage that it comes from.
    pub fn message(&self) -> (s: String)
        ensures
            s@ == self@.text(),
    {
        let mut s = String::new();
        match self {
            AssembleError::Lex(e) => {
                s.append("Tokenizer error: ");
                let inner = e.message();
                s.append(inner.as_str());
            },
            AssembleError::Parse(e) => {
                s.append("Parser error: ");
                let inner = e.message();
                s.append(inner.as_str());
            },
            AssembleError::Encode(e) => {
                s.append("Encoder error: ");
                let inner = e.message();
                s.append(inner.as_str());
            },
            AssembleError::ImageTooLarge => {
                s.append("Encoder error: image too large");
            },
        }
        assert(s@ =~= self@.text());
        s
    }
}

impl RunErrorView {
    /// What the error says.
    pub open spec fn text(self) -> Seq<char> {
        match self {
            RunErrorView::Assemble(e) => e.text(),
            RunErrorView::Load(e) => e.text(),
            RunErrorView::Vm(e) => e.text(),
        }
    }
}

impl RunError {
    /// The error in words.
    pub fn message(&self) -> (s: String)
        ensures
            s@ == self@.text(),
    {
        match self {
            RunError::Assemble(e) => e.message(),
            RunError::Load(e) => e.message(),
            RunError::Vm(e) => e.message(),
        }
    }
}

} // verus!
