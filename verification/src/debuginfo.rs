use vstd::prelude::*;
use vstd::string::*;

verus! {

/// What a register holds, for display.
#[derive(Clone, Copy, Debug, PartialEq, Eq, Hash, Structural)]
pub enum RegisterType {
    Int,
    Addr,
    Null,
}

impl RegisterType {
    /// The name of the type.
    pub open spec fn name(self) -> Seq<char> {
        match self {
            RegisterType::Int => "Int"@,
            RegisterType::Addr => "Addr"@,
            RegisterType::Null => "Null"@,
        }
    }

    /// The name of the type.
    pub fn to_text(&self) -> (text: String)
        ensures
            text@ == self.name(),
    {
        let mut text = String::new();
        match self {
            RegisterType::Int => text.append("Int"),
            RegisterType::Addr => text.append("Addr"),
            RegisterType::Null => text.append("Null"),
        }
        assert(text@ =~= self.name());
        text
    }
}

/// A note that one register holds a value of a known type after an instruction.
#[derive(Clone, Copy, Debug, PartialEq, Eq, Hash, Structural)]
pub struct RegisterHint {
    pub register: usize,
    pub register_type: RegisterType,
}

/// What the encoder records about the instruction at one byte offset.
#[derive(Clone, Copy, Debug, PartialEq, Eq, Hash, Structural)]
pub struct DebugInfo {
    pub line_number: usize,
    pub register_hint: Option<RegisterHint>,
}

impl DebugInfo {
    /// Debug information for an instruction on `line_number`, with no hint.
    pub fn new(line_number: usize) -> (d: DebugInfo)
        ensures
            d == (DebugInfo { line_number, register_hint: None }),
    {
        DebugInfo { line_number, register_hint: None }
    }

    /// Whether the hint says that `register` holds an address.
    pub open spec fn marks_address(self, register: usize) -> bool {
        self.register_hint == Some(
            RegisterHint { register, register_type: RegisterType::Addr },
        )
    }
}

} // verus!
