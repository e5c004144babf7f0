use vstd::prelude::*;
use vstd::string::*;
use crate::debuginfo::RegisterType;
use crate::log_buffer::{LogBuffer, line_feed};
use crate::text::{decimal, hexadecimal_fixed, push_decimal, push_hexadecimal_fixed};

verus! {

/// The address that `r1` holds when a program starts: where the guest
/// expects its input data.
pub const MEMORY_INPUT_DATA_START: u64 = 0x400000000;

/// Bytes of memory that a machine has.
pub const MEMORY_SIZE: usize = 20000;

/// The registers `r0` to `r10`.
pub const REGISTER_COUNT: usize = 11;

/// One register: its value and what the value is, for display.
#[derive(Clone, Copy, Debug, PartialEq, Eq, Hash, Structural)]
pub struct Register {
    pub value: u64,
    pub register_type: RegisterType,
}

impl Register {
    /// What the register holds, as it is shown: an address in sixteen
    /// hexadecimal digits behind `0x`, a number in decimal, and `null` for
    /// nothing.
    pub open spec fn shown(self) -> Seq<char> {
        match self.register_type {
            RegisterType::Addr => "0x"@ + hexadecimal_fixed(self.value as nat, 16),
            RegisterType::Int => decimal(self.value as nat),
            RegisterType::Null => "null"@,
        }
    }

    /// What the register holds, as it is shown.
    pub fn display_value(&self) -> (text: String)
        ensures
            text@ == self.shown(),
    {
        let mut text = String::new();
        match self.register_type {
            RegisterType::Addr => {
                text.append("0x");
                push_hexadecimal_fixed(&mut text, self.value, 16);
            },
            RegisterType::Int => {
                push_decimal(&mut text, self.value);
            },
            RegisterType::Null => {
                text.append("null");
            },
        }
        assert(text@ =~= self.shown());
        text
    }
}

/// The name of the register with the given index: `r` and the index.
pub fn register_name(index: usize) -> (name: String)
    ensures
        name@ == "r"@ + decimal(index as nat),
{
    let mut name = String::new();
    name.append("r");
    push_decimal(&mut name, index as u64);
    assert(name@ =~= "r"@ + decimal(index as nat));
    name
}

/// The registers, the memory and the program counter of a machine.
#[derive(Debug)]
pub struct VMState {
    pub registers: [Register; 11],
    pub memory: Vec<u8>,
    pub pc: usize,
    pub exited: bool,
}

/// A machine as a value: what `VMState` holds.
pub struct Machine {
    pub registers: Seq<Register>,
    pub memory: Seq<u8>,
    pub pc: usize,
    pub exited: bool,
}

impl View for VMState {
    type V = Machine;

    open spec fn view(&self) -> Machine {
        Machine {
            registers: self.registers@,
            memory: self.memory@,
            pc: self.pc,
            exited: self.exited,
        }
    }
}

/// A machine with the log that its program writes to.
pub struct Outcome {
    pub machine: Machine,
    pub log: Seq<char>,
}

/// The registers of a machine that has run nothing: `r0` is the number 0,
/// `r1` the address of the input data, and the others hold nothing.
pub open spec fn initial_registers() -> Seq<Register> {
    Seq::new(
        11,
        |i: int|
            if i == 0 {
                Register { value: 0, register_type: RegisterType::Int }
            } else if i == 1 {
                Register { value: MEMORY_INPUT_DATA_START, register_type: RegisterType::Addr }
            } else {
                Register { value: 0, register_type: RegisterType::Null }
            },
    )
}

impl Machine {
    /// A machine that has run nothing: its memory is all zero.
    pub open spec fn initial() -> Machine {
        Machine {
            registers: initial_registers(),
            memory: Seq::new(MEMORY_SIZE as nat, |i: int| 0u8),
            pc: 0,
            exited: false,
        }
    }

    /// The type that a register has after a write that asks for `asked`: an
    /// address where that is asked for; else a number where the register held
    /// nothing; else what is asked for.
    pub open spec fn written_type(self, register: int, asked: RegisterType) -> RegisterType {
        if asked == RegisterType::Addr {
            RegisterType::Addr
        } else if self.registers[register].register_type == RegisterType::Null {
            RegisterType::Int
        } else {
            asked
        }
    }

    /// The machine after `value` is written to a register.
    pub open spec fn write(self, register: int, value: u64, asked: RegisterType) -> Machine {
        Machine {
            registers: self.registers.update(
                register,
                Register { value, register_type: self.written_type(register, asked) },
            ),
            ..self
        }
    }
}

impl VMState {
    /// A machine that has run nothing.
    pub fn new() -> (vm: VMState)
        ensures
            vm@ == Machine::initial(),
    {
        let vm = VMState {
            registers: [
                Register { value: 0, register_type: RegisterType::Int },
                Register { value: MEMORY_INPUT_DATA_START, register_type: RegisterType::Addr },
                Register { value: 0, register_type: RegisterType::Null },
                Register { value: 0, register_type: RegisterType::Null },
                Register { value: 0, register_type: RegisterType::Null },
                Register { value: 0, register_type: RegisterType::Null },
                Register { value: 0, register_type: RegisterType::Null },
                Register { value: 0, register_type: RegisterType::Null },
                Register { value: 0, register_type: RegisterType::Null },
                Register { value: 0, register_type: RegisterType::Null },
                Register { value: 0, register_type: RegisterType::Null },
            ],
            memory: vec![0u8; MEMORY_SIZE],
            pc: 0,
            exited: false,
        };
        assert(vm.registers@ =~= initial_registers());
        assert(vm.memory@ =~= Machine::initial().memory);
        vm
    }

    /// Halts the machine, and logs what `r0` holds.
    pub fn exit(&mut self, log: &mut LogBuffer)
        ensures
            final(self)@ == (Machine { exited: true, ..old(self)@ }),
            final(log)@ == old(log)@ + decimal(old(self).registers[0].value as nat) + line_feed(),
    {
        let mut message = String::new();
        push_decimal(&mut message, self.registers[0].value);
        log.log_message(message.as_str());
        self.exited = true;
        assert(Seq::<char>::empty() + decimal(self.registers[0].value as nat) =~= decimal(
            self.registers[0].value as nat,
        ));
    }

    /// Puts the machine back to where it was before it ran anything.
    pub fn reset(&mut self)
        ensures
            final(self)@ == Machine::initial(),
    {
        *self = VMState::new();
    }

    /// Writes `value` to a register.
    pub fn update_register(&mut self, register: usize, value: u64, register_type: RegisterType)
        requires
            register < REGISTER_COUNT,
        ensures
            final(self)@ == old(self)@.write(register as int, value, register_type),
    {
        let kept = if register_type == RegisterType::Addr {
            RegisterType::Addr
        } else if self.registers[register].register_type == RegisterType::Null {
            RegisterType::Int
        } else {
            register_type
        };
        self.registers[register] = Register { value, register_type: kept };
    }
}

} // verus!
