use vstd::prelude::*;
use vstd::string::*;
use crate::astnode::{NodeView, node_bytes, operand_fields};
use crate::debuginfo::{DebugInfo, RegisterType};
use crate::encoding::{
    Fields, field_dst, field_imm32, field_imm64, field_offset, field_src, lemma_decode_encode,
    read_dst, read_imm32, read_imm64, read_offset, read_src, registers_byte, slot_bytes,
};
use crate::error::{DecodeError, RuntimeError};
use crate::log_buffer::{LogBuffer, line_feed};
use crate::opcode::Opcode;
use crate::program::Program;
use crate::state::{Machine, Outcome, REGISTER_COUNT, VMState};
use crate::text::{decimal, push_decimal, push_lossy, utf8_lossy};

verus! {

/// The syscall that logs.
pub const SYSCALL_LOG: u32 = 0x10;

/// `lddw`: loads a 64-bit immediate.
#[derive(Clone, Copy, Debug, PartialEq, Eq, Hash, Structural)]
pub struct Lddw {
    pub register: usize,
    pub value: u64,
}

/// `ldxb`: loads one byte of memory.
#[derive(Clone, Copy, Debug, PartialEq, Eq, Hash, Structural)]
pub struct Ldxb {
    pub register: usize,
    pub base_reg: usize,
    pub offset: i16,
}

/// `add` of an immediate, which is held sign-extended to 64 bits.
#[derive(Clone, Copy, Debug, PartialEq, Eq, Hash, Structural)]
pub struct AddImm {
    pub register: usize,
    pub value: u64,
}

/// `add` of a register.
#[derive(Clone, Copy, Debug, PartialEq, Eq, Hash, Structural)]
pub struct AddReg {
    pub src: usize,
    pub dest: usize,
}

/// `sub` of an immediate, which is held sign-extended to 64 bits.
#[derive(Clone, Copy, Debug, PartialEq, Eq, Hash, Structural)]
pub struct SubImm {
    pub register: usize,
    pub value: u64,
}

/// `sub` of a register.
#[derive(Clone, Copy, Debug, PartialEq, Eq, Hash, Structural)]
pub struct SubReg {
    pub src: usize,
    pub dest: usize,
}

/// `mov` of an immediate, which is held sign-extended to 64 bits.
#[derive(Clone, Copy, Debug, PartialEq, Eq, Hash, Structural)]
pub struct MoveImm {
    pub register: usize,
    pub value: u64,
}

/// `mov` of a register.
#[derive(Clone, Copy, Debug, PartialEq, Eq, Hash, Structural)]
pub struct MoveReg {
    pub src: usize,
    pub dest: usize,
}

/// `ja`, or a jump on the comparison of a register with an immediate, which
/// is held sign-extended to 64 bits. `offset` counts instructions from the one
/// after the jump.
#[derive(Clone, Copy, Debug, PartialEq, Eq, Hash, Structural)]
pub struct Jump {
    pub register: usize,
    pub offset: i16,
    pub value: u64,
    pub opcode: Opcode,
}

/// `call`: a syscall by its number.
#[derive(Clone, Copy, Debug, PartialEq, Eq, Hash, Structural)]
pub struct Call {
    pub function_id: u32,
}

/// `exit`
#[derive(Clone, Copy, Debug, PartialEq, Eq, Hash, Structural)]
pub struct Exit;

/// An instruction that the interpreter runs.
#[derive(Clone, Copy, Debug, PartialEq, Eq, Hash, Structural)]
pub enum InstructionType {
    Lddw(Lddw),
    Ldxb(Ldxb),
    AddImm(AddImm),
    AddReg(AddReg),
    SubImm(SubImm),
    SubReg(SubReg),
    MoveImm(MoveImm),
    MoveReg(MoveReg),
    Jump(Jump),
    Call(Call),
    Exit(Exit),
}

/// The 32-bit immediate of an instruction as a register holds it: extended by its sign.
pub open spec fn extended_imm(bytes: Seq<u8>) -> u64 {
    field_imm32(bytes) as i64 as u64
}

fn read_extended_imm(bytes: &[u8]) -> (v: u64)
    requires
        bytes.len() >= 8,
    ensures
        v == extended_imm(bytes@),
{
    #[verifier::truncate]
    (read_imm32(bytes) as i64 as u64)
}

/// The number of the syscall that a `call` names: its second to fourth byte, little-endian.
pub open spec fn field_function_id(bytes: Seq<u8>) -> u32 {
    (bytes[1] as u32 + bytes[2] as u32 * 0x100 + bytes[3] as u32 * 0x1_0000) as u32
}

impl Lddw {
    /// The instruction that `bytes` start with, unless they are fewer than sixteen.
    pub open spec fn decoded(bytes: Seq<u8>) -> Result<Lddw, DecodeError> {
        if bytes.len() < 16 {
            Err(DecodeError::Truncated)
        } else {
            Ok(Lddw { register: field_dst(bytes) as usize, value: field_imm64(bytes) })
        }
    }

    /// Reads an `lddw` from its sixteen bytes.
    pub fn decode(bytes: &[u8]) -> (r: Result<Lddw, DecodeError>)
        ensures
            r == Lddw::decoded(bytes@),
    {
        if bytes.len() < 16 {
            return Err(DecodeError::Truncated);
        }
        Ok(Lddw { register: read_dst(bytes) as usize, value: read_imm64(bytes) })
    }

    /// The register gets the immediate; it holds an address where the debug
    /// information says so, and a number where not.
    pub open spec fn effect(self, m: Machine, debug_info: Option<DebugInfo>) -> Result<
        Machine,
        RuntimeError,
    > {
        if self.register >= REGISTER_COUNT {
            Err(RuntimeError::InvalidRegister { index: self.register })
        } else {
            let asked = if debug_info is Some && debug_info->0.marks_address(self.register) {
                RegisterType::Addr
            } else {
                RegisterType::Int
            };
            Ok(m.write(self.register as int, self.value, asked))
        }
    }

    /// Does to the machine and the log what `effect` says.
    pub fn execute(
        &self,
        vm: &mut VMState,
        program: &Program,
        debug_info: Option<&DebugInfo>,
        log: &mut LogBuffer,
    ) -> (r: Result<(), RuntimeError>)
        ensures
            final(log)@ == old(log)@,
            match self.effect(
                old(vm)@,
                match debug_info {
                    Some(d) => Some(*d),
                    None => None,
                },
            ) {
                Ok(m) => r is Ok && final(vm)@ == m,
                Err(e) => r == Err::<(), RuntimeError>(e) && final(vm)@ == old(vm)@,
            },
    {
        if self.register >= REGISTER_COUNT {
            return Err(RuntimeError::InvalidRegister { index: self.register });
        }
        let marked = match debug_info {
            Some(d) => match d.register_hint {
                Some(h) => h.register == self.register && h.register_type == RegisterType::Addr,
                None => false,
            },
            None => false,
        };
        let asked = if marked {
            RegisterType::Addr
        } else {
            RegisterType::Int
        };
        vm.update_register(self.register, self.value, asked);
        Ok(())
    }
}

impl Ldxb {
    /// The instruction that `bytes` start with, unless they are fewer than eight.
    pub open spec fn decoded(bytes: Seq<u8>) -> Result<Ldxb, DecodeError> {
        if bytes.len() < 8 {
            Err(DecodeError::Truncated)
        } else {
            Ok(
                Ldxb {
                    register: field_dst(bytes) as usize,
                    base_reg: field_src(bytes) as usize,
                    offset: field_offset(bytes),
                },
            )
        }
    }

    /// Reads an `ldxb` from its eight bytes.
    pub fn decode(bytes: &[u8]) -> (r: Result<Ldxb, DecodeError>)
        ensures
            r == Ldxb::decoded(bytes@),
    {
        if bytes.len() < 8 {
            return Err(DecodeError::Truncated);
        }
        Ok(
            Ldxb {
                register: read_dst(bytes) as usize,
                base_reg: read_src(bytes) as usize,
                offset: read_offset(bytes),
            },
        )
    }

    /// The register gets, as a number, the byte of memory at the address
    /// that the base register holds plus the offset.
    pub open spec fn effect(self, m: Machine) -> Result<Machine, RuntimeError> {
        if self.register >= REGISTER_COUNT {
            Err(RuntimeError::InvalidRegister { index: self.register })
        } else if self.base_reg >= REGISTER_COUNT {
            Err(RuntimeError::InvalidRegister { index: self.base_reg })
        } else {
            let address = m.registers[self.base_reg as int].value + self.offset;
            if 0 <= address < m.memory.len() {
                Ok(m.write(self.register as int, m.memory[address] as u64, RegisterType::Int))
            } else {
                Err(RuntimeError::MemoryOutOfBounds)
            }
        }
    }

    /// Does to the machine and the log what `effect` says.
    pub fn execute(
        &self,
        vm: &mut VMState,
        program: &Program,
        debug_info: Option<&DebugInfo>,
        log: &mut LogBuffer,
    ) -> (r: Result<(), RuntimeError>)
        ensures
            final(log)@ == old(log)@,
            match self.effect(old(vm)@) {
                Ok(m) => r is Ok && final(vm)@ == m,
                Err(e) => r == Err::<(), RuntimeError>(e) && final(vm)@ == old(vm)@,
            },
    {
        if self.register >= REGISTER_COUNT {
            return Err(RuntimeError::InvalidRegister { index: self.register });
        }
        if self.base_reg >= REGISTER_COUNT {
            return Err(RuntimeError::InvalidRegister { index: self.base_reg });
        }
        let base = vm.registers[self.base_reg].value;
        let size = vm.memory.len() as u64;
        let address: u64 = if self.offset >= 0 {
            let up = self.offset as u64;
            if base >= size || up >= size - base {
                return Err(RuntimeError::MemoryOutOfBounds);
            }
            base + up
        } else {
            let down = (-(self.offset as i32)) as u64;
            if base < down || base - down >= size {
                return Err(RuntimeError::MemoryOutOfBounds);
            }
            base - down
        };
        let byte = vm.memory[address as usize];
        vm.update_register(self.register, byte as u64, RegisterType::Int);
        Ok(())
    }
}

/// What an instruction does to the one register that it reads and writes.
pub open spec fn in_place(
    m: Machine,
    register: usize,
    result: spec_fn(u64) -> u64,
) -> Result<Machine, RuntimeError> {
    if register >= REGISTER_COUNT {
        Err(RuntimeError::InvalidRegister { index: register })
    } else {
        let r = m.registers[register as int];
        Ok(m.write(register as int, result(r.value), r.register_type))
    }
}

/// What an instruction does that reads `src` and writes `dest`.
pub open spec fn from_register(
    m: Machine,
    dest: usize,
    src: usize,
    result: spec_fn(u64, u64) -> u64,
    asked: spec_fn(RegisterType) -> RegisterType,
) -> Result<Machine, RuntimeError> {
    if dest >= REGISTER_COUNT {
        Err(RuntimeError::InvalidRegister { index: dest })
    } else if src >= REGISTER_COUNT {
        Err(RuntimeError::InvalidRegister { index: src })
    } else {
        let d = m.registers[dest as int];
        let s = m.registers[src as int];
        Ok(m.write(dest as int, result(d.value, s.value), asked(d.register_type)))
    }
}

impl AddImm {
    /// The instruction that `bytes` start with, unless they are fewer than eight.
    pub open spec fn decoded(bytes: Seq<u8>) -> Result<AddImm, DecodeError> {
        if bytes.len() < 8 {
            Err(DecodeError::Truncated)
        } else {
            Ok(AddImm { register: field_dst(bytes) as usize, value: extended_imm(bytes) })
        }
    }

    /// Reads an `add` of an immediate from its eight bytes.
    pub fn decode(bytes: &[u8]) -> (r: Result<AddImm, DecodeError>)
        ensures
            r == AddImm::decoded(bytes@),
    {
        if bytes.len() < 8 {
            return Err(DecodeError::Truncated);
        }
        Ok(AddImm { register: read_dst(bytes) as usize, value: read_extended_imm(bytes) })
    }

    /// The register gets its value plus the immediate, modulo 2^64, and keeps its type.
    pub open spec fn effect(self, m: Machine) -> Result<Machine, RuntimeError> {
        in_place(m, self.register, |v: u64| v.wrapping_add(self.value))
    }

    /// Does to the machine and the log what `effect` says.
    pub fn execute(
        &self,
        vm: &mut VMState,
        program: &Program,
        debug_info: Option<&DebugInfo>,
        log: &mut LogBuffer,
    ) -> (r: Result<(), RuntimeError>)
        ensures
            final(log)@ == old(log)@,
            match self.effect(old(vm)@) {
                Ok(m) => r is Ok && final(vm)@ == m,
                Err(e) => r == Err::<(), RuntimeError>(e) && final(vm)@ == old(vm)@,
            },
    {
        if self.register >= REGISTER_COUNT {
            return Err(RuntimeError::InvalidRegister { index: self.register });
        }
        let r = vm.registers[self.register];
        vm.update_register(self.register, r.value.wrapping_add(self.value), r.register_type);
        Ok(())
    }
}

impl AddReg {
    /// The instruction that `bytes` start with, unless they are fewer than eight.
    pub open spec fn decoded(bytes: Seq<u8>) -> Result<AddReg, DecodeError> {
        if bytes.len() < 8 {
            Err(DecodeError::Truncated)
        } else {
            Ok(AddReg { src: field_src(bytes) as usize, dest: field_dst(bytes) as usize })
        }
    }

    /// Reads an `add` of a register from its eight bytes.
    pub fn decode(bytes: &[u8]) -> (r: Result<AddReg, DecodeError>)
        ensures
            r == AddReg::decoded(bytes@),
    {
        if bytes.len() < 8 {
            return Err(DecodeError::Truncated);
        }
        Ok(AddReg { src: read_src(bytes) as usize, dest: read_dst(bytes) as usize })
    }

    /// `dest` gets its value plus that of `src`, modulo 2^64, and keeps its type.
    pub open spec fn effect(self, m: Machine) -> Result<Machine, RuntimeError> {
        from_register(
            m,
            self.dest,
            self.src,
            |d: u64, s: u64| d.wrapping_add(s),
            |t: RegisterType| t,
        )
    }

    /// Does to the machine and the log what `effect` says.
    pub fn execute(
        &self,
        vm: &mut VMState,
        program: &Program,
        debug_info: Option<&DebugInfo>,
        log: &mut LogBuffer,
    ) -> (r: Result<(), RuntimeError>)
        ensures
            final(log)@ == old(log)@,
            match self.effect(old(vm)@) {
                Ok(m) => r is Ok && final(vm)@ == m,
                Err(e) => r == Err::<(), RuntimeError>(e) && final(vm)@ == old(vm)@,
            },
    {
        if self.dest >= REGISTER_COUNT {
            return Err(RuntimeError::InvalidRegister { index: self.dest });
        }
        if self.src >= REGISTER_COUNT {
            return Err(RuntimeError::InvalidRegister { index: self.src });
        }
        let d = vm.registers[self.dest];
        let s = vm.registers[self.src];
        vm.update_register(self.dest, d.value.wrapping_add(s.value), d.register_type);
        Ok(())
    }
}

impl SubImm {
    /// The instruction that `bytes` start with, unless they are fewer than eight.
    pub open spec fn decoded(bytes: Seq<u8>) -> Result<SubImm, DecodeError> {
        if bytes.len() < 8 {
            Err(DecodeError::Truncated)
        } else {
            Ok(SubImm { register: field_dst(bytes) as usize, value: extended_imm(bytes) })
        }
    }

    /// Reads a `sub` of an immediate from its eight bytes.
    pub fn decode(bytes: &[u8]) -> (r: Result<SubImm, DecodeError>)
        ensures
            r == SubImm::decoded(bytes@),
    {
        if bytes.len() < 8 {
            return Err(DecodeError::Truncated);
        }
        Ok(SubImm { register: read_dst(bytes) as usize, value: read_extended_imm(bytes) })
    }

    /// The register gets its value minus the immediate, modulo 2^64, and keeps its type.
    pub open spec fn effect(self, m: Machine) -> Result<Machine, RuntimeError> {
        in_place(m, self.register, |v: u64| v.wrapping_sub(self.value))
    }

    /// Does to the machine and the log what `effect` says.
    pub fn execute(
        &self,
        vm: &mut VMState,
        program: &Program,
        debug_info: Option<&DebugInfo>,
        log: &mut LogBuffer,
    ) -> (r: Result<(), RuntimeError>)
        ensures
            final(log)@ == old(log)@,
            match self.effect(old(vm)@) {
                Ok(m) => r is Ok && final(vm)@ == m,
                Err(e) => r == Err::<(), RuntimeError>(e) && final(vm)@ == old(vm)@,
            },
    {
        if self.register >= REGISTER_COUNT {
            return Err(RuntimeError::InvalidRegister { index: self.register });
        }
        let r = vm.registers[self.register];
        vm.update_register(self.register, r.value.wrapping_sub(self.value), r.register_type);
        Ok(())
    }
}

impl SubReg {
    /// The instruction that `bytes` start with, unless they are fewer than eight.
    pub open spec fn decoded(bytes: Seq<u8>) -> Result<SubReg, DecodeError> {
        if bytes.len() < 8 {
            Err(DecodeError::Truncated)
        } else {
            Ok(SubReg { src: field_src(bytes) as usize, dest: field_dst(bytes) as usize })
        }
    }

    /// Reads a `sub` of a register from its eight bytes.
    pub fn decode(bytes: &[u8]) -> (r: Result<SubReg, DecodeError>)
        ensures
            r == SubReg::decoded(bytes@),
    {
        if bytes.len() < 8 {
            return Err(DecodeError::Truncated);
        }
        Ok(SubReg { src: read_src(bytes) as usize, dest: read_dst(bytes) as usize })
    }

    /// `dest` gets its value minus that of `src`, modulo 2^64, and keeps its type.
    pub open spec fn effect(self, m: Machine) -> Result<Machine, RuntimeError> {
        from_register(
            m,
            self.dest,
            self.src,
            |d: u64, s: u64| d.wrapping_sub(s),
            |t: RegisterType| t,
        )
    }

    /// Does to the machine and the log what `effect` says.
    pub fn execute(
        &self,
        vm: &mut VMState,
        program: &Program,
        debug_info: Option<&DebugInfo>,
        log: &mut LogBuffer,
    ) -> (r: Result<(), RuntimeError>)
        ensures
            final(log)@ == old(log)@,
            match self.effect(old(vm)@) {
                Ok(m) => r is Ok && final(vm)@ == m,
                Err(e) => r == Err::<(), RuntimeError>(e) && final(vm)@ == old(vm)@,
            },
    {
        if self.dest >= REGISTER_COUNT {
            return Err(RuntimeError::InvalidRegister { index: self.dest });
        }
        if self.src >= REGISTER_COUNT {
            return Err(RuntimeError::InvalidRegister { index: self.src });
        }
        let d = vm.registers[self.dest];
        let s = vm.registers[self.src];
        vm.update_register(self.dest, d.value.wrapping_sub(s.value), d.register_type);
        Ok(())
    }
}

impl MoveImm {
    /// The instruction that `bytes` start with, unless they are fewer than eight.
    pub open spec fn decoded(bytes: Seq<u8>) -> Result<MoveImm, DecodeError> {
        if bytes.len() < 8 {
            Err(DecodeError::Truncated)
        } else {
            Ok(MoveImm { register: field_dst(bytes) as usize, value: extended_imm(bytes) })
        }
    }

    /// Reads a `mov` of an immediate from its eight bytes.
    pub fn decode(bytes: &[u8]) -> (r: Result<MoveImm, DecodeError>)
        ensures
            r == MoveImm::decoded(bytes@),
    {
        if bytes.len() < 8 {
            return Err(DecodeError::Truncated);
        }
        Ok(MoveImm { register: read_dst(bytes) as usize, value: read_extended_imm(bytes) })
    }

    /// The register gets the immediate, as a number.
    pub open spec fn effect(self, m: Machine) -> Result<Machine, RuntimeError> {
        if self.register >= REGISTER_COUNT {
            Err(RuntimeError::InvalidRegister { index: self.register })
        } else {
            Ok(m.write(self.register as int, self.value, RegisterType::Int))
        }
    }

    /// Does to the machine and the log what `effect` says.
    pub fn execute(
        &self,
        vm: &mut VMState,
        program: &Program,
        debug_info: Option<&DebugInfo>,
        log: &mut LogBuffer,
    ) -> (r: Result<(), RuntimeError>)
        ensures
            final(log)@ == old(log)@,
            match self.effect(old(vm)@) {
                Ok(m) => r is Ok && final(vm)@ == m,
                Err(e) => r == Err::<(), RuntimeError>(e) && final(vm)@ == old(vm)@,
            },
    {
        if self.register >= REGISTER_COUNT {
            return Err(RuntimeError::InvalidRegister { index: self.register });
        }
        vm.update_register(self.register, self.value, RegisterType::Int);
        Ok(())
    }
}

impl MoveReg {
    /// The instruction that `bytes` start with, unless they are fewer than eight.
    pub open spec fn decoded(bytes: Seq<u8>) -> Result<MoveReg, DecodeError> {
        if bytes.len() < 8 {
            Err(DecodeError::Truncated)
        } else {
            Ok(MoveReg { src: field_src(bytes) as usize, dest: field_dst(bytes) as usize })
        }
    }

    /// Reads a `mov` of a register from its eight bytes.
    pub fn decode(bytes: &[u8]) -> (r: Result<MoveReg, DecodeError>)
        ensures
            r == MoveReg::decoded(bytes@),
    {
        if bytes.len() < 8 {
            return Err(DecodeError::Truncated);
        }
        Ok(MoveReg { src: read_src(bytes) as usize, dest: read_dst(bytes) as usize })
    }

    /// `dest` gets the value of `src`, as a number.
    pub open spec fn effect(self, m: Machine) -> Result<Machine, RuntimeError> {
        from_register(
            m,
            self.dest,
            self.src,
            |d: u64, s: u64| s,
            |t: RegisterType| RegisterType::Int,
        )
    }

    /// Does to the machine and the log what `effect` says.
    pub fn execute(
        &self,
        vm: &mut VMState,
        program: &Program,
        debug_info: Option<&DebugInfo>,
        log: &mut LogBuffer,
    ) -> (r: Result<(), RuntimeError>)
        ensures
            final(log)@ == old(log)@,
            match self.effect(old(vm)@) {
                Ok(m) => r is Ok && final(vm)@ == m,
                Err(e) => r == Err::<(), RuntimeError>(e) && final(vm)@ == old(vm)@,
            },
    {
        if self.dest >= REGISTER_COUNT {
            return Err(RuntimeError::InvalidRegister { index: self.dest });
        }
        if self.src >= REGISTER_COUNT {
            return Err(RuntimeError::InvalidRegister { index: self.src });
        }
        let s = vm.registers[self.src];
        vm.update_register(self.dest, s.value, RegisterType::Int);
        Ok(())
    }
}

/// Whether a jump with this opcode is taken when the register holds `left`
/// and the immediate is `right`; `None` for an opcode that is no jump the
/// interpreter runs. The comparisons are of unsigned numbers.
pub open spec fn jump_taken(opcode: Opcode, left: u64, right: u64) -> Option<bool> {
    match opcode {
        Opcode::Ja => Some(true),
        Opcode::JeqImm => Some(left == right),
        Opcode::JneImm => Some(left != right),
        Opcode::JgtImm => Some(left > right),
        Opcode::JgeImm => Some(left >= right),
        Opcode::JltImm => Some(left < right),
        Opcode::JleImm => Some(left <= right),
        _ => None,
    }
}

impl Jump {
    /// The instruction that `bytes` start with, unless they are fewer than eight.
    pub open spec fn decoded(bytes: Seq<u8>, opcode: Opcode) -> Result<Jump, DecodeError> {
        if bytes.len() < 8 {
            Err(DecodeError::Truncated)
        } else {
            Ok(
                Jump {
                    register: field_dst(bytes) as usize,
                    offset: field_offset(bytes),
                    value: extended_imm(bytes),
                    opcode,
                },
            )
        }
    }

    /// Reads a jump from its eight bytes; the caller has read the opcode.
    pub fn decode(bytes: &[u8], opcode: Opcode) -> (r: Result<Jump, DecodeError>)
        ensures
            r == Jump::decoded(bytes@, opcode),
    {
        if bytes.len() < 8 {
            return Err(DecodeError::Truncated);
        }
        Ok(
            Jump {
                register: read_dst(bytes) as usize,
                offset: read_offset(bytes),
                value: read_extended_imm(bytes),
                opcode,
            },
        )
    }

    /// A jump that is taken moves the program counter by `offset`
    /// instructions of eight bytes; the step to the next instruction, which
    /// follows every instruction, comes on top. A jump is refused where that
    /// leaves the range of addresses.
    pub open spec fn effect(self, m: Machine) -> Result<Machine, RuntimeError> {
        if jump_taken(self.opcode, 0, 0) is None {
            Err(RuntimeError::InvalidJump)
        } else if self.opcode != Opcode::Ja && self.register >= REGISTER_COUNT {
            Err(RuntimeError::InvalidRegister { index: self.register })
        } else if !jump_taken(self.opcode, m.registers[self.register as int].value, self.value)->0 {
            Ok(m)
        } else if 0 <= m.pc + self.offset * 8 && m.pc + self.offset * 8 + 8 <= usize::MAX {
            Ok(Machine { pc: (m.pc + self.offset * 8) as usize, ..m })
        } else {
            Err(RuntimeError::InvalidJump)
        }
    }

    /// Does to the machine and the log what `effect` says.
    pub fn execute(
        &self,
        vm: &mut VMState,
        program: &Program,
        debug_info: Option<&DebugInfo>,
        log: &mut LogBuffer,
    ) -> (r: Result<(), RuntimeError>)
        ensures
            final(log)@ == old(log)@,
            match self.effect(old(vm)@) {
                Ok(m) => r is Ok && final(vm)@ == m,
                Err(e) => r == Err::<(), RuntimeError>(e) && final(vm)@ == old(vm)@,
            },
    {
        let unconditional = self.opcode == Opcode::Ja;
        let known = match self.opcode {
            Opcode::Ja
            | Opcode::JeqImm
            | Opcode::JneImm
            | Opcode::JgtImm
            | Opcode::JgeImm
            | Opcode::JltImm
            | Opcode::JleImm => true,
            _ => false,
        };
        if !known {
            return Err(RuntimeError::InvalidJump);
        }
        if !unconditional && self.register >= REGISTER_COUNT {
            return Err(RuntimeError::InvalidRegister { index: self.register });
        }
        let taken = if unconditional {
            true
        } else {
            let left = vm.registers[self.register].value;
            match self.opcode {
                Opcode::JeqImm => left == self.value,
                Opcode::JneImm => left != self.value,
                Opcode::JgtImm => left > self.value,
                Opcode::JgeImm => left >= self.value,
                Opcode::JltImm => left < self.value,
                _ => left <= self.value,
            }
        };
        if !taken {
            return Ok(());
        }
        let pc = vm.pc;
        if self.offset >= 0 {
            let up = self.offset as usize * 8;
            if pc > usize::MAX - 8 || up > usize::MAX - 8 - pc {
                return Err(RuntimeError::InvalidJump);
            }
            vm.pc = pc + up;
        } else {
            let down = (-(self.offset as i32)) as usize * 8;
            if pc < down || pc - down > usize::MAX - 8 {
                return Err(RuntimeError::InvalidJump);
            }
            vm.pc = pc - down;
        }
        Ok(())
    }
}

impl Call {
    /// The instruction that `bytes` start with, unless they are fewer than eight.
    pub open spec fn decoded(bytes: Seq<u8>) -> Result<Call, DecodeError> {
        if bytes.len() < 8 {
            Err(DecodeError::Truncated)
        } else {
            Ok(Call { function_id: field_function_id(bytes) })
        }
    }

    /// Reads a `call` from its eight bytes.
    pub fn decode(bytes: &[u8]) -> (r: Result<Call, DecodeError>)
        ensures
            r == Call::decoded(bytes@),
    {
        if bytes.len() < 8 {
            return Err(DecodeError::Truncated);
        }
        Ok(
            Call {
                function_id: bytes[1] as u32 + bytes[2] as u32 * 0x100 + bytes[3] as u32 * 0x1_0000,
            },
        )
    }

    /// The message that the log syscall writes: where `r2` is not zero, the
    /// `r2` bytes of the image from `r1` on, read as text; where it is zero,
    /// `r1` in decimal.
    pub open spec fn message(r1: u64, r2: u64, image: Seq<u8>) -> Seq<char> {
        if r2 > 0 {
            "sol_log_: "@ + utf8_lossy(image.subrange(r1 as int, r1 + r2))
        } else {
            "sol_log_64_: "@ + decimal(r1 as nat)
        }
    }

    /// The log syscall appends its message to the log. Every other syscall
    /// is refused, and so is a message that reaches past the image.
    pub open spec fn effect(self, m: Machine, image: Seq<u8>, log: Seq<char>) -> Result<
        Seq<char>,
        RuntimeError,
    > {
        let r1 = m.registers[1].value;
        let r2 = m.registers[2].value;
        if self.function_id != SYSCALL_LOG {
            Err(RuntimeError::InvalidSyscall { id: self.function_id })
        } else if r2 > 0 && r1 + r2 > image.len() {
            Err(RuntimeError::MemoryOutOfBounds)
        } else {
            Ok(log + Call::message(r1, r2, image) + line_feed())
        }
    }

    /// Does to the machine and the log what `effect` says.
    pub fn execute(
        &self,
        vm: &mut VMState,
        program: &Program,
        debug_info: Option<&DebugInfo>,
        log: &mut LogBuffer,
    ) -> (r: Result<(), RuntimeError>)
        ensures
            final(vm)@ == old(vm)@,
            match self.effect(old(vm)@, program.bytecode@, old(log)@) {
                Ok(text) => r is Ok && final(log)@ == text,
                Err(e) => r == Err::<(), RuntimeError>(e) && final(log)@ == old(log)@,
            },
    {
        if self.function_id != SYSCALL_LOG {
            return Err(RuntimeError::InvalidSyscall { id: self.function_id });
        }
        let r1 = vm.registers[1].value;
        let r2 = vm.registers[2].value;
        let mut message = String::new();
        if r2 > 0 {
            let bytes = match program.read(r1, r2) {
                Ok(bytes) => bytes,
                Err(e) => {
                    return Err(e);
                },
            };
            message.append("sol_log_: ");
            push_lossy(&mut message, bytes.as_slice());
        } else {
            message.append("sol_log_64_: ");
            push_decimal(&mut message, r1);
        }
        assert(message@ =~= Call::message(r1, r2, program.bytecode@));
        log.log_message(message.as_str());
        Ok(())
    }
}

impl Exit {
    /// The machine halts, and the log gets what `r0` holds, in decimal.
    pub open spec fn effect(self, o: Outcome) -> Outcome {
        Outcome {
            machine: Machine { exited: true, ..o.machine },
            log: o.log + decimal(o.machine.registers[0].value as nat) + line_feed(),
        }
    }

    /// Does to the machine and the log what `effect` says.
    pub fn execute(
        &self,
        vm: &mut VMState,
        program: &Program,
        debug_info: Option<&DebugInfo>,
        log: &mut LogBuffer,
    ) -> (r: Result<(), RuntimeError>)
        ensures
            r is Ok,
            (Outcome { machine: final(vm)@, log: final(log)@ }) == self.effect(
                Outcome { machine: old(vm)@, log: old(log)@ },
            ),
    {
        vm.exit(log);
        Ok(())
    }
}

impl InstructionType {
    /// What the instruction does to a machine and its log; the machine and
    /// the log stay as they are where it fails.
    pub open spec fn effect(
        self,
        o: Outcome,
        image: Seq<u8>,
        debug_info: Option<DebugInfo>,
    ) -> Result<Outcome, RuntimeError> {
        let machine: Result<Machine, RuntimeError> = match self {
            InstructionType::Lddw(i) => i.effect(o.machine, debug_info),
            InstructionType::Ldxb(i) => i.effect(o.machine),
            InstructionType::AddImm(i) => i.effect(o.machine),
            InstructionType::AddReg(i) => i.effect(o.machine),
            InstructionType::SubImm(i) => i.effect(o.machine),
            InstructionType::SubReg(i) => i.effect(o.machine),
            InstructionType::MoveImm(i) => i.effect(o.machine),
            InstructionType::MoveReg(i) => i.effect(o.machine),
            InstructionType::Jump(i) => i.effect(o.machine),
            InstructionType::Call(_) => Ok(o.machine),
            InstructionType::Exit(_) => Ok(o.machine),
        };
        match self {
            InstructionType::Call(i) => match i.effect(o.machine, image, o.log) {
                Ok(log) => Ok(Outcome { machine: o.machine, log }),
                Err(e) => Err(e),
            },
            InstructionType::Exit(i) => Ok(i.effect(o)),
            _ => match machine {
                Ok(m) => Ok(Outcome { machine: m, log: o.log }),
                Err(e) => Err(e),
            },
        }
    }

    /// Does to the machine and the log what `effect` says.
    pub fn execute(
        &self,
        vm: &mut VMState,
        program: &Program,
        debug_info: Option<&DebugInfo>,
        log: &mut LogBuffer,
    ) -> (r: Result<(), RuntimeError>)
        ensures
            match self.effect(
                Outcome { machine: old(vm)@, log: old(log)@ },
                program.bytecode@,
                match debug_info {
                    Some(d) => Some(*d),
                    None => None,
                },
            ) {
                Ok(o) => r is Ok && final(vm)@ == o.machine && final(log)@ == o.log,
                Err(e) => r == Err::<(), RuntimeError>(e) && final(vm)@ == old(vm)@ && final(log)@
                    == old(log)@,
            },
    {
        match self {
            InstructionType::Lddw(i) => i.execute(vm, program, debug_info, log),
            InstructionType::Ldxb(i) => i.execute(vm, program, debug_info, log),
            InstructionType::AddImm(i) => i.execute(vm, program, debug_info, log),
            InstructionType::AddReg(i) => i.execute(vm, program, debug_info, log),
            InstructionType::SubImm(i) => i.execute(vm, program, debug_info, log),
            InstructionType::SubReg(i) => i.execute(vm, program, debug_info, log),
            InstructionType::MoveImm(i) => i.execute(vm, program, debug_info, log),
            InstructionType::MoveReg(i) => i.execute(vm, program, debug_info, log),
            InstructionType::Jump(i) => i.execute(vm, program, debug_info, log),
            InstructionType::Call(i) => i.execute(vm, program, debug_info, log),
            InstructionType::Exit(i) => i.execute(vm, program, debug_info, log),
        }
    }
}

/// The instruction that `bytes` start with, and how many bytes it takes.
pub open spec fn decoded(bytes: Seq<u8>) -> Result<(InstructionType, usize), DecodeError> {
    if bytes.len() == 0 {
        Err(DecodeError::Truncated)
    } else {
        match Opcode::of_byte(bytes[0]) {
            None => Err(DecodeError::UnknownOpcode { byte: bytes[0] }),
            Some(opcode) => {
                let instruction: Result<InstructionType, DecodeError> = match opcode {
                    Opcode::Lddw => match Lddw::decoded(bytes) {
                        Ok(i) => Ok(InstructionType::Lddw(i)),
                        Err(e) => Err(e),
                    },
                    Opcode::Ldxb => match Ldxb::decoded(bytes) {
                        Ok(i) => Ok(InstructionType::Ldxb(i)),
                        Err(e) => Err(e),
                    },
                    Opcode::Add64Imm | Opcode::Add32Imm => match AddImm::decoded(bytes) {
                        Ok(i) => Ok(InstructionType::AddImm(i)),
                        Err(e) => Err(e),
                    },
                    Opcode::Add64Reg | Opcode::Add32Reg => match AddReg::decoded(bytes) {
                        Ok(i) => Ok(InstructionType::AddReg(i)),
                        Err(e) => Err(e),
                    },
                    Opcode::Sub64Imm | Opcode::Sub32Imm => match SubImm::decoded(bytes) {
                        Ok(i) => Ok(InstructionType::SubImm(i)),
                        Err(e) => Err(e),
                    },
                    Opcode::Sub64Reg | Opcode::Sub32Reg => match SubReg::decoded(bytes) {
                        Ok(i) => Ok(InstructionType::SubReg(i)),
                        Err(e) => Err(e),
                    },
                    Opcode::Mov64Imm | Opcode::Mov32Imm => match MoveImm::decoded(bytes) {
                        Ok(i) => Ok(InstructionType::MoveImm(i)),
                        Err(e) => Err(e),
                    },
                    Opcode::Mov64Reg | Opcode::Mov32Reg => match MoveReg::decoded(bytes) {
                        Ok(i) => Ok(InstructionType::MoveReg(i)),
                        Err(e) => Err(e),
                    },
                    Opcode::Ja
                    | Opcode::JeqImm
                    | Opcode::JneImm
                    | Opcode::JgtImm
                    | Opcode::JgeImm
                    | Opcode::JltImm
                    | Opcode::JleImm => match Jump::decoded(bytes, opcode) {
                        Ok(i) => Ok(InstructionType::Jump(i)),
                        Err(e) => Err(e),
                    },
                    Opcode::Call => match Call::decoded(bytes) {
                        Ok(i) => Ok(InstructionType::Call(i)),
                        Err(e) => Err(e),
                    },
                    Opcode::Exit => if bytes.len() < 8 {
                        Err(DecodeError::Truncated)
                    } else {
                        Ok(InstructionType::Exit(Exit))
                    },
                    _ => Err(DecodeError::UnsupportedOpcode { byte: bytes[0] }),
                };
                match instruction {
                    Ok(i) => Ok((i, opcode.width() as usize)),
                    Err(e) => Err(e),
                }
            },
        }
    }
}

/// Decodes the instruction that `bytes` start with.
#[verifier::rlimit(50)]
pub fn decode_instruction(bytes: &[u8]) -> (r: Result<(InstructionType, usize), DecodeError>)
    ensures
        r == decoded(bytes@),
        r is Ok ==> r->Ok_0.1 <= bytes.len(),
{
    if bytes.len() == 0 {
        return Err(DecodeError::Truncated);
    }
    let opcode = match Opcode::from_u8(bytes[0]) {
        Some(opcode) => opcode,
        None => {
            return Err(DecodeError::UnknownOpcode { byte: bytes[0] });
        },
    };
    let instruction = match opcode {
        Opcode::Lddw => match Lddw::decode(bytes) {
            Ok(i) => InstructionType::Lddw(i),
            Err(e) => {
                return Err(e);
            },
        },
        Opcode::Ldxb => match Ldxb::decode(bytes) {
            Ok(i) => InstructionType::Ldxb(i),
            Err(e) => {
                return Err(e);
            },
        },
        Opcode::Add64Imm | Opcode::Add32Imm => match AddImm::decode(bytes) {
            Ok(i) => InstructionType::AddImm(i),
            Err(e) => {
                return Err(e);
            },
        },
        Opcode::Add64Reg | Opcode::Add32Reg => match AddReg::decode(bytes) {
            Ok(i) => InstructionType::AddReg(i),
            Err(e) => {
                return Err(e);
            },
        },
        Opcode::Sub64Imm | Opcode::Sub32Imm => match SubImm::decode(bytes) {
            Ok(i) => InstructionType::SubImm(i),
            Err(e) => {
                return Err(e);
            },
        },
        Opcode::Sub64Reg | Opcode::Sub32Reg => match SubReg::decode(bytes) {
            Ok(i) => InstructionType::SubReg(i),
            Err(e) => {
                return Err(e);
            },
        },
        Opcode::Mov64Imm | Opcode::Mov32Imm => match MoveImm::decode(bytes) {
            Ok(i) => InstructionType::MoveImm(i),
            Err(e) => {
                return Err(e);
            },
        },
        Opcode::Mov64Reg | Opcode::Mov32Reg => match MoveReg::decode(bytes) {
            Ok(i) => InstructionType::MoveReg(i),
            Err(e) => {
                return Err(e);
            },
        },
        Opcode::Ja
        | Opcode::JeqImm
        | Opcode::JneImm
        | Opcode::JgtImm
        | Opcode::JgeImm
        | Opcode::JltImm
        | Opcode::JleImm => match Jump::decode(bytes, opcode) {
            Ok(i) => InstructionType::Jump(i),
            Err(e) => {
                return Err(e);
            },
        },
        Opcode::Call => match Call::decode(bytes) {
            Ok(i) => InstructionType::Call(i),
            Err(e) => {
                return Err(e);
            },
        },
        Opcode::Exit => {
            if bytes.len() < 8 {
                return Err(DecodeError::Truncated);
            }
            InstructionType::Exit(Exit)
        },
        _ => {
            return Err(DecodeError::UnsupportedOpcode { byte: bytes[0] });
        },
    };
    Ok((instruction, opcode.width() as usize))
}


/// The instruction that the interpreter makes of an opcode and its fields;
/// none for an opcode that it does not run.
pub open spec fn instruction_of(opcode: Opcode, f: Fields) -> Option<InstructionType> {
    let dst = f.dst as usize;
    let src = f.src as usize;
    let value = f.imm as u64;
    match opcode {
        Opcode::Lddw => Some(InstructionType::Lddw(Lddw { register: dst, value })),
        Opcode::Ldxb => Some(
            InstructionType::Ldxb(Ldxb { register: dst, base_reg: src, offset: f.offset }),
        ),
        Opcode::Add64Imm | Opcode::Add32Imm => Some(
            InstructionType::AddImm(AddImm { register: dst, value }),
        ),
        Opcode::Add64Reg | Opcode::Add32Reg => Some(
            InstructionType::AddReg(AddReg { src, dest: dst }),
        ),
        Opcode::Sub64Imm | Opcode::Sub32Imm => Some(
            InstructionType::SubImm(SubImm { register: dst, value }),
        ),
        Opcode::Sub64Reg | Opcode::Sub32Reg => Some(
            InstructionType::SubReg(SubReg { src, dest: dst }),
        ),
        Opcode::Mov64Imm | Opcode::Mov32Imm => Some(
            InstructionType::MoveImm(MoveImm { register: dst, value }),
        ),
        Opcode::Mov64Reg | Opcode::Mov32Reg => Some(
            InstructionType::MoveReg(MoveReg { src, dest: dst }),
        ),
        Opcode::Ja
        | Opcode::JeqImm
        | Opcode::JneImm
        | Opcode::JgtImm
        | Opcode::JgeImm
        | Opcode::JltImm
        | Opcode::JleImm => Some(
            InstructionType::Jump(Jump { register: dst, offset: f.offset, value, opcode }),
        ),
        Opcode::Call => Some(
            InstructionType::Call(
                Call {
                    function_id: (registers_byte(f.dst, f.src) + (f.offset as u16) * 0x100) as u32,
                },
            ),
        ),
        Opcode::Exit => Some(InstructionType::Exit(Exit)),
        _ => None,
    }
}

/// What the decoders read from the bytes of an encoded instruction.
proof fn lemma_decoded_fields(opcode: Opcode, f: Fields)
    requires
        opcode.bytecode() is Some,
        f.dst < 16,
        f.src < 16,
        opcode == Opcode::Lddw || i32::MIN <= f.imm <= i32::MAX,
    ensures
        ({
            let bytes = slot_bytes(opcode, f);
            &&& bytes.len() == opcode.width()
            &&& Opcode::of_byte(bytes[0]) == Some(opcode)
            &&& field_dst(bytes) == f.dst
            &&& field_src(bytes) == f.src
            &&& field_offset(bytes) == f.offset
            &&& opcode == Opcode::Lddw ==> field_imm64(bytes) == f.imm as u64
            &&& opcode != Opcode::Lddw ==> extended_imm(bytes) == f.imm as u64
            &&& field_function_id(bytes) == (registers_byte(f.dst, f.src) + (f.offset as u16)
                * 0x100) as u32
        }),
{
    let bytes = slot_bytes(opcode, f);
    lemma_decode_encode(opcode, f);
    let wide = field_imm64(bytes);
    assert((wide as i64) as u64 == wide) by (bit_vector);
    let offset = f.offset as u16;
    assert(bytes[2] == (offset % 0x100) as u8);
    assert(bytes[3] == (offset / 0x100) as u8);
}

/// Decoding the bytes of an encoded instruction gives the instruction that
/// was encoded, and its width; for an opcode that the interpreter does not
/// run it says so. The registers are `r0` to `r15`, and the immediate of
/// every opcode but `lddw` has to fit in 32 bits.
#[verifier::rlimit(50)]
pub proof fn lemma_decode_instruction_round_trip(opcode: Opcode, f: Fields)
    requires
        opcode.bytecode() is Some,
        f.dst < 16,
        f.src < 16,
        opcode == Opcode::Lddw || i32::MIN <= f.imm <= i32::MAX,
    ensures
        decoded(slot_bytes(opcode, f)) == (match instruction_of(opcode, f) {
            Some(i) => Ok::<(InstructionType, usize), DecodeError>((i, opcode.width() as usize)),
            None => Err::<(InstructionType, usize), DecodeError>(
                DecodeError::UnsupportedOpcode { byte: opcode.bytecode()->0 },
            ),
        }),
{
    let bytes = slot_bytes(opcode, f);
    lemma_decoded_fields(opcode, f);
    Opcode::lemma_byte_table(bytes[0]);
    assert(opcode.bytecode() == Some(bytes[0]));
    match opcode {
        Opcode::Lddw => {
            assert(Lddw::decoded(bytes) == Ok::<Lddw, DecodeError>(
                Lddw { register: f.dst as usize, value: f.imm as u64 },
            ));
        },
        Opcode::Ldxb => {
            assert(Ldxb::decoded(bytes) is Ok);
        },
        Opcode::Add64Imm | Opcode::Add32Imm => {
            assert(AddImm::decoded(bytes) is Ok);
        },
        Opcode::Add64Reg | Opcode::Add32Reg => {
            assert(AddReg::decoded(bytes) is Ok);
        },
        Opcode::Sub64Imm | Opcode::Sub32Imm => {
            assert(SubImm::decoded(bytes) is Ok);
        },
        Opcode::Sub64Reg | Opcode::Sub32Reg => {
            assert(SubReg::decoded(bytes) is Ok);
        },
        Opcode::Mov64Imm | Opcode::Mov32Imm => {
            assert(MoveImm::decoded(bytes) is Ok);
        },
        Opcode::Mov64Reg | Opcode::Mov32Reg => {
            assert(MoveReg::decoded(bytes) is Ok);
        },
        Opcode::Ja
        | Opcode::JeqImm
        | Opcode::JneImm
        | Opcode::JgtImm
        | Opcode::JgeImm
        | Opcode::JltImm
        | Opcode::JleImm => {
            assert(Jump::decoded(bytes, opcode) is Ok);
        },
        Opcode::Call => {
            assert(Call::decoded(bytes) is Ok);
        },
        Opcode::Exit => {},
        _ => {},
    }
}

/// Decoding the bytes that the encoder gives for an instruction of the
/// source gives that instruction back: the opcode, and the registers, the
/// offset and the immediate that its operands stand for. An immediate that
/// does not fit in 32 bits is left out, since only `lddw` encodes it whole.
pub proof fn lemma_decode_encoded_node(node: NodeView)
    requires
        node is Instruction,
        node_bytes(node) is Ok,
        node->Instruction_opcode == Opcode::Lddw || i32::MIN <= operand_fields(
            node->Instruction_opcode,
            node->Instruction_operands,
        )->0.imm <= i32::MAX,
    ensures
        ({
            let opcode = node->Instruction_opcode;
            let f = operand_fields(opcode, node->Instruction_operands)->0;
            &&& node_bytes(node)->Ok_0 == Some(slot_bytes(opcode, f))
            &&& decoded(slot_bytes(opcode, f)) == (match instruction_of(opcode, f) {
                Some(i) => Ok::<(InstructionType, usize), DecodeError>(
                    (i, opcode.width() as usize),
                ),
                None => Err::<(InstructionType, usize), DecodeError>(
                    DecodeError::UnsupportedOpcode { byte: opcode.bytecode()->0 },
                ),
            })
        }),
{
    let opcode = node->Instruction_opcode;
    let f = operand_fields(opcode, node->Instruction_operands)->0;
    lemma_decode_instruction_round_trip(opcode, f);
}

} // verus!
