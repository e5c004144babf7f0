use std::collections::HashMap;

use helios::debuginfo::{DebugInfo, RegisterHint, RegisterType};
use helios::error::{DecodeError, LoadError, RuntimeError, VmError};
use helios::image::{assemble_source, build_image, AssembleError};
use helios::lexer::tokenize;
use helios::parser::Parser;
use helios::instruction::{
    AddImm, AddReg, Call, Exit, InstructionType, Jump, Lddw, Ldxb, MoveImm, MoveReg, SubImm,
    SubReg,
};
use helios::log_buffer::LogBuffer;
use helios::opcode::Opcode;
use helios::program::Program;
use helios::session::{assemble, initialize, run, step, RunError};
use helios::state::{register_name, Register, VMState, MEMORY_INPUT_DATA_START, MEMORY_SIZE};
use helios::vm::VM;

fn image(code: &[u8]) -> Vec<u8> {
    let mut bytes = vec![0u8; 64];
    bytes[0..4].copy_from_slice(&[0x7f, 0x45, 0x4c, 0x46]);
    bytes[24] = 64;
    bytes.extend_from_slice(code);
    bytes
}

fn program(code: &[u8]) -> Program {
    Program::new(image(code)).unwrap()
}

fn number(value: u64) -> Register {
    Register { value, register_type: RegisterType::Int }
}

#[test]
fn a_fresh_machine() {
    let state = VMState::new();
    assert_eq!(state.registers.len(), 11);
    assert_eq!(state.registers[0], number(0));
    assert_eq!(
        state.registers[1],
        Register { value: 0x400000000, register_type: RegisterType::Addr }
    );
    assert_eq!(MEMORY_INPUT_DATA_START, 0x400000000);
    for register in &state.registers[2..] {
        assert_eq!(*register, Register { value: 0, register_type: RegisterType::Null });
    }
    assert_eq!(state.memory, vec![0u8; 20000]);
    assert_eq!(MEMORY_SIZE, 20000);
    assert_eq!(state.pc, 0);
    assert!(!state.exited);
}

#[test]
fn reset_gives_a_fresh_machine() {
    let mut state = VMState::new();
    state.update_register(5, 9, RegisterType::Int);
    state.memory[3] = 1;
    state.pc = 40;
    state.exited = true;
    state.reset();
    assert_eq!(state.registers, VMState::new().registers);
    assert_eq!(state.memory, vec![0u8; 20000]);
    assert_eq!(state.pc, 0);
    assert!(!state.exited);
}

#[test]
fn a_write_decides_the_type() {
    let mut state = VMState::new();
    state.update_register(2, 5, RegisterType::Null);
    assert_eq!(state.registers[2], number(5));
    state.update_register(3, 5, RegisterType::Addr);
    assert_eq!(state.registers[3], Register { value: 5, register_type: RegisterType::Addr });
    state.update_register(1, 6, RegisterType::Int);
    assert_eq!(state.registers[1], number(6));
    state.update_register(0, 7, RegisterType::Addr);
    assert_eq!(state.registers[0], Register { value: 7, register_type: RegisterType::Addr });
    state.update_register(0, 8, RegisterType::Addr);
    assert_eq!(state.registers[0], Register { value: 8, register_type: RegisterType::Addr });
}

#[test]
fn exit_halts_and_logs_r0() {
    let mut state = VMState::new();
    let mut log = LogBuffer::new();
    state.update_register(0, 18446744073709551615, RegisterType::Int);
    state.exit(&mut log);
    assert!(state.exited);
    assert_eq!(log.get_log(), "18446744073709551615\n");
    let mut other = VMState::new();
    assert_eq!(Exit.execute(&mut other, &program(&[]), None, &mut log), Ok(()));
    assert!(other.exited);
    assert_eq!(log.get_log(), "18446744073709551615\n0\n");
}

#[test]
fn the_log_buffer() {
    let mut log = LogBuffer::new();
    assert_eq!(log.get_log(), "");
    log.log_message("one");
    log.log_message("");
    log.log_message("tw\u{f6}");
    assert_eq!(log.get_log(), "one\n\ntw\u{f6}\n");
    log.clear_log();
    assert_eq!(log.get_log(), "");
}

#[test]
fn lddw_takes_its_type_from_the_hint() {
    let p = program(&[]);
    let mut log = LogBuffer::new();
    let mut state = VMState::new();
    let load = Lddw { register: 4, value: 0x1_0000_0000_0000 };
    assert_eq!(load.execute(&mut state, &p, None, &mut log), Ok(()));
    assert_eq!(state.registers[4], number(0x1_0000_0000_0000));
    let hint = DebugInfo {
        line_number: 1,
        register_hint: Some(RegisterHint { register: 4, register_type: RegisterType::Addr }),
    };
    assert_eq!(load.execute(&mut state, &p, Some(&hint), &mut log), Ok(()));
    assert_eq!(
        state.registers[4],
        Register { value: 0x1_0000_0000_0000, register_type: RegisterType::Addr }
    );
    let other = DebugInfo {
        line_number: 1,
        register_hint: Some(RegisterHint { register: 3, register_type: RegisterType::Addr }),
    };
    assert_eq!(load.execute(&mut state, &p, Some(&other), &mut log), Ok(()));
    assert_eq!(state.registers[4], number(0x1_0000_0000_0000));
    let mut fresh = VMState::new();
    assert_eq!(load.execute(&mut fresh, &p, Some(&hint), &mut log), Ok(()));
    assert_eq!(fresh.registers[4].register_type, RegisterType::Addr);
    assert_eq!(
        Lddw { register: 11, value: 0 }.execute(&mut state, &p, None, &mut log),
        Err(RuntimeError::InvalidRegister { index: 11 })
    );
    assert_eq!(log.get_log(), "");
}

#[test]
fn ldxb_reads_memory() {
    let p = program(&[]);
    let mut log = LogBuffer::new();
    let mut state = VMState::new();
    state.memory[100] = 0xab;
    state.update_register(3, 98, RegisterType::Int);
    let load = Ldxb { register: 2, base_reg: 3, offset: 2 };
    assert_eq!(load.execute(&mut state, &p, None, &mut log), Ok(()));
    assert_eq!(state.registers[2], number(0xab));
    state.update_register(3, 110, RegisterType::Int);
    let back = Ldxb { register: 5, base_reg: 3, offset: -10 };
    assert_eq!(back.execute(&mut state, &p, None, &mut log), Ok(()));
    assert_eq!(state.registers[5], number(0xab));
    state.update_register(3, 19999, RegisterType::Int);
    assert_eq!(
        Ldxb { register: 2, base_reg: 3, offset: 0 }.execute(&mut state, &p, None, &mut log),
        Ok(())
    );
    assert_eq!(state.registers[2], number(0));
    assert_eq!(
        Ldxb { register: 2, base_reg: 3, offset: 1 }.execute(&mut state, &p, None, &mut log),
        Err(RuntimeError::MemoryOutOfBounds)
    );
    assert_eq!(
        Ldxb { register: 2, base_reg: 1, offset: 0 }.execute(&mut state, &p, None, &mut log),
        Err(RuntimeError::MemoryOutOfBounds)
    );
    state.update_register(3, 5, RegisterType::Int);
    assert_eq!(
        Ldxb { register: 2, base_reg: 3, offset: -6 }.execute(&mut state, &p, None, &mut log),
        Err(RuntimeError::MemoryOutOfBounds)
    );
    assert_eq!(
        Ldxb { register: 12, base_reg: 3, offset: 0 }.execute(&mut state, &p, None, &mut log),
        Err(RuntimeError::InvalidRegister { index: 12 })
    );
    assert_eq!(
        Ldxb { register: 2, base_reg: 15, offset: 0 }.execute(&mut state, &p, None, &mut log),
        Err(RuntimeError::InvalidRegister { index: 15 })
    );
}

#[test]
fn add_and_sub_wrap() {
    let p = program(&[]);
    let mut log = LogBuffer::new();
    let mut state = VMState::new();
    state.update_register(2, u64::MAX, RegisterType::Int);
    assert_eq!(AddImm { register: 2, value: 2 }.execute(&mut state, &p, None, &mut log), Ok(()));
    assert_eq!(state.registers[2], number(1));
    assert_eq!(SubImm { register: 2, value: 3 }.execute(&mut state, &p, None, &mut log), Ok(()));
    assert_eq!(state.registers[2], number(u64::MAX - 1));
    assert_eq!(
        AddImm { register: 2, value: u64::MAX }.execute(&mut state, &p, None, &mut log),
        Ok(())
    );
    assert_eq!(state.registers[2], number(u64::MAX - 2));
    state.update_register(3, 5, RegisterType::Int);
    assert_eq!(AddReg { src: 3, dest: 2 }.execute(&mut state, &p, None, &mut log), Ok(()));
    assert_eq!(state.registers[2], number(2));
    assert_eq!(SubReg { src: 3, dest: 2 }.execute(&mut state, &p, None, &mut log), Ok(()));
    assert_eq!(state.registers[2], number(u64::MAX - 2));
    assert_eq!(state.registers[3], number(5));
}

#[test]
fn add_and_sub_keep_the_type() {
    let p = program(&[]);
    let mut log = LogBuffer::new();
    let mut state = VMState::new();
    assert_eq!(AddImm { register: 1, value: 8 }.execute(&mut state, &p, None, &mut log), Ok(()));
    assert_eq!(
        state.registers[1],
        Register { value: 0x400000008, register_type: RegisterType::Addr }
    );
    assert_eq!(SubReg { src: 0, dest: 1 }.execute(&mut state, &p, None, &mut log), Ok(()));
    assert_eq!(state.registers[1].register_type, RegisterType::Addr);
    assert_eq!(AddImm { register: 4, value: 8 }.execute(&mut state, &p, None, &mut log), Ok(()));
    assert_eq!(state.registers[4], number(8));
    assert_eq!(
        AddImm { register: 11, value: 8 }.execute(&mut state, &p, None, &mut log),
        Err(RuntimeError::InvalidRegister { index: 11 })
    );
    assert_eq!(
        SubImm { register: 99, value: 8 }.execute(&mut state, &p, None, &mut log),
        Err(RuntimeError::InvalidRegister { index: 99 })
    );
    assert_eq!(
        AddReg { src: 11, dest: 12 }.execute(&mut state, &p, None, &mut log),
        Err(RuntimeError::InvalidRegister { index: 12 })
    );
    assert_eq!(
        SubReg { src: 11, dest: 2 }.execute(&mut state, &p, None, &mut log),
        Err(RuntimeError::InvalidRegister { index: 11 })
    );
}

#[test]
fn mov_gives_a_number() {
    let p = program(&[]);
    let mut log = LogBuffer::new();
    let mut state = VMState::new();
    assert_eq!(MoveImm { register: 1, value: 7 }.execute(&mut state, &p, None, &mut log), Ok(()));
    assert_eq!(state.registers[1], number(7));
    assert_eq!(MoveReg { src: 1, dest: 9 }.execute(&mut state, &p, None, &mut log), Ok(()));
    assert_eq!(state.registers[9], number(7));
    let mut fresh = VMState::new();
    assert_eq!(MoveReg { src: 1, dest: 0 }.execute(&mut fresh, &p, None, &mut log), Ok(()));
    assert_eq!(fresh.registers[0], number(0x400000000));
    assert_eq!(
        MoveImm { register: 11, value: 7 }.execute(&mut state, &p, None, &mut log),
        Err(RuntimeError::InvalidRegister { index: 11 })
    );
    assert_eq!(
        MoveReg { src: 1, dest: 11 }.execute(&mut state, &p, None, &mut log),
        Err(RuntimeError::InvalidRegister { index: 11 })
    );
    assert_eq!(
        MoveReg { src: 16, dest: 1 }.execute(&mut state, &p, None, &mut log),
        Err(RuntimeError::InvalidRegister { index: 16 })
    );
}

fn jump(opcode: Opcode, left: u64, right: u64) -> usize {
    let mut state = VMState::new();
    let mut log = LogBuffer::new();
    state.pc = 800;
    state.update_register(6, left, RegisterType::Int);
    let instruction = Jump { register: 6, offset: 3, value: right, opcode };
    assert_eq!(instruction.execute(&mut state, &program(&[]), None, &mut log), Ok(()));
    state.pc
}

#[test]
fn jumps_compare_unsigned() {
    assert_eq!(jump(Opcode::Ja, 0, 1), 824);
    assert_eq!(jump(Opcode::JeqImm, 5, 5), 824);
    assert_eq!(jump(Opcode::JeqImm, 5, 6), 800);
    assert_eq!(jump(Opcode::JneImm, 5, 6), 824);
    assert_eq!(jump(Opcode::JneImm, 5, 5), 800);
    assert_eq!(jump(Opcode::JgtImm, 6, 5), 824);
    assert_eq!(jump(Opcode::JgtImm, 5, 5), 800);
    assert_eq!(jump(Opcode::JgtImm, 5, u64::MAX), 800);
    assert_eq!(jump(Opcode::JgeImm, 5, 5), 824);
    assert_eq!(jump(Opcode::JgeImm, 4, 5), 800);
    assert_eq!(jump(Opcode::JltImm, 4, 5), 824);
    assert_eq!(jump(Opcode::JltImm, 5, 5), 800);
    assert_eq!(jump(Opcode::JltImm, 5, u64::MAX), 824);
    assert_eq!(jump(Opcode::JleImm, 5, 5), 824);
    assert_eq!(jump(Opcode::JleImm, 6, 5), 800);
}

#[test]
fn jumps_that_are_refused() {
    let p = program(&[]);
    let mut log = LogBuffer::new();
    let mut state = VMState::new();
    state.pc = 16;
    let back = Jump { register: 0, offset: -2, value: 0, opcode: Opcode::Ja };
    assert_eq!(back.execute(&mut state, &p, None, &mut log), Ok(()));
    assert_eq!(state.pc, 0);
    let too_far = Jump { register: 0, offset: -1, value: 0, opcode: Opcode::Ja };
    assert_eq!(too_far.execute(&mut state, &p, None, &mut log), Err(RuntimeError::InvalidJump));
    assert_eq!(state.pc, 0);
    state.pc = usize::MAX - 16;
    let up = Jump { register: 0, offset: 2, value: 0, opcode: Opcode::Ja };
    assert_eq!(up.execute(&mut state, &p, None, &mut log), Err(RuntimeError::InvalidJump));
    let other = Jump { register: 0, offset: 0, value: 0, opcode: Opcode::JsgtImm };
    assert_eq!(other.execute(&mut state, &p, None, &mut log), Err(RuntimeError::InvalidJump));
    let register = Jump { register: 11, offset: 0, value: 0, opcode: Opcode::JeqImm };
    assert_eq!(
        register.execute(&mut state, &p, None, &mut log),
        Err(RuntimeError::InvalidRegister { index: 11 })
    );
    state.pc = 8;
    let free = Jump { register: 11, offset: 1, value: 0, opcode: Opcode::Ja };
    assert_eq!(free.execute(&mut state, &p, None, &mut log), Ok(()));
    assert_eq!(state.pc, 16);
}

#[test]
fn the_log_syscall() {
    let p = program(b"hello\xffworld");
    let mut log = LogBuffer::new();
    let mut state = VMState::new();
    let call = Call { function_id: 0x10 };
    state.update_register(1, 64, RegisterType::Addr);
    state.update_register(2, 5, RegisterType::Int);
    assert_eq!(call.execute(&mut state, &p, None, &mut log), Ok(()));
    assert_eq!(log.get_log(), "sol_log_: hello\n");
    state.update_register(2, 11, RegisterType::Int);
    assert_eq!(call.execute(&mut state, &p, None, &mut log), Ok(()));
    assert_eq!(log.get_log(), "sol_log_: hello\nsol_log_: hello\u{fffd}world\n");
    log.clear_log();
    state.update_register(2, 12, RegisterType::Int);
    assert_eq!(call.execute(&mut state, &p, None, &mut log), Err(RuntimeError::MemoryOutOfBounds));
    state.update_register(1, u64::MAX, RegisterType::Int);
    state.update_register(2, 2, RegisterType::Int);
    assert_eq!(call.execute(&mut state, &p, None, &mut log), Err(RuntimeError::MemoryOutOfBounds));
    assert_eq!(log.get_log(), "");
    state.update_register(1, 1234567890123, RegisterType::Int);
    state.update_register(2, 0, RegisterType::Int);
    assert_eq!(call.execute(&mut state, &p, None, &mut log), Ok(()));
    assert_eq!(log.get_log(), "sol_log_64_: 1234567890123\n");
    assert_eq!(
        Call { function_id: 0x11 }.execute(&mut state, &p, None, &mut log),
        Err(RuntimeError::InvalidSyscall { id: 0x11 })
    );
    assert_eq!(state.registers[1], number(1234567890123));
}

#[test]
fn instructions_dispatch() {
    let p = program(&[]);
    let mut log = LogBuffer::new();
    let mut state = VMState::new();
    let mov = InstructionType::MoveImm(MoveImm { register: 0, value: 9 });
    assert_eq!(mov.execute(&mut state, &p, None, &mut log), Ok(()));
    assert_eq!(state.registers[0], number(9));
    let exit = InstructionType::Exit(Exit);
    assert_eq!(exit.execute(&mut state, &p, None, &mut log), Ok(()));
    assert!(state.exited);
    assert_eq!(log.get_log(), "9\n");
    let bad = InstructionType::Call(Call { function_id: 1 });
    assert_eq!(
        bad.execute(&mut state, &p, None, &mut log),
        Err(RuntimeError::InvalidSyscall { id: 1 })
    );
}

#[test]
fn programs_are_checked_when_loaded() {
    assert!(matches!(Program::new(vec![0x7f, 0x45, 0x4c, 0x46]), Err(LoadError::TooShort)));
    assert!(matches!(Program::new(vec![0u8; 63]), Err(LoadError::TooShort)));
    assert!(matches!(Program::new(vec![0u8; 64]), Err(LoadError::BadMagic)));
    let mut bytes = image(&[]);
    bytes[3] = 0x47;
    assert!(matches!(Program::new(bytes), Err(LoadError::BadMagic)));
    let mut bytes = image(&[1, 2, 3]);
    bytes[24..32].copy_from_slice(&[1, 2, 3, 4, 5, 6, 7, 8]);
    let loaded = Program::new(bytes.clone()).unwrap();
    assert_eq!(loaded.entry_point, 0x0807_0605_0403_0201);
    assert_eq!(loaded.bytecode, bytes);
}

#[test]
fn programs_can_be_read() {
    let p = program(b"abcdef");
    assert_eq!(p.read(64, 6), Ok(b"abcdef".to_vec()));
    assert_eq!(p.read(66, 2), Ok(b"cd".to_vec()));
    assert_eq!(p.read(70, 0), Ok(vec![]));
    assert_eq!(p.read(0, 4), Ok(vec![0x7f, 0x45, 0x4c, 0x46]));
    assert_eq!(p.read(66, 5), Err(RuntimeError::MemoryOutOfBounds));
    assert_eq!(p.read(71, 0), Err(RuntimeError::MemoryOutOfBounds));
    assert_eq!(p.read(u64::MAX, 1), Err(RuntimeError::MemoryOutOfBounds));
    assert_eq!(p.read(1, u64::MAX), Err(RuntimeError::MemoryOutOfBounds));
}

#[test]
fn the_interpreter_runs_an_image() {
    let mut vm = VM::new();
    let code = [
        0xb7, 0x00, 0, 0, 5, 0, 0, 0, // mov64 r0, 5
        0x07, 0x00, 0, 0, 0xff, 0xff, 0xff, 0xff, // add64 r0, -1
        0x55, 0x00, 0xfe, 0xff, 2, 0, 0, 0, // jne r0, 2, -2
        0x95, 0, 0, 0, 0, 0, 0, 0, // exit
    ];
    assert_eq!(vm.load_program(image(&code)), Ok(()));
    assert_eq!(vm.get_entry_point(), 64);
    assert!(!vm.is_exited());
    assert_eq!(vm.run(), Ok(2));
    assert!(vm.is_exited());
    assert_eq!(vm.get_log(), "2\n");
    assert_eq!(vm.get_registers()[0], number(2));
    assert_eq!(vm.run(), Ok(2));
    vm.clear_log();
    assert_eq!(vm.get_log(), "");
}

#[test]
fn the_interpreter_steps() {
    let mut vm = VM::new();
    assert_eq!(vm.step_instruction(), Err(VmError::NoProgram));
    let code = [
        0xb7, 0x03, 0, 0, 5, 0, 0, 0, // mov64 r3, 5
        0x05, 0x00, 1, 0, 0, 0, 0, 0, // ja +1
        0x27, 0x00, 0, 0, 0, 0, 0, 0, // mul64
        0x85, 0x02, 0, 0, 0, 0, 0, 0, // call 2
    ];
    assert_eq!(vm.load_program(image(&code)), Ok(()));
    assert_eq!(vm.step_instruction(), Ok(()));
    assert_eq!(vm.get_registers()[3], number(5));
    assert_eq!(vm.step_instruction(), Ok(()));
    assert_eq!(
        vm.step_instruction(),
        Err(VmError::Runtime { pc: 88, error: RuntimeError::InvalidSyscall { id: 2 } })
    );
    assert_eq!(
        vm.run(),
        Err(VmError::Runtime { pc: 88, error: RuntimeError::InvalidSyscall { id: 2 } })
    );
}

#[test]
fn the_interpreter_stops_on_what_it_cannot_decode() {
    let mut vm = VM::new();
    assert_eq!(vm.load_program(image(&[0x27, 0, 0, 0, 0, 0, 0, 0])), Ok(()));
    assert_eq!(
        vm.run(),
        Err(VmError::Decode { pc: 64, error: DecodeError::UnsupportedOpcode { byte: 0x27 } })
    );
    let mut vm = VM::new();
    assert_eq!(vm.load_program(image(&[0xb7, 0, 0, 0, 1, 0, 0, 0])), Ok(()));
    assert_eq!(vm.run(), Err(VmError::Decode { pc: 72, error: DecodeError::Truncated }));
    let mut vm = VM::new();
    assert_eq!(vm.load_program(image(&[0xff, 0xff])), Ok(()));
    assert_eq!(
        vm.run(),
        Err(VmError::Decode { pc: 64, error: DecodeError::UnknownOpcode { byte: 0xff } })
    );
}

#[test]
fn loading_is_refused() {
    let mut vm = VM::new();
    assert_eq!(vm.load_program(vec![0u8; 10]), Err(LoadError::TooShort));
    assert_eq!(vm.load_program(vec![1u8; 100]), Err(LoadError::BadMagic));
    assert_eq!(vm.get_entry_point(), 0);
    assert_eq!(vm.run(), Err(VmError::NoProgram));
    let mut at_end = image(&[]);
    at_end[24] = 64;
    assert_eq!(vm.load_program(at_end), Ok(()));
    assert_eq!(vm.run(), Err(VmError::Decode { pc: 64, error: DecodeError::Truncated }));
    let mut beyond = image(&[]);
    beyond[24] = 65;
    assert_eq!(vm.load_program(beyond), Ok(()));
    assert_eq!(vm.get_entry_point(), 65);
    assert_eq!(vm.run(), Err(VmError::Decode { pc: 65, error: DecodeError::Truncated }));
}

#[test]
fn the_debug_map_marks_addresses() {
    let mut vm = VM::new();
    let code = [
        0x18, 0x02, 0, 0, 1, 0, 0, 0, 0, 0, 0, 0, 0, 0, 0, 0, // lddw r2, 1
        0x18, 0x03, 0, 0, 1, 0, 0, 0, 0, 0, 0, 0, 0, 0, 0, 0, // lddw r3, 1
        0x95, 0, 0, 0, 0, 0, 0, 0, // exit
    ];
    let mut debug = HashMap::new();
    debug.insert(
        0,
        DebugInfo {
            line_number: 4,
            register_hint: Some(RegisterHint { register: 2, register_type: RegisterType::Addr }),
        },
    );
    debug.insert(16, DebugInfo { line_number: 5, register_hint: None });
    vm.load_debug_map(debug);
    assert_eq!(vm.get_line_number(), 4);
    assert_eq!(vm.load_program(image(&code)), Ok(()));
    assert_eq!(vm.get_line_number(), 4);
    assert_eq!(step(&mut vm), 5);
    assert_eq!(step(&mut vm), 0);
    assert_eq!(vm.get_registers()[2], Register { value: 1, register_type: RegisterType::Addr });
    assert_eq!(vm.get_registers()[3], number(1));
    assert_eq!(vm.run(), Ok(0));
}

#[test]
fn input_data_goes_to_memory() {
    let mut vm = VM::new();
    assert_eq!(vm.get_instruction_data(), Vec::<u8>::new());
    assert_eq!(vm.load_input_data(0, &[7, 8, 9], "bytes"), Ok(()));
    assert_eq!(vm.get_instruction_data(), vec![7, 8, 9]);
    assert_eq!(vm.load_input_data(0, &[1], "bytes"), Ok(()));
    assert_eq!(vm.get_instruction_data(), vec![1]);
    assert_eq!(vm.load_input_data(0, &[0u8; 255], "bytes"), Ok(()));
    assert_eq!(vm.get_instruction_data(), vec![0u8; 255]);
    assert_eq!(
        vm.load_input_data(0, &[0u8; 256], "bytes"),
        Err(RuntimeError::MemoryOutOfBounds)
    );
    assert_eq!(vm.get_instruction_data(), vec![0u8; 255]);
    vm.reset();
    assert_eq!(vm.get_instruction_data(), Vec::<u8>::new());
}

#[test]
fn input_data_can_be_read_by_the_guest() {
    let mut vm = VM::new();
    assert_eq!(vm.load_input_data(0, &[0x2a], "bytes"), Ok(()));
    let source = "mov64 r3, 16\nldxb r0, [r3+0]\nldxb r4, [r3+-8]\nadd64 r0, r4\nexit\n";
    assert_eq!(run(&mut vm, source), Ok(43));
}

#[test]
fn assembling_loads_the_maps() {
    let mut vm = VM::new();
    let source = ".globl e\ne:\n lddw r1, msg\n exit\n.rodata\nmsg: \"hey\"\n";
    let bytes = assemble(&mut vm, source).unwrap();
    assert_eq!(bytes, assemble_source(source).unwrap().bytecode);
    assert_eq!(vm.get_line_number(), 3);
    let rodata = vm.get_rodata();
    assert_eq!(rodata.len(), 1);
    assert_eq!(rodata[0].label, b"msg".to_vec());
    assert_eq!(rodata[0].offset, 24);
    assert_eq!(rodata[0].value, b"hey".to_vec());
    assert_eq!(vm.run(), Err(VmError::NoProgram));
    assert!(assemble(&mut vm, "\"").is_err());
}

#[test]
fn initialize_and_step() {
    let mut vm = VM::new();
    assert!(VM::new().get_rodata().is_empty());
    let source = ".globl e\ne:\n lddw r1, e\n mov64 r0, 7\n\n exit\n";
    assert_eq!(initialize(&mut vm, source), Ok(0));
    assert_eq!(vm.get_entry_point(), 120);
    assert_eq!(vm.get_line_number(), 3);
    assert_eq!(step(&mut vm), 4);
    assert_eq!(
        vm.get_registers()[1],
        Register { value: 120, register_type: RegisterType::Addr }
    );
    assert_eq!(step(&mut vm), 6);
    assert!(!vm.is_exited());
    assert_eq!(step(&mut vm), 0);
    assert!(vm.is_exited());
    assert_eq!(vm.get_log(), "7\n");
    assert_eq!(initialize(&mut vm, source), Ok(0));
    assert!(!vm.is_exited());
    assert_eq!(vm.get_registers()[0], number(0));
    assert_eq!(vm.get_log(), "7\n");
    assert!(matches!(initialize(&mut vm, "ja x"), Err(RunError::Assemble(_))));
}

#[test]
fn the_same_source_gives_the_same_image() {
    let source = ".globl e\ne:\n lddw r1, msg\n mov64 r2, 3\n call sol_log_\n exit\n.rodata\nmsg: \"hey\"\n";
    let first = assemble_source(source).unwrap();
    let second = assemble_source(source).unwrap();
    assert_eq!(first.bytecode, second.bytecode);
    assert_eq!(first.debug_map, second.debug_map);
    assert_eq!(first.line_map, second.line_map);
    assert_eq!(first.debug_map.len(), 4);
    assert_eq!(
        first.debug_map.get(&0),
        Some(&DebugInfo {
            line_number: 3,
            register_hint: Some(RegisterHint { register: 1, register_type: RegisterType::Addr }),
        })
    );
    assert_eq!(first.line_map.get(&32), Some(&6));
}

#[test]
fn the_image_has_headers_code_and_data() {
    let fixed = assemble_source("mov64 r0, 1\nexit\n.rodata\nmsg: \"hey\"").unwrap().bytecode;
    assert_eq!(fixed.len(), 120 + 16 + 3);
    assert_eq!(
        &fixed[..64],
        &[
            0x7f, 0x45, 0x4c, 0x46, 2, 1, 1, 0, 0, 0, 0, 0, 0, 0, 0, 0, //
            3, 0, 0xf7, 0, 1, 0, 0, 0, 120, 0, 0, 0, 0, 0, 0, 0, //
            64, 0, 0, 0, 0, 0, 0, 0, 0, 0, 0, 0, 0, 0, 0, 0, //
            0, 0, 0, 0, 64, 0, 56, 0, 1, 0, 64, 0, 0, 0, 0, 0,
        ]
    );
    assert_eq!(&fixed[64..120], &[0u8; 56]);
    assert_eq!(&fixed[136..], b"hey");
    let dynamic = assemble_source("e: exit\n.globl x\nx: call sol_log_\nexit").unwrap().bytecode;
    assert_eq!(dynamic.len(), 232 + 24);
    assert_eq!(dynamic[56], 3);
    assert_eq!(&dynamic[24..32], &[240, 0, 0, 0, 0, 0, 0, 0]);
    assert_eq!(&dynamic[64..232], &[0u8; 168]);
}

#[test]
fn registers_are_shown_by_their_type() {
    assert_eq!(number(0).display_value(), "0");
    assert_eq!(number(u64::MAX).display_value(), "18446744073709551615");
    assert_eq!(
        Register { value: 0x400000000, register_type: RegisterType::Addr }.display_value(),
        "0x0000000400000000"
    );
    assert_eq!(
        Register { value: u64::MAX - 1, register_type: RegisterType::Addr }.display_value(),
        "0xfffffffffffffffe"
    );
    assert_eq!(
        Register { value: 7, register_type: RegisterType::Null }.display_value(),
        "null"
    );
    assert_eq!(register_name(0), "r0");
    assert_eq!(register_name(10), "r10");
    assert_eq!(RegisterType::Int.to_text(), "Int");
    assert_eq!(RegisterType::Addr.to_text(), "Addr");
    assert_eq!(RegisterType::Null.to_text(), "Null");
}

#[test]
fn a_run_can_be_bounded() {
    let mut vm = VM::new();
    let code = [
        0x07, 0x00, 0, 0, 1, 0, 0, 0, // add64 r0, 1
        0x05, 0x00, 0xfe, 0xff, 0, 0, 0, 0, // ja -2
    ];
    assert_eq!(vm.load_program(image(&code)), Ok(()));
    assert_eq!(vm.run_bounded(0), Err(VmError::StepLimit { pc: 64 }));
    assert_eq!(vm.run_bounded(1), Err(VmError::StepLimit { pc: 72 }));
    assert_eq!(vm.run_bounded(9), Err(VmError::StepLimit { pc: 64 }));
    assert_eq!(vm.get_registers()[0], number(5));
    assert_eq!(vm.run_bounded(2), Err(VmError::StepLimit { pc: 64 }));
    assert_eq!(vm.get_registers()[0], number(6));
    let mut done = VM::new();
    assert_eq!(done.load_program(image(&[0x95, 0, 0, 0, 0, 0, 0, 0])), Ok(()));
    assert_eq!(done.run_bounded(1), Ok(0));
    assert_eq!(done.run_bounded(0), Ok(0));
}

#[test]
fn an_entry_point_has_to_fit_in_the_header() {
    let mut parsed = Parser::new(tokenize("exit").unwrap()).parse().unwrap();
    parsed.entry_offset = u64::MAX - 119;
    assert_eq!(build_image(parsed), Err(AssembleError::ImageTooLarge));
    let mut parsed = Parser::new(tokenize("exit").unwrap()).parse().unwrap();
    parsed.entry_offset = u64::MAX - 120;
    let image = build_image(parsed).unwrap().bytecode;
    assert_eq!(&image[24..32], &[0xff; 8]);
}
