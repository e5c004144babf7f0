use helios::dynsym::RelocationType;
use helios::error::{ParseError, VmError};
use helios::image::{assemble_source, AssembleError};
use helios::session::{run, RunError};
use helios::vm::VM;

fn entry_of(image: &[u8]) -> usize {
    let mut raw = [0u8; 8];
    raw.copy_from_slice(&image[24..32]);
    u64::from_le_bytes(raw) as usize
}

#[test]
fn minimal_exit() {
    let assembly = assemble_source(".globl entry\nentry:\n exit\n").unwrap();
    let image = &assembly.bytecode;
    assert_eq!(&image[0..4], &[0x7f, 0x45, 0x4c, 0x46]);
    let entry = entry_of(image);
    assert_eq!(entry, 120);
    assert_eq!(image.len(), entry + 8);
    assert_eq!(&image[entry..], &[0x95, 0, 0, 0, 0, 0, 0, 0]);

    let mut vm = VM::new();
    assert_eq!(run(&mut vm, ".globl entry\nentry:\n exit\n"), Ok(0));
    assert!(vm.is_exited());
}

#[test]
fn immediate_mov_and_exit() {
    let source = ".globl entry\nentry:\n mov64 r0, 42\n exit\n";
    let assembly = assemble_source(source).unwrap();
    let entry = entry_of(&assembly.bytecode);
    assert_eq!(
        &assembly.bytecode[entry..],
        &[0xb7, 0, 0, 0, 42, 0, 0, 0, 0x95, 0, 0, 0, 0, 0, 0, 0]
    );
    let mut vm = VM::new();
    assert_eq!(run(&mut vm, source), Ok(42));
    assert_eq!(vm.get_log(), "42\n");
}

#[test]
fn register_mov_and_add() {
    let mut vm = VM::new();
    let source = "mov64 r1, 10 ; mov64 r2, 32 ; add64 r1, r2 ; mov64 r0, r1 ; exit";
    assert_eq!(run(&mut vm, source), Ok(42));
}

#[test]
fn register_mov_and_add_on_lines() {
    let mut vm = VM::new();
    let source = "mov64 r1, 10\nmov64 r2, 32\nadd64 r1, r2\nmov64 r0, r1\nexit\n";
    assert_eq!(run(&mut vm, source), Ok(42));
}

#[test]
fn backward_jump_loop() {
    let source = ".globl entry\nentry: mov64 r0, 0\nloop:  add64 r0, 1\n       jne  r0, 3, loop\n       exit\n";
    let assembly = assemble_source(source).unwrap();
    let entry = entry_of(&assembly.bytecode);
    let jump = &assembly.bytecode[entry + 16..entry + 24];
    assert_eq!(jump, &[0x55, 0, 0xfe, 0xff, 3, 0, 0, 0]);
    assert_eq!(i16::from_le_bytes([jump[2], jump[3]]), -2);
    let mut vm = VM::new();
    assert_eq!(run(&mut vm, source), Ok(3));
}

#[test]
fn rodata_string_and_log_syscall() {
    let source = ".globl entry\nentry:\n lddw r1, msg\n mov64 r2, 2\n call sol_log_\n exit\n.rodata\nmsg: \"hi\"\n";
    let assembly = assemble_source(source).unwrap();
    let relocations = &assembly.parsed.relocation_data.entries;
    assert_eq!(relocations.len(), 2);
    assert_eq!(relocations[0].offset, 0);
    assert_eq!(relocations[0].rel_type, RelocationType::RSbf64Relative);
    assert_eq!(relocations[0].name, b"msg".to_vec());
    assert_eq!(relocations[1].offset, 24);
    assert_eq!(relocations[1].rel_type, RelocationType::RSbfSyscall);
    assert_eq!(relocations[1].name, b"sol_log_".to_vec());
    assert!(!assembly.parsed.prog_is_static);

    let mut vm = VM::new();
    assert_eq!(run(&mut vm, source), Ok(0));
    assert_eq!(vm.get_log(), "sol_log_: hi\n0\n");
}

#[test]
fn unresolved_label() {
    let source = ".globl entry\nentry:\n ja nowhere\n exit\n";
    match assemble_source(source) {
        Err(AssembleError::Parse(ParseError::UnresolvedLabel { name, line })) => {
            assert_eq!(name, b"nowhere".to_vec());
            assert_eq!(line, 3);
        }
        _ => panic!("the parse should fail on the label"),
    }
    let mut vm = VM::new();
    assert!(matches!(
        run(&mut vm, source),
        Err(RunError::Assemble(AssembleError::Parse(ParseError::UnresolvedLabel { .. })))
    ));
}

#[test]
fn run_without_program() {
    let mut vm = VM::new();
    assert_eq!(vm.run(), Err(VmError::NoProgram));
}
