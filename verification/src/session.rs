use vstd::prelude::*;
use vstd::string::StringSliceAdditionalSpecFns;
use crate::debuginfo::DebugInfo;
use crate::error::{LoadError, VmError};
use crate::image::{AssembleError, AssembleErrorView, AssemblyView, assemble_source, assembled};
use crate::state::{Machine, Outcome};
use crate::vm::{STEP_LIMIT, VM, load_outcome, run_end};

verus! {

/// Why a source text could not be run to its end.
#[derive(Debug, PartialEq, Eq)]
pub enum RunError {
    Assemble(AssembleError),
    Load(LoadError),
    Vm(VmError),
}

/// A run error as a value.
pub enum RunErrorView {
    Assemble(AssembleErrorView),
    Load(LoadError),
    Vm(VmError),
}

impl View for RunError {
    type V = RunErrorView;

    open spec fn view(&self) -> RunErrorView {
        match *self {
            RunError::Assemble(e) => RunErrorView::Assemble(e@),
            RunError::Load(e) => RunErrorView::Load(e),
            RunError::Vm(e) => RunErrorView::Vm(e),
        }
    }
}

/// Assembles a source text and gives its image. The interpreter gets the
/// debug map, the line map and the strings of the read-only data that belong
/// to the image; its machine, its log and the image it has loaded stay.
pub fn assemble(vm: &mut VM, assembly: &str) -> (r: Result<Vec<u8>, AssembleError>)
    ensures
        final(vm).outcome() == old(vm).outcome(),
        match r {
            Ok(bytecode) => {
                &&& assembled(assembly.spec_bytes()) matches Ok(a) && bytecode@ == a.bytecode
                    && final(vm).loaded() == (
                    old(vm).image(),
                    old(vm).entry(),
                    Some(a.debug_map),
                    Some(a.rodata),
                    Some(a.line_map),
                )
            },
            Err(e) => {
                &&& assembled(assembly.spec_bytes()) == Err::<AssemblyView, AssembleErrorView>(e@)
                &&& final(vm).loaded() == old(vm).loaded()
            },
        },
{
    let assembly = match assemble_source(assembly) {
        Ok(a) => a,
        Err(e) => {
            return Err(e);
        },
    };
    vm.load_rodata(assembly.rodata);
    vm.load_line_map(assembly.line_map);
    vm.load_debug_map(assembly.debug_map);
    Ok(assembly.bytecode)
}

/// What an interpreter has loaded after it has assembled a source text and
/// tried to load the image: the maps and strings of the assembly, and the
/// image with its entry point if it could be loaded.
pub open spec fn loaded_after(
    before: &VM,
    a: AssemblyView,
) -> (
    Option<Seq<u8>>,
    Option<usize>,
    Option<Map<u64, DebugInfo>>,
    Option<Seq<(Seq<u8>, usize, Seq<u8>)>>,
    Option<Map<u64, usize>>,
) {
    match load_outcome(a.bytecode) {
        Ok(entry) => (
            Some(a.bytecode),
            Some(entry),
            Some(a.debug_map),
            Some(a.rodata),
            Some(a.line_map),
        ),
        Err(_) => (
            before.image(),
            before.entry(),
            Some(a.debug_map),
            Some(a.rodata),
            Some(a.line_map),
        ),
    }
}

/// Resets the machine, assembles a source text and loads its image, so that
/// the program can be stepped through.
pub fn initialize(vm: &mut VM, assembly: &str) -> (r: Result<u64, RunError>)
    ensures
        final(vm).logged() == old(vm).logged(),
        match assembled(assembly.spec_bytes()) {
            Err(e) => {
                &&& r matches Err(RunError::Assemble(f)) && f@ == e
                &&& final(vm).machine() == Machine::initial()
                &&& final(vm).loaded() == old(vm).loaded()
            },
            Ok(a) => {
                &&& final(vm).loaded() == loaded_after(old(vm), a)
                &&& match load_outcome(a.bytecode) {
                    Err(e) => r == Err::<u64, RunError>(RunError::Load(e)) && final(vm).machine()
                        == Machine::initial(),
                    Ok(entry) => r == Ok::<u64, RunError>(0) && final(vm).machine() == (Machine {
                        pc: entry,
                        ..Machine::initial()
                    }),
                }
            },
        },
{
    vm.reset();
    let bytecode = match assemble(vm, assembly) {
        Ok(b) => b,
        Err(e) => {
            return Err(RunError::Assemble(e));
        },
    };
    match vm.load_program(bytecode) {
        Ok(()) => Ok(0),
        Err(e) => Err(RunError::Load(e)),
    }
}

/// Assembles a source text, loads its image and runs it from its entry
/// point on the machine as it stands, until the program exits. Gives what
/// `r0` holds then.
pub fn run(vm: &mut VM, assembly: &str) -> (r: Result<u64, RunError>)
    ensures
        match assembled(assembly.spec_bytes()) {
            Err(e) => {
                &&& r matches Err(RunError::Assemble(f)) && f@ == e
                &&& final(vm).outcome() == old(vm).outcome()
                &&& final(vm).loaded() == old(vm).loaded()
            },
            Ok(a) => {
                &&& final(vm).loaded() == loaded_after(old(vm), a)
                &&& match load_outcome(a.bytecode) {
                    Err(e) => r == Err::<u64, RunError>(RunError::Load(e)) && final(vm).outcome()
                        == old(vm).outcome(),
                    Ok(entry) => {
                        let end = run_end(
                            Outcome {
                                machine: Machine { pc: entry, ..old(vm).machine() },
                                log: old(vm).logged(),
                            },
                            a.bytecode,
                            Some(a.debug_map),
                            entry,
                            STEP_LIMIT as nat,
                        );
                        &&& final(vm).outcome() == end.outcome
                        &&& r == (match end.error {
                            None => Ok::<u64, RunError>(end.outcome.machine.registers[0].value),
                            Some(e) => Err::<u64, RunError>(RunError::Vm(e)),
                        })
                    },
                }
            },
        },
{
    let bytecode = match assemble(vm, assembly) {
        Ok(b) => b,
        Err(e) => {
            return Err(RunError::Assemble(e));
        },
    };
    match vm.load_program(bytecode) {
        Ok(()) => {},
        Err(e) => {
            return Err(RunError::Load(e));
        },
    }
    match vm.run() {
        Ok(value) => Ok(value),
        Err(e) => Err(RunError::Vm(e)),
    }
}

/// Executes one instruction, unless it fails, and gives the source line of
/// the instruction that is next.
pub fn step(vm: &mut VM) -> (line: usize)
    ensures
        final(vm).loaded() == old(vm).loaded(),
        final(vm).outcome() == (match old(vm).image() {
            Some(image) => match crate::vm::step_outcome(
                old(vm).outcome(),
                image,
                old(vm).debug(),
                old(vm).entry()->0,
            ) {
                Ok(o) => o,
                Err(_) => old(vm).outcome(),
            },
            None => old(vm).outcome(),
        }),
        line == (match crate::vm::debug_at(
            final(vm).debug(),
            match final(vm).entry() {
                Some(e) => e,
                None => 0,
            },
            final(vm).machine().pc,
        ) {
            Some(d) => d.line_number,
            None => 0,
        }),
{
    let _ = vm.step_instruction();
    vm.get_line_number()
}

} // verus!
