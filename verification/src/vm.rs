use std::collections::HashMap;
use vstd::prelude::*;
use vstd::slice::slice_subrange;
use crate::debuginfo::DebugInfo;
use crate::error::{DecodeError, LoadError, RuntimeError, VmError};
use crate::instruction::{InstructionType, decode_instruction, decoded};
use crate::log_buffer::LogBuffer;
use crate::program::{MIN_IMAGE_SIZE, Program, has_magic, header_entry};
use crate::state::{Machine, Outcome, Register, VMState};

verus! {

/// Where in memory the host puts the length of the input data: one byte.
pub const INPUT_LENGTH_OFFSET: usize = 8;

/// Where in memory the host puts the input data itself.
pub const INPUT_DATA_OFFSET: usize = 16;

/// The longest input data that the length byte can describe.
pub const MAX_INPUT_LENGTH: usize = 255;

/// The instructions that `run` executes at most.
pub const STEP_LIMIT: u64 = 0xffff_ffff_ffff_ffff;

/// One string of the read-only data, for display: the label that names it,
/// its offset, and its bytes.
#[derive(Debug, PartialEq, Eq)]
pub struct RodataEntry {
    pub label: Vec<u8>,
    pub offset: usize,
    pub value: Vec<u8>,
}

/// The strings of the read-only data as values.
pub open spec fn rodata_view(entries: Seq<RodataEntry>) -> Seq<(Seq<u8>, usize, Seq<u8>)> {
    entries.map_values(|e: RodataEntry| (e.label@, e.offset, e.value@))
}

/// The debug information of the instruction at `pc`, which the debug map
/// lists by its offset from the entry point.
pub open spec fn debug_at(
    debug_map: Option<Map<u64, DebugInfo>>,
    entry: usize,
    pc: usize,
) -> Option<DebugInfo> {
    match debug_map {
        Some(map) if pc >= entry && map.contains_key((pc - entry) as u64) => Some(
            map[(pc - entry) as u64],
        ),
        _ => None,
    }
}

/// The entry point of an image that can be loaded, or why it cannot: it has
/// to hold a whole file header and start with the ELF mark. An entry point
/// that is no address of the machine is refused too; no image reaches it.
pub open spec fn load_outcome(image: Seq<u8>) -> Result<usize, LoadError> {
    if image.len() < MIN_IMAGE_SIZE {
        Err(LoadError::TooShort)
    } else if !has_magic(image) {
        Err(LoadError::BadMagic)
    } else if header_entry(image) > usize::MAX {
        Err(LoadError::TooShort)
    } else {
        Ok(header_entry(image) as usize)
    }
}

/// One step of the interpreter: the instruction at the program counter is
/// decoded and executed, and the program counter moves on by its width.
pub open spec fn step_outcome(
    o: Outcome,
    image: Seq<u8>,
    debug_map: Option<Map<u64, DebugInfo>>,
    entry: usize,
) -> Result<Outcome, VmError> {
    let pc = o.machine.pc;
    if pc > image.len() {
        Err(VmError::Decode { pc, error: DecodeError::Truncated })
    } else {
        match decoded(image.subrange(pc as int, image.len() as int)) {
            Err(error) => Err(VmError::Decode { pc, error }),
            Ok((instruction, size)) => match instruction.effect(
                o,
                image,
                debug_at(debug_map, entry, pc),
            ) {
                Err(error) => Err(VmError::Runtime { pc, error }),
                Ok(after) => Ok(
                    Outcome {
                        machine: Machine {
                            pc: (after.machine.pc + size) as usize,
                            ..after.machine
                        },
                        log: after.log,
                    },
                ),
            },
        }
    }
}

/// Where a run ends, and why it ended there if not by `exit`.
pub struct RunEnd {
    pub outcome: Outcome,
    pub error: Option<VmError>,
}

/// A run of at most `budget` steps: it ends when the machine has halted,
/// when a step fails, or when the budget is used up.
pub open spec fn run_end(
    o: Outcome,
    image: Seq<u8>,
    debug_map: Option<Map<u64, DebugInfo>>,
    entry: usize,
    budget: nat,
) -> RunEnd
    decreases budget,
{
    if o.machine.exited {
        RunEnd { outcome: o, error: None }
    } else if budget == 0 {
        RunEnd { outcome: o, error: Some(VmError::StepLimit { pc: o.machine.pc }) }
    } else {
        match step_outcome(o, image, debug_map, entry) {
            Err(e) => RunEnd { outcome: o, error: Some(e) },
            Ok(next) => run_end(next, image, debug_map, entry, (budget - 1) as nat),
        }
    }
}

/// A successful step leaves the program counter within the range of addresses.
pub proof fn lemma_step_in_range(
    o: Outcome,
    image: Seq<u8>,
    debug_info: Option<DebugInfo>,
    instruction: InstructionType,
    size: usize,
)
    requires
        o.machine.pc <= image.len() <= usize::MAX,
        decoded(image.subrange(o.machine.pc as int, image.len() as int)) == Ok::<
            (InstructionType, usize),
            DecodeError,
        >((instruction, size)),
    ensures
        instruction.effect(o, image, debug_info) is Ok ==> instruction.effect(
            o,
            image,
            debug_info,
        )->Ok_0.machine.pc + size <= usize::MAX,
{
}

/// An interpreter: a machine, the image it runs, and what it logged.
pub struct VM {
    program: Option<Program>,
    rodata: Option<Vec<RodataEntry>>,
    line_map: Option<HashMap<u64, usize>>,
    debug_map: Option<HashMap<u64, DebugInfo>>,
    state: VMState,
    log: LogBuffer,
}

impl VM {
    /// The machine.
    pub closed spec fn machine(&self) -> Machine {
        self.state@
    }

    /// What has been logged.
    pub closed spec fn logged(&self) -> Seq<char> {
        self.log@
    }

    /// The machine with the log.
    pub open spec fn outcome(&self) -> Outcome {
        Outcome { machine: self.machine(), log: self.logged() }
    }

    /// The image that is loaded.
    pub closed spec fn image(&self) -> Option<Seq<u8>> {
        match self.program {
            Some(p) => Some(p.bytecode@),
            None => None,
        }
    }

    /// The entry point of the image that is loaded.
    pub closed spec fn entry(&self) -> Option<usize> {
        match self.program {
            Some(p) => Some(p.entry_point as usize),
            None => None,
        }
    }

    /// The debug map that is loaded.
    pub closed spec fn debug(&self) -> Option<Map<u64, DebugInfo>> {
        match self.debug_map {
            Some(m) => Some(m@),
            None => None,
        }
    }

    /// The strings of the read-only data that are loaded: of each its label,
    /// its offset and its bytes.
    pub closed spec fn rodata(&self) -> Option<Seq<(Seq<u8>, usize, Seq<u8>)>> {
        match self.rodata {
            Some(entries) => Some(rodata_view(entries@)),
            None => None,
        }
    }

    /// The line map that is loaded.
    pub closed spec fn lines(&self) -> Option<Map<u64, usize>> {
        match self.line_map {
            Some(m) => Some(m@),
            None => None,
        }
    }

    /// Everything that is loaded: the image with its entry point, the debug
    /// map, the strings of the read-only data, and the line map.
    pub open spec fn loaded(&self) -> (
        Option<Seq<u8>>,
        Option<usize>,
        Option<Map<u64, DebugInfo>>,
        Option<Seq<(Seq<u8>, usize, Seq<u8>)>>,
        Option<Map<u64, usize>>,
    ) {
        (self.image(), self.entry(), self.debug(), self.rodata(), self.lines())
    }

    /// An interpreter with a fresh machine, an empty log and nothing loaded.
    pub fn new() -> (vm: VM)
        ensures
            vm.machine() == Machine::initial(),
            vm.logged() == Seq::<char>::empty(),
            vm.image() is None,
            vm.entry() is None,
            vm.debug() is None,
            vm.rodata() is None,
            vm.lines() is None,
    {
        VM {
            state: VMState::new(),
            program: None,
            rodata: None,
            line_map: None,
            debug_map: None,
            log: LogBuffer::new(),
        }
    }

    /// Puts the machine back to where it was before it ran anything. What is
    /// loaded, and the log, stay.
    pub fn reset(&mut self)
        ensures
            final(self).machine() == Machine::initial(),
            final(self).logged() == old(self).logged(),
            final(self).loaded() == old(self).loaded(),
    {
        self.state.reset();
    }

    /// Takes the strings of the read-only data, for display.
    pub fn load_rodata(&mut self, rodata: Vec<RodataEntry>)
        ensures
            final(self).outcome() == old(self).outcome(),
            final(self).loaded() == (
                old(self).image(),
                old(self).entry(),
                old(self).debug(),
                Some(rodata_view(rodata@)),
                old(self).lines(),
            ),
    {
        self.rodata = Some(rodata);
    }

    /// Takes the source line of each instruction, by its byte offset.
    pub fn load_line_map(&mut self, line_map: HashMap<u64, usize>)
        ensures
            final(self).outcome() == old(self).outcome(),
            final(self).loaded() == (
                old(self).image(),
                old(self).entry(),
                old(self).debug(),
                old(self).rodata(),
                Some(line_map@),
            ),
    {
        self.line_map = Some(line_map);
    }

    /// Takes the debug information of each instruction, by its byte offset
    /// from the entry point.
    pub fn load_debug_map(&mut self, debug_map: HashMap<u64, DebugInfo>)
        ensures
            final(self).outcome() == old(self).outcome(),
            final(self).loaded() == (
                old(self).image(),
                old(self).entry(),
                Some(debug_map@),
                old(self).rodata(),
                old(self).lines(),
            ),
    {
        self.debug_map = Some(debug_map);
    }

    /// Loads an image and sets the program counter to its entry point. An
    /// image is refused as too short where it does not hold a whole file
    /// header, and as badly marked where it does not start with the ELF mark.
    pub fn load_program(&mut self, bytecode: Vec<u8>) -> (r: Result<(), LoadError>)
        ensures
            final(self).logged() == old(self).logged(),
            final(self).debug() == old(self).debug(),
            final(self).rodata() == old(self).rodata(),
            final(self).lines() == old(self).lines(),
            match load_outcome(bytecode@) {
                Ok(entry) => {
                    &&& r is Ok
                    &&& final(self).image() == Some(bytecode@)
                    &&& final(self).entry() == Some(entry)
                    &&& final(self).machine() == (Machine { pc: entry, ..old(self).machine() })
                },
                Err(e) => {
                    &&& r == Err::<(), LoadError>(e)
                    &&& final(self).image() == old(self).image()
                    &&& final(self).entry() == old(self).entry()
                    &&& final(self).machine() == old(self).machine()
                },
            },
    {
        let program = match Program::new(bytecode) {
            Ok(p) => p,
            Err(e) => {
                return Err(e);
            },
        };
        if program.entry_point > usize::MAX as u64 {
            return Err(LoadError::TooShort);
        }
        self.state.pc = program.entry_point as usize;
        self.program = Some(program);
        Ok(())
    }

    /// Puts input data into memory for the guest: its length in the byte at
    /// `INPUT_LENGTH_OFFSET`, the data from `INPUT_DATA_OFFSET` on. Data
    /// that is longer than the length byte can say, or than the memory
    /// holds, is refused.
    pub fn load_input_data(&mut self, account_number: u64, data: &[u8], data_type: &str) -> (r:
        Result<(), RuntimeError>)
        ensures
            final(self).logged() == old(self).logged(),
            final(self).loaded() == old(self).loaded(),
            match r {
                Ok(()) => {
                    &&& data.len() <= MAX_INPUT_LENGTH
                    &&& INPUT_DATA_OFFSET + data.len() <= old(self).machine().memory.len()
                    &&& final(self).machine() == (Machine {
                        memory: input_memory(old(self).machine().memory, data@),
                        ..old(self).machine()
                    })
                },
                Err(e) => {
                    &&& e == RuntimeError::MemoryOutOfBounds
                    &&& data.len() > MAX_INPUT_LENGTH || INPUT_DATA_OFFSET + data.len() > old(
                        self,
                    ).machine().memory.len()
                    &&& final(self).machine() == old(self).machine()
                },
            },
    {
        let n = data.len();
        let size = self.state.memory.len();
        if n > MAX_INPUT_LENGTH || size < INPUT_DATA_OFFSET || n > size - INPUT_DATA_OFFSET {
            return Err(RuntimeError::MemoryOutOfBounds);
        }
        let ghost before = self.state.memory@;
        self.state.memory.set(INPUT_LENGTH_OFFSET, n as u8);
        let mut i: usize = 0;
        while i < n
            invariant
                i <= n,
                n == data.len(),
                n <= MAX_INPUT_LENGTH,
                INPUT_DATA_OFFSET + n <= before.len(),
                self.state.memory@.len() == before.len(),
                self.state.registers == old(self).state.registers,
                self.state.pc == old(self).state.pc,
                self.state.exited == old(self).state.exited,
                self.program == old(self).program,
                self.debug_map == old(self).debug_map,
                self.rodata == old(self).rodata,
                self.line_map == old(self).line_map,
                self.log == old(self).log,
                forall|k: int|
                    0 <= k < before.len() ==> self.state.memory@[k] == (if k
                        == INPUT_LENGTH_OFFSET {
                        n as u8
                    } else if INPUT_DATA_OFFSET <= k < INPUT_DATA_OFFSET + i {
                        data@[k - INPUT_DATA_OFFSET]
                    } else {
                        before[k]
                    }),
            decreases n - i,
        {
            self.state.memory.set(INPUT_DATA_OFFSET + i, data[i]);
            i += 1;
        }
        assert(self.state.memory@ =~= input_memory(before, data@));
        Ok(())
    }

    /// The input data that the memory holds.
    pub fn get_instruction_data(&self) -> (data: Vec<u8>)
        ensures
            data@ == stored_input(self.machine().memory),
    {
        let size = self.state.memory.len();
        if size <= INPUT_LENGTH_OFFSET {
            return Vec::new();
        }
        let n = self.state.memory[INPUT_LENGTH_OFFSET] as usize;
        if size < INPUT_DATA_OFFSET || n > size - INPUT_DATA_OFFSET {
            return Vec::new();
        }
        let mut data: Vec<u8> = Vec::new();
        let mut i: usize = 0;
        while i < n
            invariant
                i <= n,
                INPUT_DATA_OFFSET + n <= self.state.memory.len(),
                data@ == self.state.memory@.subrange(
                    INPUT_DATA_OFFSET as int,
                    INPUT_DATA_OFFSET + i,
                ),
            decreases n - i,
        {
            data.push(self.state.memory[INPUT_DATA_OFFSET + i]);
            assert(data@ =~= self.state.memory@.subrange(
                INPUT_DATA_OFFSET as int,
                INPUT_DATA_OFFSET + i + 1,
            ));
            i += 1;
        }
        data
    }

    /// Whether the program has exited.
    pub fn is_exited(&self) -> (b: bool)
        ensures
            b == self.machine().exited,
    {
        self.state.exited
    }

    /// The debug information of the instruction at the program counter.
    fn debug_info(&self) -> (r: Option<DebugInfo>)
        requires
            self.program is Some,
        ensures
            r == debug_at(self.debug(), self.entry()->0, self.machine().pc),
    {
        broadcast use vstd::std_specs::hash::group_hash_axioms;

        let entry = self.get_entry_point();
        match &self.debug_map {
            Some(map) => {
                if self.state.pc >= entry {
                    let key = (self.state.pc - entry) as u64;
                    match map.get(&key) {
                        Some(d) => Some(*d),
                        None => None,
                    }
                } else {
                    None
                }
            },
            None => None,
        }
    }

    /// Decodes and executes the instruction at the program counter.
    pub fn step_instruction(&mut self) -> (r: Result<(), VmError>)
        ensures
            final(self).loaded() == old(self).loaded(),
            match old(self).image() {
                None => r == Err::<(), VmError>(VmError::NoProgram) && final(self).outcome() == old(
                    self,
                ).outcome(),
                Some(image) => match step_outcome(
                    old(self).outcome(),
                    image,
                    old(self).debug(),
                    old(self).entry()->0,
                ) {
                    Ok(o) => r is Ok && final(self).outcome() == o,
                    Err(e) => r == Err::<(), VmError>(e) && final(self).outcome() == old(
                        self,
                    ).outcome(),
                },
            },
    {
        let pc = self.state.pc;
        let program = match &self.program {
            Some(p) => p,
            None => {
                return Err(VmError::NoProgram);
            },
        };
        if pc > program.bytecode.len() {
            return Err(VmError::Decode { pc, error: DecodeError::Truncated });
        }
        let bytes = slice_subrange(program.bytecode.as_slice(), pc, program.bytecode.len());
        let (instruction, size) = match decode_instruction(bytes) {
            Ok(d) => d,
            Err(error) => {
                return Err(VmError::Decode { pc, error });
            },
        };
        let debug_info = self.debug_info();
        let ghost before = self.outcome();
        proof {
            lemma_step_in_range(
                before,
                program.bytecode@,
                debug_at(self.debug(), self.entry()->0, pc),
                instruction,
                size,
            );
        }
        let hint = match &debug_info {
            Some(d) => Some(d),
            None => None,
        };
        match instruction.execute(&mut self.state, program, hint, &mut self.log) {
            Ok(()) => {},
            Err(error) => {
                return Err(VmError::Runtime { pc, error });
            },
        }
        self.state.pc = self.state.pc + size;
        Ok(())
    }

    /// Runs the program from where the machine stands until it exits, and
    /// gives what `r0` holds then; but no more than `budget` instructions. A
    /// run that fails leaves the machine as the failing instruction found it.
    #[verifier::loop_isolation(false)]
    pub fn run_bounded(&mut self, budget: u64) -> (r: Result<u64, VmError>)
        ensures
            final(self).loaded() == old(self).loaded(),
            match old(self).image() {
                None => r == Err::<u64, VmError>(VmError::NoProgram) && final(self).outcome()
                    == old(self).outcome(),
                Some(image) => {
                    let end = run_end(
                        old(self).outcome(),
                        image,
                        old(self).debug(),
                        old(self).entry()->0,
                        budget as nat,
                    );
                    &&& final(self).outcome() == end.outcome
                    &&& r == (match end.error {
                        None => Ok::<u64, VmError>(end.outcome.machine.registers[0].value),
                        Some(e) => Err::<u64, VmError>(e),
                    })
                },
            },
    {
        if self.program.is_none() {
            return Err(VmError::NoProgram);
        }
        let ghost image = self.image()->0;
        let ghost debug = self.debug();
        let ghost entry = self.entry()->0;
        let ghost goal = run_end(self.outcome(), image, debug, entry, budget as nat);
        let mut left: u64 = budget;
        while !self.state.exited
            invariant
                self.loaded() == old(self).loaded(),
                self.image() == Some(image),
                self.debug() == debug,
                self.entry() == Some(entry),
                goal == run_end(self.outcome(), image, debug, entry, left as nat),
            decreases left,
        {
            if left == 0 {
                return Err(VmError::StepLimit { pc: self.state.pc });
            }
            match self.step_instruction() {
                Ok(()) => {},
                Err(e) => {
                    return Err(e);
                },
            }
            left = left - 1;
        }
        Ok(self.state.registers[0].value)
    }

    /// Runs the program from where the machine stands until it exits, and
    /// gives what `r0` holds then. A run that fails leaves the machine as the
    /// failing instruction found it.
    pub fn run(&mut self) -> (r: Result<u64, VmError>)
        ensures
            final(self).loaded() == old(self).loaded(),
            match old(self).image() {
                None => r == Err::<u64, VmError>(VmError::NoProgram) && final(self).outcome()
                    == old(self).outcome(),
                Some(image) => {
                    let end = run_end(
                        old(self).outcome(),
                        image,
                        old(self).debug(),
                        old(self).entry()->0,
                        STEP_LIMIT as nat,
                    );
                    &&& final(self).outcome() == end.outcome
                    &&& r == (match end.error {
                        None => Ok::<u64, VmError>(end.outcome.machine.registers[0].value),
                        Some(e) => Err::<u64, VmError>(e),
                    })
                },
            },
    {
        self.run_bounded(STEP_LIMIT)
    }

    /// The entry point of the image that is loaded, 0 where none is.
    pub fn get_entry_point(&self) -> (e: usize)
        ensures
            e == (match self.entry() {
                Some(e) => e,
                None => 0,
            }),
    {
        match &self.program {
            Some(p) => #[verifier::truncate]
            (p.entry_point as usize),
            None => 0,
        }
    }

    /// The source line of the instruction at the program counter, 0 where
    /// the debug map does not know it.
    pub fn get_line_number(&self) -> (line: usize)
        ensures
            line == (match debug_at(
                self.debug(),
                match self.entry() {
                    Some(e) => e,
                    None => 0,
                },
                self.machine().pc,
            ) {
                Some(d) => d.line_number,
                None => 0,
            }),
    {
        broadcast use vstd::std_specs::hash::group_hash_axioms;

        let entry = self.get_entry_point();
        match &self.debug_map {
            Some(map) => {
                if self.state.pc >= entry {
                    let key = (self.state.pc - entry) as u64;
                    match map.get(&key) {
                        Some(d) => d.line_number,
                        None => 0,
                    }
                } else {
                    0
                }
            },
            None => 0,
        }
    }

    /// The strings of the read-only data that were loaded, none where none were.
    pub fn get_rodata(&self) -> (r: &[RodataEntry])
        ensures
            rodata_view(r@) == (match self.rodata() {
                Some(entries) => entries,
                None => Seq::empty(),
            }),
    {
        match &self.rodata {
            Some(entries) => entries.as_slice(),
            None => {
                let none: &[RodataEntry] = &[];
                assert(rodata_view(none@) =~= Seq::empty());
                none
            },
        }
    }

    /// The registers `r0` to `r10`.
    pub fn get_registers(&self) -> (r: Vec<Register>)
        ensures
            r@ == self.machine().registers,
    {
        let mut r: Vec<Register> = Vec::new();
        let mut i: usize = 0;
        while i < 11
            invariant
                i <= 11,
                r@ == self.state.registers@.subrange(0, i as int),
            decreases 11 - i,
        {
            r.push(self.state.registers[i]);
            assert(r@ =~= self.state.registers@.subrange(0, i + 1));
            i += 1;
        }
        assert(self.state.registers@.subrange(0, 11) =~= self.state.registers@);
        r
    }

    /// Everything logged since the log was last cleared.
    pub fn get_log(&self) -> (text: String)
        ensures
            text@ == self.logged(),
    {
        self.log.get_log()
    }

    /// Forgets what was logged.
    pub fn clear_log(&mut self)
        ensures
            final(self).logged() == Seq::<char>::empty(),
            final(self).machine() == old(self).machine(),
            final(self).loaded() == old(self).loaded(),
    {
        self.log.clear_log();
    }
}

/// The memory after input data has been put into it.
pub open spec fn input_memory(memory: Seq<u8>, data: Seq<u8>) -> Seq<u8> {
    Seq::new(
        memory.len(),
        |k: int|
            if k == INPUT_LENGTH_OFFSET {
                data.len() as u8
            } else if INPUT_DATA_OFFSET <= k < INPUT_DATA_OFFSET + data.len() {
                data[k - INPUT_DATA_OFFSET]
            } else {
                memory[k]
            },
    )
}

/// The input data that a memory holds: as many bytes from
/// `INPUT_DATA_OFFSET` on as the byte at `INPUT_LENGTH_OFFSET` says, none
/// where the memory does not hold that many.
pub open spec fn stored_input(memory: Seq<u8>) -> Seq<u8> {
    if memory.len() > INPUT_LENGTH_OFFSET && INPUT_DATA_OFFSET + memory[INPUT_LENGTH_OFFSET as int]
        <= memory.len() {
        memory.subrange(
            INPUT_DATA_OFFSET as int,
            INPUT_DATA_OFFSET + memory[INPUT_LENGTH_OFFSET as int],
        )
    } else {
        Seq::empty()
    }
}

} // verus!
