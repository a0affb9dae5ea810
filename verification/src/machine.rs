//! The machine itself: the loader that fills memory from a program image,
//! and the run loop that drives fetch, decode and execute until the
//! program halts, a step budget runs out, or an error surfaces.

use vstd::prelude::*;

use crate::error::Error;
use crate::instructions::Control;
use crate::instructions::Instructions;
use crate::instructions::InstructionsTrait;
use crate::instructions::StepOut;
use crate::instructions::VmState;
use crate::instructions::decode_spec;
use crate::instructions::step_spec;
use crate::memory::MEMORY_WORDS;
use crate::memory::Memory;
use crate::memory::MemoryTrait;
use crate::memory::mem_read_spec;
use crate::registers::Registers;
use crate::registers::RegistersTrait;
use crate::registers::RegistersEnum;
use crate::streams::InputStream;
use crate::streams::OutputStream;

verus! {

/// The two states of the run loop: still running when the step budget
/// ran out first, halted when the program executed the HALT trap or the
/// program counter reached the top of the address space.
#[derive(Clone, Copy, Debug, PartialEq, Eq, Structural)]
pub enum RunState {
    Running,
    Halted,
}

/// The big-endian word two image bytes form.
pub open spec fn be16(hi: u8, lo: u8) -> u16 {
    ((hi as u16) << 8) | (lo as u16)
}

/// The memory that loading the image words starting at byte position `i`
/// leaves behind: each big-endian byte pair becomes one word at the next
/// consecutive address, wrapping at the top of the address space.
pub open spec fn store_words(mem: Seq<u16>, address: u16, image: Seq<u8>, i: int) -> Seq<u16>
    decreases image.len() - i,
{
    if i < 0 || i + 2 > image.len() {
        mem
    } else {
        store_words(
            mem.update(address as int, be16(image[i], image[i + 1])),
            address.wrapping_add(1),
            image,
            i + 2,
        )
    }
}

/// What a bounded run from a snapshot yields. Fetching goes through the
/// memory-mapped read at the program counter, which then advances by
/// one; a decode error, a decoded RES or RTI placeholder, or a failing
/// execution step ends the run with its error; the HALT trap or a
/// program counter at the top of the address space halts it; and a run
/// that is still going when the step budget ends is `Running`.
pub open spec fn run_spec(s: VmState, limit: nat) -> RunOut
    decreases limit,
{
    let pc = s.regs.spec_get(RegistersEnum::ProgramCounter);
    if pc >= 0xFFFF {
        RunOut::Halted { s }
    } else if limit == 0 {
        RunOut::Running { s }
    } else {
        match mem_read_spec(s.mem, s.input, pc) {
            None => RunOut::Failed { s, e: Error::IoError },
            Some((word, mem2, input2)) => {
                let s2 = VmState {
                    regs: s.regs.spec_set(RegistersEnum::ProgramCounter, (pc + 1) as u16),
                    mem: mem2,
                    input: input2,
                    ..s
                };
                match decode_spec(word) {
                    Err(e) => RunOut::Failed { s: s2, e },
                    Ok(instruction) => {
                        if (instruction matches Instructions::RES) || (instruction
                            matches Instructions::RTI) {
                            RunOut::Failed { s: s2, e: Error::UnknownInstruction(word) }
                        } else {
                            match step_spec(instruction, s2) {
                                StepOut::Fail { s: s3 } => RunOut::Failed {
                                    s: s3,
                                    e: Error::IoError,
                                },
                                StepOut::Next { s: s3, halt } => if halt {
                                    RunOut::Halted { s: s3 }
                                } else {
                                    run_spec(s3, (limit - 1) as nat)
                                },
                            }
                        }
                    },
                }
            },
        }
    }
}

/// The outcome of a bounded run: halted, still running with the budget
/// spent, or failed with the error the run surfaced — each carrying the
/// snapshot the machine had reached.
pub enum RunOut {
    Halted { s: VmState },
    Running { s: VmState },
    Failed { s: VmState, e: Error },
}

/// The whole machine: a 65536-word memory and the register file.
#[derive(Debug)]
pub struct LittleComputer3 {
    memory: Memory,
    registers: Registers,
}

impl LittleComputer3 {
    /// The machine is well formed: its memory holds one word per address.
    pub closed spec fn inv(&self) -> bool {
        self.memory.inv()
    }

    /// The register file.
    pub closed spec fn regs(&self) -> Registers {
        self.registers
    }

    /// The memory contents, one word per address.
    pub closed spec fn mem(&self) -> Seq<u16> {
        self.memory@
    }

    /// A copy of the register file, for inspection.
    pub fn registers(&self) -> (r: Registers)
        ensures
            r == self.regs(),
    {
        self.registers
    }

    /// The word stored at an address, read as plain storage with no
    /// memory-mapped side effect; for inspection.
    pub fn memory_word(&self, address: u16) -> (r: u16)
        requires
            self.inv(),
        ensures
            r == self.mem()[address as int],
    {
        self.memory.word_at(address)
    }

    /// Loads a program image: the first two bytes, big-endian, give the
    /// origin address, and every following big-endian byte pair is one
    /// word stored at consecutive addresses from the origin on. An image
    /// too short to hold an origin, or one ending in the middle of a
    /// word, is an error and leaves the machine untouched.
    pub fn load_program(&mut self, image: &[u8]) -> (r: Result<(), Error>)
        requires
            old(self).inv(),
        ensures
            final(self).inv(),
            final(self).regs() == old(self).regs(),
            image@.len() < 2 || image@.len() % 2 != 0 ==> r == Err::<(), Error>(Error::IoError)
                && final(self).mem() == old(self).mem(),
            image@.len() >= 2 && image@.len() % 2 == 0 ==> r == Ok::<(), Error>(())
                && final(self).mem() == store_words(
                old(self).mem(),
                be16(image@[0], image@[1]),
                image@,
                2,
            ),
    {
        if image.len() < 2 || image.len() % 2 != 0 {
            return Err(Error::IoError);
        }
        let mut address: u16 = ((image[0] as u16) << 8) | (image[1] as u16);
        let mut i: usize = 2;
        while i < image.len()
            invariant
                self.inv(),
                self.registers == old(self).registers,
                2 <= i <= image@.len(),
                i % 2 == 0,
                image@.len() % 2 == 0,
                store_words(old(self).mem(), be16(image@[0], image@[1]), image@, 2) == store_words(
                    self.memory@,
                    address,
                    image@,
                    i as int,
                ),
            decreases image@.len() - i,
        {
            let word: u16 = ((image[i] as u16) << 8) | (image[i + 1] as u16);
            self.memory.write(address, word);
            address = address.wrapping_add(1);
            i = i + 2;
        }
        Ok(())
    }

    /// Runs the fetch-decode-execute loop for at most `limit` steps.
    /// Each step fetches the word at the program counter through the
    /// memory-mapped read, advances the program counter, decodes and
    /// executes. The run halts normally on the HALT trap or when the
    /// program counter reaches the top of the address space; it aborts
    /// with the first decode or input error, and with an unknown
    /// instruction on the reserved and return-from-interrupt
    /// placeholders. A program still going after `limit` steps reports
    /// `RunState::Running`, the machine left ready to continue.
    pub fn execute_program(
        &mut self,
        input: &mut InputStream,
        output: &mut OutputStream,
        limit: u64,
    ) -> (r: Result<RunState, Error>)
        requires
            old(self).inv(),
        ensures
            final(self).inv(),
            ({
                let out = run_spec(
                    VmState {
                        regs: old(self).regs(),
                        mem: old(self).mem(),
                        input: old(input)@,
                        output: old(output)@,
                    },
                    limit as nat,
                );
                match out {
                    RunOut::Halted { s } => {
                        &&& r == Ok::<RunState, Error>(RunState::Halted)
                        &&& final(self).regs() == s.regs
                        &&& final(self).mem() == s.mem
                        &&& final(input)@ == s.input
                        &&& final(output)@ == s.output
                    },
                    RunOut::Running { s } => {
                        &&& r == Ok::<RunState, Error>(RunState::Running)
                        &&& final(self).regs() == s.regs
                        &&& final(self).mem() == s.mem
                        &&& final(input)@ == s.input
                        &&& final(output)@ == s.output
                    },
                    RunOut::Failed { s, e } => {
                        &&& r == Err::<RunState, Error>(e)
                        &&& final(self).regs() == s.regs
                        &&& final(self).mem() == s.mem
                        &&& final(input)@ == s.input
                        &&& final(output)@ == s.output
                    },
                }
            }),
    {
        let mut steps: u64 = limit;
        loop
            invariant
                self.inv(),
                run_spec(
                    VmState {
                        regs: old(self).regs(),
                        mem: old(self).mem(),
                        input: old(input)@,
                        output: old(output)@,
                    },
                    limit as nat,
                ) == run_spec(
                    VmState {
                        regs: self.registers,
                        mem: self.memory@,
                        input: input@,
                        output: output@,
                    },
                    steps as nat,
                ),
            ensures
                self.inv(),
                run_spec(
                    VmState {
                        regs: old(self).regs(),
                        mem: old(self).mem(),
                        input: old(input)@,
                        output: old(output)@,
                    },
                    limit as nat,
                ) == run_spec(
                    VmState {
                        regs: self.registers,
                        mem: self.memory@,
                        input: input@,
                        output: output@,
                    },
                    steps as nat,
                ),
                self.registers.spec_get(RegistersEnum::ProgramCounter) >= 0xFFFF || steps == 0,
            decreases steps,
        {
            let pc = self.registers.get_pc();
            if pc >= 0xFFFF {
                break;
            }
            if steps == 0 {
                break;
            }
            let word = match self.memory.read(pc, input) {
                Ok(w) => w,
                Err(e) => {
                    return Err(e);
                },
            };
            self.registers.set_pc(pc + 1);
            let instruction = match Instructions::read(word) {
                Ok(instruction) => instruction,
                Err(e) => {
                    return Err(e);
                },
            };
            match instruction {
                Instructions::RES | Instructions::RTI => {
                    return Err(Error::UnknownInstruction(word));
                },
                _ => {},
            }
            let control = match instruction.execute(
                &mut self.registers,
                &mut self.memory,
                input,
                output,
            ) {
                Ok(control) => control,
                Err(e) => {
                    return Err(e);
                },
            };
            match control {
                Control::Halt => {
                    return Ok(RunState::Halted);
                },
                Control::Continue => {},
            }
            steps = steps - 1;
        }
        if self.registers.get_pc() >= 0xFFFF {
            Ok(RunState::Halted)
        } else {
            Ok(RunState::Running)
        }
    }
}

impl Default for LittleComputer3 {
    /// A fresh machine: memory all zero, registers all zero but for the
    /// program counter at the load origin.
    fn default() -> (r: LittleComputer3)
        ensures
            r.inv(),
            r.regs().spec_get(RegistersEnum::ProgramCounter) == crate::registers::PROGRAM_START,
            forall|register: RegistersEnum|
                register != RegistersEnum::ProgramCounter ==> #[trigger] r.regs().spec_get(register)
                    == 0,
            forall|address: int| 0 <= address < MEMORY_WORDS ==> #[trigger] r.mem()[address] == 0,
    {
        LittleComputer3 { memory: Memory::default(), registers: Registers::default() }
    }
}

} // verus!
