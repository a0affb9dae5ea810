//! The instruction codec and executor: decoding a raw 16-bit word into the
//! closed set of LC-3 instruction variants, and applying a decoded
//! instruction's semantics to the register file, the memory and the byte
//! streams.

use vstd::prelude::*;

use crate::error::Error;
use crate::memory::Memory;
use crate::memory::MemoryTrait;
use crate::memory::MemoryMappedReg;
use crate::memory::mem_read_spec;
use crate::registers::Registers;
use crate::registers::RegistersTrait;
use crate::registers::RegistersEnum;
use crate::registers::condition_for;
use crate::registers::register_index;
use crate::registers::register_of;
use crate::streams::InputStream;
use crate::streams::OutputStream;

verus! {

/// A decoded instruction. Offsets are stored already sign-extended to a
/// full word; register fields are validated slots.
#[derive(Clone, Copy, Debug, PartialEq, Eq, Structural)]
#[allow(inconsistent_fields)]
pub enum Instructions {
    Add { destination: RegistersEnum, source1: RegistersEnum, source2: RegisterMode },
    And { destination: RegistersEnum, source1: RegistersEnum, source2: RegisterMode },
    Branch { pc_offset: u16, condition_flag: u16 },
    Not { destination: RegistersEnum, source1: RegistersEnum },
    Jump { source: RegistersEnum },
    JumpRegister(JumpType),
    Load { destination: RegistersEnum, pc_offset: u16 },
    LoadIndirect { destination: RegistersEnum, pc_offset: u16 },
    LoadRegister { destination: RegistersEnum, source1: RegistersEnum, offset: u16 },
    LoadEffectiveAddress { destination: RegistersEnum, pc_offset: u16 },
    Store { source: RegistersEnum, pc_offset: u16 },
    StoreIndirect { source: RegistersEnum, pc_offset: u16 },
    StoreRegister { source1: RegistersEnum, source2: RegistersEnum, offset: u16 },
    Trap(TrapRoutine),
    RES,
    RTI,
}

/// The second operand of ADD and AND: a sign-extended 5-bit immediate or
/// a register.
#[derive(Clone, Copy, Debug, PartialEq, Eq, Structural)]
pub enum RegisterMode {
    Immediate(u16),
    Register(RegistersEnum),
}

/// The two forms of jump-to-subroutine: PC-relative with a sign-extended
/// 11-bit offset, or through a register.
#[derive(Clone, Copy, Debug, PartialEq, Eq, Structural)]
pub enum JumpType {
    Long(u16),
    Register(RegistersEnum),
}

/// The six defined trap routines, selected by vectors 0x20 through 0x25.
#[derive(Clone, Copy, Debug, PartialEq, Eq, Structural)]
pub enum TrapRoutine {
    GETC,
    OUT,
    PUTS,
    IN,
    PUTSP,
    HALT,
}

/// The trap routine a vector selects, or the unknown-trap-routine error
/// for any vector outside 0x20 through 0x25.
pub open spec fn trap_routine_spec(value: u16) -> Result<TrapRoutine, Error> {
    if value == 0x20 {
        Ok(TrapRoutine::GETC)
    } else if value == 0x21 {
        Ok(TrapRoutine::OUT)
    } else if value == 0x22 {
        Ok(TrapRoutine::PUTS)
    } else if value == 0x23 {
        Ok(TrapRoutine::IN)
    } else if value == 0x24 {
        Ok(TrapRoutine::PUTSP)
    } else if value == 0x25 {
        Ok(TrapRoutine::HALT)
    } else {
        Err(Error::UnknownTrapRoutine(value))
    }
}

impl TrapRoutine {
    /// Validates a trap vector: exactly the six values 0x20 through 0x25
    /// select a routine.
    pub fn try_from(value: u16) -> (r: Result<TrapRoutine, Error>)
        ensures
            r == trap_routine_spec(value),
    {
        match value {
            0x20 => Ok(TrapRoutine::GETC),
            0x21 => Ok(TrapRoutine::OUT),
            0x22 => Ok(TrapRoutine::PUTS),
            0x23 => Ok(TrapRoutine::IN),
            0x24 => Ok(TrapRoutine::PUTSP),
            0x25 => Ok(TrapRoutine::HALT),
            _ => Err(Error::UnknownTrapRoutine(value)),
        }
    }
}

/// Sign extension as the architecture defines it: replicate bit
/// `bit_count - 1` of `x` into every higher bit of the word.
pub open spec fn sign_extend_spec(x: u16, bit_count: u8) -> u16
    recommends
        1 <= bit_count <= 15,
{
    if (x >> ((bit_count - 1) as u16)) & 1 != 0 {
        x | (0xFFFFu16 << (bit_count as u16))
    } else {
        x
    }
}

/// Widens an n-bit two's-complement field to a full 16-bit word.
/// A field whose most significant bit is set is OR'd with a mask of all
/// ones above the field width; any other field is returned unchanged.
pub fn sign_extend(x: u16, bit_count: u8) -> (r: u16)
    requires
        1 <= bit_count <= 15,
    ensures
        r == sign_extend_spec(x, bit_count),
        (x >> ((bit_count - 1) as u16)) & 1 != 0 ==> r == x | (0xFFFFu16 << (bit_count as u16)),
        (x >> ((bit_count - 1) as u16)) & 1 == 0 ==> r == x,
{
    if (x >> ((bit_count - 1) as u16)) & 1 != 0 {
        x | (0xFFFFu16 << (bit_count as u16))
    } else {
        x
    }
}

/// What decoding a raw word yields. The top 4 bits select the opcode;
/// each case extracts its operand fields, sign-extends its offset field
/// and validates its trap vector. Every register field is masked to 3
/// bits and therefore always names a valid slot, so the only reachable
/// decode error is an unknown trap vector; the final arm is unreachable
/// defensive cover, since a 4-bit selector spans exactly 0 through 15.
pub open spec fn decode_spec(value: u16) -> Result<Instructions, Error> {
    let opcode: u16 = value >> 12;
    if opcode == 0 {
        Ok(
            Instructions::Branch {
                pc_offset: sign_extend_spec(value & 0x1FF, 9),
                condition_flag: (value >> 9) & 0x7,
            },
        )
    } else if opcode == 1 {
        Ok(
            Instructions::Add {
                destination: register_of((value >> 9) & 0x7),
                source1: register_of((value >> 6) & 0x7),
                source2: if (value >> 5) & 0x1 > 0 {
                    RegisterMode::Immediate(sign_extend_spec(value & 0x1F, 5))
                } else {
                    RegisterMode::Register(register_of(value & 0x7))
                },
            },
        )
    } else if opcode == 2 {
        Ok(
            Instructions::Load {
                destination: register_of((value >> 9) & 0x7),
                pc_offset: sign_extend_spec(value & 0x1FF, 9),
            },
        )
    } else if opcode == 3 {
        Ok(
            Instructions::Store {
                source: register_of((value >> 9) & 0x7),
                pc_offset: sign_extend_spec(value & 0x1FF, 9),
            },
        )
    } else if opcode == 4 {
        Ok(
            Instructions::JumpRegister(
                if (value >> 11) & 1 != 0 {
                    JumpType::Long(sign_extend_spec(value & 0x7FF, 11))
                } else {
                    JumpType::Register(register_of((value >> 6) & 0x7))
                },
            ),
        )
    } else if opcode == 5 {
        Ok(
            Instructions::And {
                destination: register_of((value >> 9) & 0x7),
                source1: register_of((value >> 6) & 0x7),
                source2: if (value >> 5) & 0x1 > 0 {
                    RegisterMode::Immediate(sign_extend_spec(value & 0x1F, 5))
                } else {
                    RegisterMode::Register(register_of(value & 0x7))
                },
            },
        )
    } else if opcode == 6 {
        Ok(
            Instructions::LoadRegister {
                destination: register_of((value >> 9) & 0x7),
                source1: register_of((value >> 6) & 0x7),
                offset: sign_extend_spec(value & 0x3F, 6),
            },
        )
    } else if opcode == 7 {
        Ok(
            Instructions::StoreRegister {
                source1: register_of((value >> 9) & 0x7),
                source2: register_of((value >> 6) & 0x7),
                offset: sign_extend_spec(value & 0x3F, 6),
            },
        )
    } else if opcode == 8 {
        Ok(Instructions::RTI)
    } else if opcode == 9 {
        Ok(
            Instructions::Not {
                destination: register_of((value >> 9) & 0x7),
                source1: register_of((value >> 6) & 0x7),
            },
        )
    } else if opcode == 10 {
        Ok(
            Instructions::LoadIndirect {
                destination: register_of((value >> 9) & 0x7),
                pc_offset: sign_extend_spec(value & 0x1FF, 9),
            },
        )
    } else if opcode == 11 {
        Ok(
            Instructions::StoreIndirect {
                source: register_of((value >> 9) & 0x7),
                pc_offset: sign_extend_spec(value & 0x1FF, 9),
            },
        )
    } else if opcode == 12 {
        Ok(Instructions::Jump { source: register_of((value >> 6) & 0x7) })
    } else if opcode == 13 {
        Ok(Instructions::RES)
    } else if opcode == 14 {
        Ok(
            Instructions::LoadEffectiveAddress {
                destination: register_of((value >> 9) & 0x7),
                pc_offset: sign_extend_spec(value & 0x1FF, 9),
            },
        )
    } else if opcode == 15 {
        match trap_routine_spec(value & 0xFF) {
            Ok(routine) => Ok(Instructions::Trap(routine)),
            Err(e) => Err(e),
        }
    } else {
        Err(Error::UnknownInstruction(value))
    }
}

/// The vector that selects a trap routine.
pub open spec fn trap_vector(routine: TrapRoutine) -> u16 {
    match routine {
        TrapRoutine::GETC => 0x20,
        TrapRoutine::OUT => 0x21,
        TrapRoutine::PUTS => 0x22,
        TrapRoutine::IN => 0x23,
        TrapRoutine::PUTSP => 0x24,
        TrapRoutine::HALT => 0x25,
    }
}

/// Re-encodes a decoded instruction as a machine word: each operand
/// field is masked back to its width and placed at its bit position,
/// and every bit that no field occupies is zero.
pub open spec fn encode_spec(instruction: Instructions) -> u16 {
    match instruction {
        Instructions::Branch { pc_offset, condition_flag } => ((condition_flag & 0x7) << 9) | (
        pc_offset & 0x1FF),
        Instructions::Add { destination, source1, source2 } => (1u16 << 12) | (register_index(
            destination,
        ) << 9) | (register_index(source1) << 6) | (match source2 {
            RegisterMode::Immediate(immediate) => (1u16 << 5) | (immediate & 0x1F),
            RegisterMode::Register(register) => register_index(register),
        }),
        Instructions::Load { destination, pc_offset } => (2u16 << 12) | (register_index(
            destination,
        ) << 9) | (pc_offset & 0x1FF),
        Instructions::Store { source, pc_offset } => (3u16 << 12) | (register_index(source) << 9)
            | (pc_offset & 0x1FF),
        Instructions::JumpRegister(jump_type) => match jump_type {
            JumpType::Long(pc_offset) => (4u16 << 12) | (1u16 << 11) | (pc_offset & 0x7FF),
            JumpType::Register(register) => (4u16 << 12) | (register_index(register) << 6),
        },
        Instructions::And { destination, source1, source2 } => (5u16 << 12) | (register_index(
            destination,
        ) << 9) | (register_index(source1) << 6) | (match source2 {
            RegisterMode::Immediate(immediate) => (1u16 << 5) | (immediate & 0x1F),
            RegisterMode::Register(register) => register_index(register),
        }),
        Instructions::LoadRegister { destination, source1, offset } => (6u16 << 12) | (
        register_index(destination) << 9) | (register_index(source1) << 6) | (offset & 0x3F),
        Instructions::StoreRegister { source1, source2, offset } => (7u16 << 12) | (register_index(
            source1,
        ) << 9) | (register_index(source2) << 6) | (offset & 0x3F),
        Instructions::RTI => (8u16 << 12),
        Instructions::Not { destination, source1 } => (9u16 << 12) | (register_index(destination)
            << 9) | (register_index(source1) << 6),
        Instructions::LoadIndirect { destination, pc_offset } => (10u16 << 12) | (register_index(
            destination,
        ) << 9) | (pc_offset & 0x1FF),
        Instructions::StoreIndirect { source, pc_offset } => (11u16 << 12) | (register_index(
            source,
        ) << 9) | (pc_offset & 0x1FF),
        Instructions::Jump { source } => (12u16 << 12) | (register_index(source) << 6),
        Instructions::RES => (13u16 << 12),
        Instructions::LoadEffectiveAddress { destination, pc_offset } => (14u16 << 12) | (
        register_index(destination) << 9) | (pc_offset & 0x1FF),
        Instructions::Trap(routine) => (15u16 << 12) | trap_vector(routine),
    }
}

/// The bits of a word that carry operand fields for its opcode: the
/// opcode selector itself, every register and offset field, and the
/// mode-selecting bit where the opcode has one. Bits that the decoder
/// ignores are left out.
pub open spec fn operand_mask(w: u16) -> u16 {
    let opcode: u16 = w >> 12;
    if opcode == 1 || opcode == 5 {
        if (w >> 5) & 0x1 > 0 {
            0xFFFF
        } else {
            0xFFE7
        }
    } else if opcode == 4 {
        if (w >> 11) & 1 != 0 {
            0xFFFF
        } else {
            0xF9C0
        }
    } else if opcode == 9 {
        0xFFC0
    } else if opcode == 12 {
        0xF1C0
    } else if opcode == 15 {
        0xF0FF
    } else {
        0xFFFF
    }
}

/// Decoding preserves every operand field: for any word whose opcode is
/// not one of the two placeholder selectors, re-encoding the decoded
/// instruction reproduces the word on all the bits that carry operand
/// fields — and reproduces it exactly wherever the opcode's fields
/// cover the whole word.
pub proof fn lemma_decode_preserves_fields(w: u16)
    requires
        w >> 12 != 8,
        w >> 12 != 13,
    ensures
        decode_spec(w) matches Ok(instruction) ==> (encode_spec(instruction) & operand_mask(w)) == (
        w & operand_mask(w)),
{
    let opcode: u16 = w >> 12;
    let a: u16 = (w >> 9) & 0x7;
    let b: u16 = (w >> 6) & 0x7;
    let c: u16 = w & 0x7;
    assert(opcode <= 15 && a <= 7 && b <= 7 && c <= 7) by (bit_vector)
        requires
            opcode == w >> 12,
            a == (w >> 9) & 0x7,
            b == (w >> 6) & 0x7,
            c == w & 0x7,
    ;
    assert(register_index(register_of(a)) == a);
    assert(register_index(register_of(b)) == b);
    assert(register_index(register_of(c)) == c);
    if opcode == 0 {
        assert(w >> 12 == 0 ==> (((((w >> 9) & 0x7) & 0x7) << 9) | (sign_extend_spec(
            w & 0x1FF,
            9,
        ) & 0x1FF)) & 0xFFFF == w & 0xFFFF) by (bit_vector);
    } else if opcode == 1 || opcode == 5 {
        let base: u16 = if opcode == 1 {
            1
        } else {
            5
        };
        if (w >> 5) & 0x1 > 0 {
            assert((w >> 12 == 1 || w >> 12 == 5) && (w >> 5) & 0x1 > 0 ==> ((((w >> 12) & 0xF)
                << 12) | (((w >> 9) & 0x7) << 9) | (((w >> 6) & 0x7) << 6) | ((1u16 << 5) | (
            sign_extend_spec(w & 0x1F, 5) & 0x1F))) & 0xFFFF == w & 0xFFFF) by (bit_vector);
            assert(((w >> 12) & 0xF) == base) by (bit_vector)
                requires
                    w >> 12 == base && (base == 1u16 || base == 5u16),
            ;
            assert((base << 12) == ((w >> 12) & 0xF) << 12);
        } else {
            assert((w >> 12 == 1 || w >> 12 == 5) && (w >> 5) & 0x1 == 0 ==> ((((w >> 12) & 0xF)
                << 12) | (((w >> 9) & 0x7) << 9) | (((w >> 6) & 0x7) << 6) | (w & 0x7)) & 0xFFE7
                == w & 0xFFE7) by (bit_vector);
            assert(((w >> 12) & 0xF) == base) by (bit_vector)
                requires
                    w >> 12 == base && (base == 1u16 || base == 5u16),
            ;
            assert((base << 12) == ((w >> 12) & 0xF) << 12);
        }
    } else if opcode == 2 {
        assert(w >> 12 == 2 ==> ((2u16 << 12) | (((w >> 9) & 0x7) << 9) | (sign_extend_spec(
            w & 0x1FF,
            9,
        ) & 0x1FF)) & 0xFFFF == w & 0xFFFF) by (bit_vector);
    } else if opcode == 3 {
        assert(w >> 12 == 3 ==> ((3u16 << 12) | (((w >> 9) & 0x7) << 9) | (sign_extend_spec(
            w & 0x1FF,
            9,
        ) & 0x1FF)) & 0xFFFF == w & 0xFFFF) by (bit_vector);
    } else if opcode == 4 {
        if (w >> 11) & 1 != 0 {
            assert(w >> 12 == 4 && (w >> 11) & 1 != 0 ==> ((4u16 << 12) | (1u16 << 11) | (
            sign_extend_spec(w & 0x7FF, 11) & 0x7FF)) & 0xFFFF == w & 0xFFFF) by (bit_vector);
        } else {
            assert(w >> 12 == 4 && (w >> 11) & 1 == 0 ==> ((4u16 << 12) | (((w >> 6) & 0x7) << 6))
                & 0xF9C0 == w & 0xF9C0) by (bit_vector);
        }
    } else if opcode == 6 {
        assert(w >> 12 == 6 ==> ((6u16 << 12) | (((w >> 9) & 0x7) << 9) | (((w >> 6) & 0x7) << 6)
            | (sign_extend_spec(w & 0x3F, 6) & 0x3F)) & 0xFFFF == w & 0xFFFF) by (bit_vector);
    } else if opcode == 7 {
        assert(w >> 12 == 7 ==> ((7u16 << 12) | (((w >> 9) & 0x7) << 9) | (((w >> 6) & 0x7) << 6)
            | (sign_extend_spec(w & 0x3F, 6) & 0x3F)) & 0xFFFF == w & 0xFFFF) by (bit_vector);
    } else if opcode == 9 {
        assert(w >> 12 == 9 ==> ((9u16 << 12) | (((w >> 9) & 0x7) << 9) | (((w >> 6) & 0x7) << 6))
            & 0xFFC0 == w & 0xFFC0) by (bit_vector);
    } else if opcode == 10 {
        assert(w >> 12 == 10 ==> ((10u16 << 12) | (((w >> 9) & 0x7) << 9) | (sign_extend_spec(
            w & 0x1FF,
            9,
        ) & 0x1FF)) & 0xFFFF == w & 0xFFFF) by (bit_vector);
    } else if opcode == 11 {
        assert(w >> 12 == 11 ==> ((11u16 << 12) | (((w >> 9) & 0x7) << 9) | (sign_extend_spec(
            w & 0x1FF,
            9,
        ) & 0x1FF)) & 0xFFFF == w & 0xFFFF) by (bit_vector);
    } else if opcode == 12 {
        assert(w >> 12 == 12 ==> ((12u16 << 12) | (((w >> 6) & 0x7) << 6)) & 0xF1C0 == w & 0xF1C0)
            by (bit_vector);
    } else if opcode == 14 {
        assert(w >> 12 == 14 ==> ((14u16 << 12) | (((w >> 9) & 0x7) << 9) | (sign_extend_spec(
            w & 0x1FF,
            9,
        ) & 0x1FF)) & 0xFFFF == w & 0xFFFF) by (bit_vector);
    } else if opcode == 15 {
        if decode_spec(w) matches Ok(instruction) {
            assert(trap_routine_spec(w & 0xFF) matches Ok(routine) ==> trap_vector(routine) == (w
                & 0xFF));
            assert(w >> 12 == 15 ==> ((15u16 << 12) | (w & 0xFF)) & 0xF0FF == w & 0xF0FF)
                by (bit_vector);
        }
    }
}

/// What the executor reports back to the run loop: go on fetching, or
/// stop because the program executed the HALT trap.
#[derive(Clone, Copy, Debug, PartialEq, Eq, Structural)]
pub enum Control {
    Continue,
    Halt,
}

/// A snapshot of the whole machine as the contracts speak of it: the
/// register file, the memory as a sequence of words, the unread input
/// bytes and the output bytes written so far.
#[verifier::ext_equal]
pub struct VmState {
    pub regs: Registers,
    pub mem: Seq<u16>,
    pub input: Seq<u8>,
    pub output: Seq<u8>,
}

/// The outcome of executing one instruction: the machine goes to the
/// next snapshot (halting if the instruction was the HALT trap), or the
/// input stream ended during a required read and the step fails with the
/// machine in the snapshot it had reached.
pub enum StepOut {
    Next { s: VmState, halt: bool },
    Fail { s: VmState },
}

/// The value of the second ADD/AND operand: the immediate itself, or the
/// named register's value.
pub open spec fn operand_value(regs: Registers, mode: RegisterMode) -> u16 {
    match mode {
        RegisterMode::Immediate(immediate) => immediate,
        RegisterMode::Register(register) => regs.spec_get(register),
    }
}

/// A destination write followed by the flag update every instruction of
/// the arithmetic, logical and load families performs.
pub open spec fn set_and_flag(regs: Registers, destination: RegistersEnum, value: u16) -> Registers {
    regs.spec_set(destination, value).spec_set(RegistersEnum::Condition, condition_for(value))
}

/// The bytes one nonzero word contributes to PUTS or PUTSP output: the
/// low byte alone, or — packed — the low byte then the high byte.
pub open spec fn word_bytes(word: u16, packed: bool) -> Seq<u8> {
    if packed {
        seq![word as u8, (word >> 8) as u8]
    } else {
        seq![word as u8]
    }
}

/// How many reads a string scan can make before its next visit to the
/// keyboard status address, where a poll consumes an input byte. The
/// measure makes the scan well founded: between visits it shrinks by one
/// per word, and each visit shortens the input.
pub open spec fn scan_dist(address: u16) -> int {
    if address <= 0xFE00 {
        0xFE00 - address
    } else {
        0x1FE00 - address
    }
}

/// What the scan result of a string output trap holds: whether the scan
/// reached a zero word (`ok`) or died on an ended input stream, the
/// bytes it emitted, and the memory and input it left behind.
pub struct ScanOut {
    pub ok: bool,
    pub emitted: Seq<u8>,
    pub mem: Seq<u16>,
    pub input: Seq<u8>,
}

/// The scan that PUTS and PUTSP perform: read words at consecutive
/// addresses — through the memory-mapped read, so a scan across the
/// keyboard status address polls the input — emitting each nonzero
/// word's bytes, until a zero word ends the scan or a poll finds the
/// input ended. Addresses wrap at the top of the address space.
pub open spec fn puts_scan(mem: Seq<u16>, input: Seq<u8>, address: u16, packed: bool) -> ScanOut
    decreases input.len(), scan_dist(address),
{
    match mem_read_spec(mem, input, address) {
        None => ScanOut { ok: false, emitted: Seq::empty(), mem, input },
        Some((word, mem2, input2)) => {
            if word == 0 {
                ScanOut { ok: true, emitted: Seq::empty(), mem: mem2, input: input2 }
            } else {
                let rest = puts_scan(mem2, input2, address.wrapping_add(1), packed);
                ScanOut {
                    ok: rest.ok,
                    emitted: word_bytes(word, packed) + rest.emitted,
                    mem: rest.mem,
                    input: rest.input,
                }
            }
        },
    }
}

/// The outcome of a string output trap on a snapshot: the scan starts at
/// the address in R0; its emitted bytes are appended to the output, and
/// the registers are untouched.
pub open spec fn scan_outcome(s: VmState, packed: bool) -> StepOut {
    let scan = puts_scan(s.mem, s.input, s.regs.spec_get(RegistersEnum::R0), packed);
    let s2 = VmState {
        mem: scan.mem,
        input: scan.input,
        output: s.output + scan.emitted,
        ..s
    };
    if scan.ok {
        StepOut::Next { s: s2, halt: false }
    } else {
        StepOut::Fail { s: s2 }
    }
}

/// The outcome of a trap that blocks for one input byte and stores it,
/// widened, into R0 (GETC and IN): it fails if the input has ended.
pub open spec fn read_char_outcome(s: VmState) -> StepOut {
    if s.input.len() == 0 {
        StepOut::Fail { s }
    } else {
        StepOut::Next {
            s: VmState {
                regs: s.regs.spec_set(RegistersEnum::R0, s.input[0] as u16),
                input: s.input.skip(1),
                ..s
            },
            halt: false,
        }
    }
}

/// The semantics of one decoded instruction on a machine snapshot. All
/// arithmetic and address computation wraps at 16 bits; the flag update
/// follows every instruction that defines a result register and no
/// other. The RES and RTI placeholders have no semantics — the executor
/// refuses them by precondition — and are given a failing outcome here
/// only to make the function total.
pub open spec fn step_spec(instruction: Instructions, s: VmState) -> StepOut {
    let pc = s.regs.spec_get(RegistersEnum::ProgramCounter);
    match instruction {
        Instructions::Add { destination, source1, source2 } => {
            let result = s.regs.spec_get(source1).wrapping_add(operand_value(s.regs, source2));
            StepOut::Next {
                s: VmState { regs: set_and_flag(s.regs, destination, result), ..s },
                halt: false,
            }
        },
        Instructions::And { destination, source1, source2 } => {
            let result = s.regs.spec_get(source1) & operand_value(s.regs, source2);
            StepOut::Next {
                s: VmState { regs: set_and_flag(s.regs, destination, result), ..s },
                halt: false,
            }
        },
        Instructions::Not { destination, source1 } => {
            let result = !s.regs.spec_get(source1);
            StepOut::Next {
                s: VmState { regs: set_and_flag(s.regs, destination, result), ..s },
                halt: false,
            }
        },
        Instructions::Branch { pc_offset, condition_flag } => {
            if condition_flag & s.regs.spec_get(RegistersEnum::Condition) > 0 {
                StepOut::Next {
                    s: VmState {
                        regs: s.regs.spec_set(
                            RegistersEnum::ProgramCounter,
                            pc.wrapping_add(pc_offset),
                        ),
                        ..s
                    },
                    halt: false,
                }
            } else {
                StepOut::Next { s, halt: false }
            }
        },
        Instructions::Jump { source } => {
            StepOut::Next {
                s: VmState {
                    regs: s.regs.spec_set(
                        RegistersEnum::ProgramCounter,
                        s.regs.spec_get(source),
                    ),
                    ..s
                },
                halt: false,
            }
        },
        Instructions::JumpRegister(jump_type) => {
            let saved = s.regs.spec_set(RegistersEnum::R7, pc);
            let target = match jump_type {
                JumpType::Long(pc_offset) => pc.wrapping_add(pc_offset),
                JumpType::Register(register) => saved.spec_get(register),
            };
            StepOut::Next {
                s: VmState {
                    regs: saved.spec_set(RegistersEnum::ProgramCounter, target),
                    ..s
                },
                halt: false,
            }
        },
        Instructions::Load { destination, pc_offset } => {
            match mem_read_spec(s.mem, s.input, pc.wrapping_add(pc_offset)) {
                None => StepOut::Fail { s },
                Some((value, mem2, input2)) => StepOut::Next {
                    s: VmState {
                        regs: set_and_flag(s.regs, destination, value),
                        mem: mem2,
                        input: input2,
                        ..s
                    },
                    halt: false,
                },
            }
        },
        Instructions::LoadIndirect { destination, pc_offset } => {
            match mem_read_spec(s.mem, s.input, pc.wrapping_add(pc_offset)) {
                None => StepOut::Fail { s },
                Some((address, mem2, input2)) => {
                    match mem_read_spec(mem2, input2, address) {
                        None => StepOut::Fail {
                            s: VmState { mem: mem2, input: input2, ..s },
                        },
                        Some((value, mem3, input3)) => StepOut::Next {
                            s: VmState {
                                regs: set_and_flag(s.regs, destination, value),
                                mem: mem3,
                                input: input3,
                                ..s
                            },
                            halt: false,
                        },
                    }
                },
            }
        },
        Instructions::LoadRegister { destination, source1, offset } => {
            let address = s.regs.spec_get(source1).wrapping_add(offset);
            match mem_read_spec(s.mem, s.input, address) {
                None => StepOut::Fail { s },
                Some((value, mem2, input2)) => StepOut::Next {
                    s: VmState {
                        regs: set_and_flag(s.regs, destination, value),
                        mem: mem2,
                        input: input2,
                        ..s
                    },
                    halt: false,
                },
            }
        },
        Instructions::LoadEffectiveAddress { destination, pc_offset } => {
            StepOut::Next {
                s: VmState {
                    regs: set_and_flag(s.regs, destination, pc.wrapping_add(pc_offset)),
                    ..s
                },
                halt: false,
            }
        },
        Instructions::Store { source, pc_offset } => {
            StepOut::Next {
                s: VmState {
                    mem: s.mem.update(
                        pc.wrapping_add(pc_offset) as int,
                        s.regs.spec_get(source),
                    ),
                    ..s
                },
                halt: false,
            }
        },
        Instructions::StoreIndirect { source, pc_offset } => {
            match mem_read_spec(s.mem, s.input, pc.wrapping_add(pc_offset)) {
                None => StepOut::Fail { s },
                Some((address, mem2, input2)) => StepOut::Next {
                    s: VmState {
                        mem: mem2.update(address as int, s.regs.spec_get(source)),
                        input: input2,
                        ..s
                    },
                    halt: false,
                },
            }
        },
        Instructions::StoreRegister { source1, source2, offset } => {
            StepOut::Next {
                s: VmState {
                    mem: s.mem.update(
                        s.regs.spec_get(source2).wrapping_add(offset) as int,
                        s.regs.spec_get(source1),
                    ),
                    ..s
                },
                halt: false,
            }
        },
        Instructions::Trap(routine) => match routine {
            TrapRoutine::GETC => read_char_outcome(s),
            TrapRoutine::OUT => StepOut::Next {
                s: VmState {
                    output: s.output.push(s.regs.spec_get(RegistersEnum::R0) as u8),
                    ..s
                },
                halt: false,
            },
            TrapRoutine::PUTS => scan_outcome(s, false),
            TrapRoutine::IN => read_char_outcome(s),
            TrapRoutine::PUTSP => scan_outcome(s, true),
            TrapRoutine::HALT => StepOut::Next { s, halt: true },
        },
        Instructions::RES => StepOut::Fail { s },
        Instructions::RTI => StepOut::Fail { s },
    }
}

/// The instruction-set interface: decoding a raw word into an
/// instruction and executing a decoded instruction against the register
/// file, the memory and the byte streams. The spec members give the
/// decode table, the executable subset and the per-instruction
/// semantics a contract can speak of; a test double implements the same
/// interface by giving its own.
pub trait InstructionsTrait: Sized {
    /// What decoding a raw word yields.
    spec fn decodes_to(value: u16) -> Result<Self, Error>;

    /// Whether the executor accepts this instruction.
    spec fn executable(&self) -> bool;

    /// The semantics of this instruction on a machine snapshot.
    spec fn steps(&self, s: VmState) -> StepOut;

    /// Decodes a raw machine word into an instruction.
    fn read(value: u16) -> (r: Result<Self, Error>)
        ensures
            r == Self::decodes_to(value),
    ;

    /// Applies this instruction's semantics to the machine, exactly as
    /// its `steps` spec states on the snapshot formed from the four
    /// collaborators; registers and memory are updated in place, trap
    /// routines read the input source and write the output sink, and
    /// the HALT trap reports `Control::Halt` back to the run loop.
    fn execute(
        &self,
        registers: &mut Registers,
        memory: &mut Memory,
        input: &mut InputStream,
        output: &mut OutputStream,
    ) -> (r: Result<Control, Error>)
        requires
            old(memory).inv(),
            self.executable(),
        ensures
            final(memory).inv(),
            ({
                let out = self.steps(
                    VmState {
                        regs: *old(registers),
                        mem: old(memory)@,
                        input: old(input)@,
                        output: old(output)@,
                    },
                );
                match out {
                    StepOut::Next { s, halt } => {
                        &&& r == Ok::<Control, Error>(
                            if halt {
                                Control::Halt
                            } else {
                                Control::Continue
                            },
                        )
                        &&& *final(registers) == s.regs
                        &&& final(memory)@ == s.mem
                        &&& final(input)@ == s.input
                        &&& final(output)@ == s.output
                    },
                    StepOut::Fail { s } => {
                        &&& r == Err::<Control, Error>(Error::IoError)
                        &&& *final(registers) == s.regs
                        &&& final(memory)@ == s.mem
                        &&& final(input)@ == s.input
                        &&& final(output)@ == s.output
                    },
                }
            }),
    ;
}

/// A branch finding no set flag in the condition register leaves the
/// machine — the program counter in particular — unchanged, whatever
/// branch mask and offset the instruction carries.
pub proof fn lemma_branch_condition_clear(s: VmState, pc_offset: u16, condition_flag: u16)
    requires
        s.regs.spec_get(RegistersEnum::Condition) == 0,
    ensures
        step_spec(Instructions::Branch { pc_offset, condition_flag }, s) == (StepOut::Next {
            s,
            halt: false,
        }),
{
    assert(condition_flag & 0 == 0) by (bit_vector);
}

/// The scan loop behind PUTS and PUTSP: reads words from consecutive
/// addresses through the memory-mapped read, writing each nonzero word's
/// bytes to the output, until a zero word ends the string or a poll
/// meets an ended input. Leaves the machine — output too — exactly as
/// `puts_scan` states, whichever way it ends.
fn write_string(
    memory: &mut Memory,
    input: &mut InputStream,
    output: &mut OutputStream,
    start: u16,
    packed: bool,
) -> (r: Result<(), Error>)
    requires
        old(memory).inv(),
    ensures
        final(memory).inv(),
        ({
            let scan = puts_scan(old(memory)@, old(input)@, start, packed);
            final(output)@ == old(output)@ + scan.emitted && final(memory)@ == scan.mem
                && final(input)@ == scan.input && (scan.ok ==> r == Ok::<(), Error>(())) && (
            !scan.ok ==> r == Err::<(), Error>(Error::IoError))
        }),
{
    let mut address: u16 = start;
    let ghost mut emitted: Seq<u8> = Seq::empty();
    loop
        invariant_except_break
            memory.inv(),
            output@ == old(output)@ + emitted,
            ({
                let orig = puts_scan(old(memory)@, old(input)@, start, packed);
                let cur = puts_scan(memory@, input@, address, packed);
                orig.ok == cur.ok && orig.mem == cur.mem && orig.input == cur.input
                    && orig.emitted == emitted + cur.emitted
            }),
        ensures
            memory.inv(),
            ({
                let orig = puts_scan(old(memory)@, old(input)@, start, packed);
                orig.ok && memory@ == orig.mem && input@ == orig.input && output@ == old(
                    output,
                )@ + orig.emitted
            }),
        decreases input@.len(), scan_dist(address),
    {
        let word = match memory.read(address, input) {
            Ok(w) => w,
            Err(e) => {
                proof {
                    let cur = puts_scan(memory@, input@, address, packed);
                    assert(emitted + cur.emitted =~= emitted);
                    assert(old(output)@ + emitted =~= old(output)@ + puts_scan(
                        old(memory)@,
                        old(input)@,
                        start,
                        packed,
                    ).emitted);
                }
                return Err(e);
            },
        };
        if word == 0 {
            proof {
                assert(emitted + Seq::<u8>::empty() =~= emitted);
            }
            break;
        }
        output.write_byte(#[verifier::truncate] (word as u8));
        if packed {
            output.write_byte(#[verifier::truncate] ((word >> 8) as u8));
        }
        proof {
            let next = puts_scan(memory@, input@, address.wrapping_add(1), packed);
            assert(emitted + (word_bytes(word, packed) + next.emitted) =~= (emitted + word_bytes(
                word,
                packed,
            )) + next.emitted);
            emitted = emitted + word_bytes(word, packed);
            assert(output@ =~= old(output)@ + emitted);
        }
        address = address.wrapping_add(1);
    }
    output.flush();
    proof {
        let orig = puts_scan(old(memory)@, old(input)@, start, packed);
        assert(output@ =~= old(output)@ + orig.emitted);
    }
    Ok(())
}

impl InstructionsTrait for Instructions {
    open spec fn decodes_to(value: u16) -> Result<Instructions, Error> {
        decode_spec(value)
    }

    open spec fn executable(&self) -> bool {
        !(*self matches Instructions::RES) && !(*self matches Instructions::RTI)
    }

    open spec fn steps(&self, s: VmState) -> StepOut {
        step_spec(*self, s)
    }

    /// Decodes a raw machine word, as `decode_spec` states: the top 4
    /// bits select the opcode, the remaining bits are extracted,
    /// sign-extended and validated per opcode. Decoding preserves every
    /// operand field of the word.
    fn read(value: u16) -> (r: Result<Instructions, Error>)
        ensures
            r == decode_spec(value),
    {
        proof {
            assert((value >> 9) & 0x7 <= 7 && (value >> 6) & 0x7 <= 7 && value & 0x7 <= 7)
                by (bit_vector);
        }
        match value >> 12 {
            0 => Ok(
                Instructions::Branch {
                    pc_offset: sign_extend(value & 0x1FF, 9),
                    condition_flag: (value >> 9) & 0x7,
                },
            ),
            1 => {
                let r0 = match RegistersEnum::try_from((value >> 9) & 0x7) {
                    Ok(r) => r,
                    Err(e) => {
                        return Err(e);
                    }
                };
                let r1 = match RegistersEnum::try_from((value >> 6) & 0x7) {
                    Ok(r) => r,
                    Err(e) => {
                        return Err(e);
                    }
                };
                if (value >> 5) & 0x1 > 0 {
                    Ok(
                        Instructions::Add {
                            destination: r0,
                            source1: r1,
                            source2: RegisterMode::Immediate(sign_extend(value & 0x1F, 5)),
                        },
                    )
                } else {
                    let r2 = match RegistersEnum::try_from(value & 0x7) {
                        Ok(r) => r,
                        Err(e) => {
                            return Err(e);
                        }
                    };
                    Ok(
                        Instructions::Add {
                            destination: r0,
                            source1: r1,
                            source2: RegisterMode::Register(r2),
                        },
                    )
                }
            },
            2 => {
                let r0 = match RegistersEnum::try_from((value >> 9) & 0x7) {
                    Ok(r) => r,
                    Err(e) => {
                        return Err(e);
                    }
                };
                Ok(Instructions::Load { destination: r0, pc_offset: sign_extend(value & 0x1FF, 9) })
            },
            3 => {
                let r0 = match RegistersEnum::try_from((value >> 9) & 0x7) {
                    Ok(r) => r,
                    Err(e) => {
                        return Err(e);
                    }
                };
                Ok(Instructions::Store { source: r0, pc_offset: sign_extend(value & 0x1FF, 9) })
            },
            4 => {
                if (value >> 11) & 1 != 0 {
                    Ok(Instructions::JumpRegister(JumpType::Long(sign_extend(value & 0x7FF, 11))))
                } else {
                    let r1 = match RegistersEnum::try_from((value >> 6) & 0x7) {
                        Ok(r) => r,
                        Err(e) => {
                            return Err(e);
                        }
                    };
                    Ok(Instructions::JumpRegister(JumpType::Register(r1)))
                }
            },
            5 => {
                let r0 = match RegistersEnum::try_from((value >> 9) & 0x7) {
                    Ok(r) => r,
                    Err(e) => {
                        return Err(e);
                    }
                };
                let r1 = match RegistersEnum::try_from((value >> 6) & 0x7) {
                    Ok(r) => r,
                    Err(e) => {
                        return Err(e);
                    }
                };
                if (value >> 5) & 0x1 > 0 {
                    Ok(
                        Instructions::And {
                            destination: r0,
                            source1: r1,
                            source2: RegisterMode::Immediate(sign_extend(value & 0x1F, 5)),
                        },
                    )
                } else {
                    let r2 = match RegistersEnum::try_from(value & 0x7) {
                        Ok(r) => r,
                        Err(e) => {
                            return Err(e);
                        }
                    };
                    Ok(
                        Instructions::And {
                            destination: r0,
                            source1: r1,
                            source2: RegisterMode::Register(r2),
                        },
                    )
                }
            },
            6 => {
                let r0 = match RegistersEnum::try_from((value >> 9) & 0x7) {
                    Ok(r) => r,
                    Err(e) => {
                        return Err(e);
                    }
                };
                let r1 = match RegistersEnum::try_from((value >> 6) & 0x7) {
                    Ok(r) => r,
                    Err(e) => {
                        return Err(e);
                    }
                };
                Ok(
                    Instructions::LoadRegister {
                        destination: r0,
                        source1: r1,
                        offset: sign_extend(value & 0x3F, 6),
                    },
                )
            },
            7 => {
                let r0 = match RegistersEnum::try_from((value >> 9) & 0x7) {
                    Ok(r) => r,
                    Err(e) => {
                        return Err(e);
                    }
                };
                let r1 = match RegistersEnum::try_from((value >> 6) & 0x7) {
                    Ok(r) => r,
                    Err(e) => {
                        return Err(e);
                    }
                };
                Ok(
                    Instructions::StoreRegister {
                        source1: r0,
                        source2: r1,
                        offset: sign_extend(value & 0x3F, 6),
                    },
                )
            },
            8 => Ok(Instructions::RTI),
            9 => {
                let r0 = match RegistersEnum::try_from((value >> 9) & 0x7) {
                    Ok(r) => r,
                    Err(e) => {
                        return Err(e);
                    }
                };
                let r1 = match RegistersEnum::try_from((value >> 6) & 0x7) {
                    Ok(r) => r,
                    Err(e) => {
                        return Err(e);
                    }
                };
                Ok(Instructions::Not { destination: r0, source1: r1 })
            },
            10 => {
                let r0 = match RegistersEnum::try_from((value >> 9) & 0x7) {
                    Ok(r) => r,
                    Err(e) => {
                        return Err(e);
                    }
                };
                Ok(
                    Instructions::LoadIndirect {
                        destination: r0,
                        pc_offset: sign_extend(value & 0x1FF, 9),
                    },
                )
            },
            11 => {
                let r0 = match RegistersEnum::try_from((value >> 9) & 0x7) {
                    Ok(r) => r,
                    Err(e) => {
                        return Err(e);
                    }
                };
                Ok(
                    Instructions::StoreIndirect {
                        source: r0,
                        pc_offset: sign_extend(value & 0x1FF, 9),
                    },
                )
            },
            12 => {
                let r1 = match RegistersEnum::try_from((value >> 6) & 0x7) {
                    Ok(r) => r,
                    Err(e) => {
                        return Err(e);
                    }
                };
                Ok(Instructions::Jump { source: r1 })
            },
            13 => Ok(Instructions::RES),
            14 => {
                let r0 = match RegistersEnum::try_from((value >> 9) & 0x7) {
                    Ok(r) => r,
                    Err(e) => {
                        return Err(e);
                    }
                };
                Ok(
                    Instructions::LoadEffectiveAddress {
                        destination: r0,
                        pc_offset: sign_extend(value & 0x1FF, 9),
                    },
                )
            },
            15 => {
                match TrapRoutine::try_from(value & 0xFF) {
                    Ok(routine) => Ok(Instructions::Trap(routine)),
                    Err(e) => Err(e),
                }
            },
            _ => {
                proof {
                    assert(value >> 12 <= 15) by (bit_vector);
                }
                Err(Error::UnknownInstruction(value))
            },
        }
    }

    /// Applies this instruction's semantics to the machine, exactly as
    /// `step_spec` states it on the snapshot formed from the four
    /// collaborators: registers and memory are updated in place, trap
    /// routines read the input source and write the output sink, and the
    /// HALT trap reports `Control::Halt` back to the run loop. Fails
    /// with `Error::IoError` precisely when `step_spec` does: when the
    /// input source ends during a required read. The RES and RTI
    /// placeholders have no semantics and must not reach the executor.
    fn execute(
        &self,
        registers: &mut Registers,
        memory: &mut Memory,
        input: &mut InputStream,
        output: &mut OutputStream,
    ) -> (r: Result<Control, Error>)
    {
        match *self {
            Instructions::Add { destination, source1, source2 } => {
                let operand = match source2 {
                    RegisterMode::Immediate(immediate) => immediate,
                    RegisterMode::Register(register) => registers.get(register),
                };
                let result = registers.get(source1).wrapping_add(operand);
                registers.set(destination, result);
                registers.update_flags(destination);
                Ok(Control::Continue)
            },
            Instructions::And { destination, source1, source2 } => {
                let operand = match source2 {
                    RegisterMode::Immediate(immediate) => immediate,
                    RegisterMode::Register(register) => registers.get(register),
                };
                let result = registers.get(source1) & operand;
                registers.set(destination, result);
                registers.update_flags(destination);
                Ok(Control::Continue)
            },
            Instructions::Not { destination, source1 } => {
                let result = !registers.get(source1);
                registers.set(destination, result);
                registers.update_flags(destination);
                Ok(Control::Continue)
            },
            Instructions::Branch { pc_offset, condition_flag } => {
                if condition_flag & registers.get(RegistersEnum::Condition) > 0 {
                    let target = registers.get(RegistersEnum::ProgramCounter).wrapping_add(
                        pc_offset,
                    );
                    registers.set(RegistersEnum::ProgramCounter, target);
                }
                Ok(Control::Continue)
            },
            Instructions::Jump { source } => {
                let target = registers.get(source);
                registers.set(RegistersEnum::ProgramCounter, target);
                Ok(Control::Continue)
            },
            Instructions::JumpRegister(jump_type) => {
                let pc = registers.get(RegistersEnum::ProgramCounter);
                registers.set(RegistersEnum::R7, pc);
                match jump_type {
                    JumpType::Long(pc_offset) => {
                        let target = registers.get(RegistersEnum::ProgramCounter).wrapping_add(
                            pc_offset,
                        );
                        registers.set(RegistersEnum::ProgramCounter, target);
                    },
                    JumpType::Register(register) => {
                        let target = registers.get(register);
                        registers.set(RegistersEnum::ProgramCounter, target);
                    },
                }
                Ok(Control::Continue)
            },
            Instructions::Load { destination, pc_offset } => {
                let address = registers.get(RegistersEnum::ProgramCounter).wrapping_add(pc_offset);
                let value = match memory.read(address, input) {
                    Ok(v) => v,
                    Err(e) => {
                        return Err(e);
                    },
                };
                registers.set(destination, value);
                registers.update_flags(destination);
                Ok(Control::Continue)
            },
            Instructions::LoadIndirect { destination, pc_offset } => {
                let address = registers.get(RegistersEnum::ProgramCounter).wrapping_add(pc_offset);
                let indirect = match memory.read(address, input) {
                    Ok(v) => v,
                    Err(e) => {
                        return Err(e);
                    },
                };
                let value = match memory.read(indirect, input) {
                    Ok(v) => v,
                    Err(e) => {
                        return Err(e);
                    },
                };
                registers.set(destination, value);
                registers.update_flags(destination);
                Ok(Control::Continue)
            },
            Instructions::LoadRegister { destination, source1, offset } => {
                let address = registers.get(source1).wrapping_add(offset);
                let value = match memory.read(address, input) {
                    Ok(v) => v,
                    Err(e) => {
                        return Err(e);
                    },
                };
                registers.set(destination, value);
                registers.update_flags(destination);
                Ok(Control::Continue)
            },
            Instructions::LoadEffectiveAddress { destination, pc_offset } => {
                let result = registers.get(RegistersEnum::ProgramCounter).wrapping_add(pc_offset);
                registers.set(destination, result);
                registers.update_flags(destination);
                Ok(Control::Continue)
            },
            Instructions::Store { source, pc_offset } => {
                let address = registers.get(RegistersEnum::ProgramCounter).wrapping_add(pc_offset);
                let value = registers.get(source);
                memory.write(address, value);
                Ok(Control::Continue)
            },
            Instructions::StoreIndirect { source, pc_offset } => {
                let address = registers.get(RegistersEnum::ProgramCounter).wrapping_add(pc_offset);
                let indirect = match memory.read(address, input) {
                    Ok(v) => v,
                    Err(e) => {
                        return Err(e);
                    },
                };
                let value = registers.get(source);
                memory.write(indirect, value);
                Ok(Control::Continue)
            },
            Instructions::StoreRegister { source1, source2, offset } => {
                let address = registers.get(source2).wrapping_add(offset);
                let value = registers.get(source1);
                memory.write(address, value);
                Ok(Control::Continue)
            },
            Instructions::Trap(routine) => match routine {
                TrapRoutine::GETC => {
                    match input.read_byte() {
                        Some(byte) => {
                            registers.set(RegistersEnum::R0, byte as u16);
                            Ok(Control::Continue)
                        },
                        None => Err(Error::IoError),
                    }
                },
                TrapRoutine::OUT => {
                    let value = registers.get(RegistersEnum::R0);
                    output.write_byte(value as u8);
                    Ok(Control::Continue)
                },
                TrapRoutine::PUTS => {
                    let start = registers.get(RegistersEnum::R0);
                    match write_string(memory, input, output, start, false) {
                        Ok(()) => Ok(Control::Continue),
                        Err(e) => Err(e),
                    }
                },
                TrapRoutine::IN => {
                    output.flush();
                    match input.read_byte() {
                        Some(byte) => {
                            registers.set(RegistersEnum::R0, byte as u16);
                            Ok(Control::Continue)
                        },
                        None => Err(Error::IoError),
                    }
                },
                TrapRoutine::PUTSP => {
                    let start = registers.get(RegistersEnum::R0);
                    match write_string(memory, input, output, start, true) {
                        Ok(()) => Ok(Control::Continue),
                        Err(e) => Err(e),
                    }
                },
                TrapRoutine::HALT => {
                    output.flush();
                    Ok(Control::Halt)
                },
            },
            Instructions::RES => Err(Error::IoError),
            Instructions::RTI => Err(Error::IoError),
        }
    }
}

} // verus!
