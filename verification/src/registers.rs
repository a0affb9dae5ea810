//! The register file: eight general-purpose registers, the program counter
//! and the condition-code register, together with the flag-update operation
//! that keeps exactly one of the three condition flags set.

use vstd::prelude::*;

use crate::error::Error;

verus! {

/// The fixed address at which programs are loaded and execution begins.
pub const PROGRAM_START: u16 = 0x3000;

/// The ten register slots of the machine.
#[derive(Clone, Copy, Debug, PartialEq, Eq, Structural)]
pub enum RegistersEnum {
    R0,
    R1,
    R2,
    R3,
    R4,
    R5,
    R6,
    R7,
    ProgramCounter,
    Condition,
}

/// The register slot that a raw field value names, for values 0 through 9.
/// Values above 9 have no slot; callers go through `RegistersEnum::try_from`.
pub open spec fn register_of(value: u16) -> RegistersEnum {
    if value == 0 {
        RegistersEnum::R0
    } else if value == 1 {
        RegistersEnum::R1
    } else if value == 2 {
        RegistersEnum::R2
    } else if value == 3 {
        RegistersEnum::R3
    } else if value == 4 {
        RegistersEnum::R4
    } else if value == 5 {
        RegistersEnum::R5
    } else if value == 6 {
        RegistersEnum::R6
    } else if value == 7 {
        RegistersEnum::R7
    } else if value == 8 {
        RegistersEnum::ProgramCounter
    } else {
        RegistersEnum::Condition
    }
}

/// The raw field value that names a register slot: the inverse of
/// `register_of` on the values 0 through 9.
pub open spec fn register_index(register: RegistersEnum) -> u16 {
    match register {
        RegistersEnum::R0 => 0,
        RegistersEnum::R1 => 1,
        RegistersEnum::R2 => 2,
        RegistersEnum::R3 => 3,
        RegistersEnum::R4 => 4,
        RegistersEnum::R5 => 5,
        RegistersEnum::R6 => 6,
        RegistersEnum::R7 => 7,
        RegistersEnum::ProgramCounter => 8,
        RegistersEnum::Condition => 9,
    }
}

impl RegistersEnum {
    /// Validates a raw register field: values 0 through 9 name the ten
    /// slots in order, anything else is an unknown register.
    pub fn try_from(value: u16) -> (r: Result<RegistersEnum, Error>)
        ensures
            value <= 9 ==> r == Ok::<RegistersEnum, Error>(register_of(value)),
            value > 9 ==> r == Err::<RegistersEnum, Error>(Error::UnknownRegister(value)),
    {
        match value {
            0 => Ok(RegistersEnum::R0),
            1 => Ok(RegistersEnum::R1),
            2 => Ok(RegistersEnum::R2),
            3 => Ok(RegistersEnum::R3),
            4 => Ok(RegistersEnum::R4),
            5 => Ok(RegistersEnum::R5),
            6 => Ok(RegistersEnum::R6),
            7 => Ok(RegistersEnum::R7),
            8 => Ok(RegistersEnum::ProgramCounter),
            9 => Ok(RegistersEnum::Condition),
            _ => Err(Error::UnknownRegister(value)),
        }
    }
}

/// The three condition codes. Exactly one of them is recorded in the
/// `Condition` register at any time.
#[derive(Clone, Copy, Debug, PartialEq, Eq, Structural)]
pub enum ConditionFlag {
    Positive,
    Zero,
    Negative,
}

impl ConditionFlag {
    /// The one-hot bit this flag occupies in the `Condition` register.
    pub open spec fn mask_spec(self) -> u16 {
        match self {
            ConditionFlag::Positive => 1,
            ConditionFlag::Zero => 2,
            ConditionFlag::Negative => 4,
        }
    }

    /// The one-hot bit this flag occupies in the `Condition` register.
    pub fn mask(self) -> (m: u16)
        ensures
            m == self.mask_spec(),
    {
        match self {
            ConditionFlag::Positive => 1,
            ConditionFlag::Zero => 2,
            ConditionFlag::Negative => 4,
        }
    }
}

/// The condition-register value that recording `value` produces: the
/// `Zero` flag for zero, `Negative` for a value with the top bit set,
/// `Positive` otherwise.
pub open spec fn condition_for(value: u16) -> u16 {
    if value == 0 {
        ConditionFlag::Zero.mask_spec()
    } else if value >> 15 != 0 {
        ConditionFlag::Negative.mask_spec()
    } else {
        ConditionFlag::Positive.mask_spec()
    }
}

/// Recording a result register sets exactly one of the three condition
/// flags: `Zero` when the value is zero, `Negative` when its top bit is
/// set, `Positive` in every remaining case. The three cases are mutually
/// exclusive and cover all 16-bit values.
pub proof fn lemma_condition_flags_exclusive(value: u16)
    ensures
        value == 0 ==> condition_for(value) == ConditionFlag::Zero.mask_spec(),
        value >> 15 == 1 ==> condition_for(value) == ConditionFlag::Negative.mask_spec(),
        value != 0 && value >> 15 == 0 ==> condition_for(value) == ConditionFlag::Positive.mask_spec(),
        condition_for(value) == ConditionFlag::Positive.mask_spec()
            || condition_for(value) == ConditionFlag::Zero.mask_spec()
            || condition_for(value) == ConditionFlag::Negative.mask_spec(),
        ConditionFlag::Positive.mask_spec() != ConditionFlag::Zero.mask_spec()
            && ConditionFlag::Zero.mask_spec() != ConditionFlag::Negative.mask_spec()
            && ConditionFlag::Positive.mask_spec() != ConditionFlag::Negative.mask_spec(),
{
    assert(value >> 15 == 0 || value >> 15 == 1) by (bit_vector);
    assert(value == 0 ==> value >> 15 == 0) by (bit_vector);
}

/// The register file. All slots start at zero except the program counter,
/// which starts at the program load origin.
#[derive(Clone, Copy, Debug, PartialEq, Eq, Structural)]
pub struct Registers {
    pub r0: u16,
    pub r1: u16,
    pub r2: u16,
    pub r3: u16,
    pub r4: u16,
    pub r5: u16,
    pub r6: u16,
    pub r7: u16,
    pub pc: u16,
    pub condition: u16,
}

/// The register-file interface: slot reads and writes, the combined
/// fetch-and-advance primitive, and the condition-flag update. The
/// `regs_view` spec function gives the abstract register file a
/// contract can speak of; a test double implements the same interface
/// by giving its own view.
pub trait RegistersTrait {
    /// The abstract register file this implementation represents.
    spec fn regs_view(&self) -> Registers;

    /// Reads one register slot.
    fn get(&self, register: RegistersEnum) -> (r: u16)
        ensures
            r == self.regs_view().spec_get(register),
    ;

    /// Writes one register slot, leaving every other slot unchanged.
    fn set(&mut self, register: RegistersEnum, value: u16)
        ensures
            final(self).regs_view() == old(self).regs_view().spec_set(register, value),
    ;

    /// Returns the address of the current instruction and advances the
    /// program counter by one word, wrapping at the top of the address
    /// space.
    fn next_instruction(&mut self) -> (address: u16)
        ensures
            address == old(self).regs_view().spec_get(RegistersEnum::ProgramCounter),
            final(self).regs_view() == old(self).regs_view().spec_set(
                RegistersEnum::ProgramCounter,
                old(self).regs_view().spec_get(RegistersEnum::ProgramCounter).wrapping_add(1),
            ),
    ;

    /// Inspects the named register and records its sign in the
    /// `Condition` register: exactly one of `Zero`, `Negative` or
    /// `Positive`.
    fn update_flags(&mut self, register: RegistersEnum)
        ensures
            final(self).regs_view() == old(self).regs_view().spec_set(
                RegistersEnum::Condition,
                condition_for(old(self).regs_view().spec_get(register)),
            ),
    ;

    /// Reads the program counter.
    fn get_pc(&self) -> (r: u16)
        ensures
            r == self.regs_view().spec_get(RegistersEnum::ProgramCounter),
    ;

    /// Writes the program counter.
    fn set_pc(&mut self, value: u16)
        ensures
            final(self).regs_view() == old(self).regs_view().spec_set(
                RegistersEnum::ProgramCounter,
                value,
            ),
    ;
}

impl Registers {
    /// The value held by a register slot.
    pub open spec fn spec_get(self, register: RegistersEnum) -> u16 {
        match register {
            RegistersEnum::R0 => self.r0,
            RegistersEnum::R1 => self.r1,
            RegistersEnum::R2 => self.r2,
            RegistersEnum::R3 => self.r3,
            RegistersEnum::R4 => self.r4,
            RegistersEnum::R5 => self.r5,
            RegistersEnum::R6 => self.r6,
            RegistersEnum::R7 => self.r7,
            RegistersEnum::ProgramCounter => self.pc,
            RegistersEnum::Condition => self.condition,
        }
    }

    /// The register file with one slot replaced and all others kept.
    pub open spec fn spec_set(self, register: RegistersEnum, value: u16) -> Registers {
        match register {
            RegistersEnum::R0 => Registers { r0: value, ..self },
            RegistersEnum::R1 => Registers { r1: value, ..self },
            RegistersEnum::R2 => Registers { r2: value, ..self },
            RegistersEnum::R3 => Registers { r3: value, ..self },
            RegistersEnum::R4 => Registers { r4: value, ..self },
            RegistersEnum::R5 => Registers { r5: value, ..self },
            RegistersEnum::R6 => Registers { r6: value, ..self },
            RegistersEnum::R7 => Registers { r7: value, ..self },
            RegistersEnum::ProgramCounter => Registers { pc: value, ..self },
            RegistersEnum::Condition => Registers { condition: value, ..self },
        }
    }

}

impl RegistersTrait for Registers {
    open spec fn regs_view(&self) -> Registers {
        *self
    }

    /// Reads one register slot.
    fn get(&self, register: RegistersEnum) -> (r: u16)
        ensures
            r == self.spec_get(register),
    {
        match register {
            RegistersEnum::R0 => self.r0,
            RegistersEnum::R1 => self.r1,
            RegistersEnum::R2 => self.r2,
            RegistersEnum::R3 => self.r3,
            RegistersEnum::R4 => self.r4,
            RegistersEnum::R5 => self.r5,
            RegistersEnum::R6 => self.r6,
            RegistersEnum::R7 => self.r7,
            RegistersEnum::ProgramCounter => self.pc,
            RegistersEnum::Condition => self.condition,
        }
    }

    /// Writes one register slot, leaving every other slot unchanged.
    fn set(&mut self, register: RegistersEnum, value: u16)
        ensures
            *final(self) == old(self).spec_set(register, value),
    {
        match register {
            RegistersEnum::R0 => self.r0 = value,
            RegistersEnum::R1 => self.r1 = value,
            RegistersEnum::R2 => self.r2 = value,
            RegistersEnum::R3 => self.r3 = value,
            RegistersEnum::R4 => self.r4 = value,
            RegistersEnum::R5 => self.r5 = value,
            RegistersEnum::R6 => self.r6 = value,
            RegistersEnum::R7 => self.r7 = value,
            RegistersEnum::ProgramCounter => self.pc = value,
            RegistersEnum::Condition => self.condition = value,
        }
    }

    /// Returns the address of the current instruction and advances the
    /// program counter by one word, wrapping at the top of the address
    /// space.
    fn next_instruction(&mut self) -> (address: u16)
        ensures
            address == old(self).spec_get(RegistersEnum::ProgramCounter),
            *final(self) == old(self).spec_set(
                RegistersEnum::ProgramCounter,
                old(self).spec_get(RegistersEnum::ProgramCounter).wrapping_add(1),
            ),
    {
        let address = self.get(RegistersEnum::ProgramCounter);
        self.set(RegistersEnum::ProgramCounter, address.wrapping_add(1));
        address
    }

    /// Inspects the named register and records its sign in the `Condition`
    /// register: exactly one of `Zero`, `Negative` or `Positive`.
    fn update_flags(&mut self, register: RegistersEnum)
        ensures
            *final(self) == old(self).spec_set(
                RegistersEnum::Condition,
                condition_for(old(self).spec_get(register)),
            ),
    {
        let value = self.get(register);
        if value == 0 {
            self.set(RegistersEnum::Condition, ConditionFlag::Zero.mask());
        } else if value >> 15 != 0 {
            self.set(RegistersEnum::Condition, ConditionFlag::Negative.mask());
        } else {
            self.set(RegistersEnum::Condition, ConditionFlag::Positive.mask());
        }
    }

    /// Reads the program counter.
    fn get_pc(&self) -> (r: u16)
        ensures
            r == self.spec_get(RegistersEnum::ProgramCounter),
    {
        self.get(RegistersEnum::ProgramCounter)
    }

    /// Writes the program counter.
    fn set_pc(&mut self, value: u16)
        ensures
            *final(self) == old(self).spec_set(RegistersEnum::ProgramCounter, value),
    {
        self.set(RegistersEnum::ProgramCounter, value);
    }
}

impl Default for Registers {
    /// A fresh register file: every slot zero except the program counter,
    /// which holds the program load origin.
    fn default() -> (r: Registers)
        ensures
            r.spec_get(RegistersEnum::ProgramCounter) == PROGRAM_START,
            forall|register: RegistersEnum|
                register != RegistersEnum::ProgramCounter ==> #[trigger] r.spec_get(register) == 0,
    {
        Registers {
            r0: 0,
            r1: 0,
            r2: 0,
            r3: 0,
            r4: 0,
            r5: 0,
            r6: 0,
            r7: 0,
            pc: PROGRAM_START,
            condition: 0,
        }
    }
}

} // verus!
