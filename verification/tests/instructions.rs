use lc3::instructions::InstructionsTrait;
use lc3::memory::MemoryTrait;
use lc3::registers::RegistersTrait;
use lc3::instructions::Instructions;
use lc3::instructions::JumpType;
use lc3::instructions::RegisterMode;
use lc3::instructions::TrapRoutine;
use lc3::memory::Memory;
use lc3::registers::Registers;
use lc3::registers::RegistersEnum;
use lc3::registers::PROGRAM_START;
use lc3::streams::InputStream;
use lc3::streams::OutputStream;

#[test]
fn test_add_immediate() {
    let mut registers = Registers::default();
    let mut memory = Memory::default();
    let mut input = InputStream::empty();
    let mut output = OutputStream::new();

    registers.set(RegistersEnum::R1, 5);
    let instruction = Instructions::Add {
        destination: RegistersEnum::R0,
        source1: RegistersEnum::R1,
        source2: RegisterMode::Immediate(10),
    };
    instruction
        .execute(&mut registers, &mut memory, &mut input, &mut output)
        .unwrap();
    assert_eq!(15, registers.get(RegistersEnum::R0));
}

#[test]
fn test_add_register() {
    let mut registers = Registers::default();
    let mut memory = Memory::default();
    let mut input = InputStream::empty();
    let mut output = OutputStream::new();

    registers.set(RegistersEnum::R1, 5);
    registers.set(RegistersEnum::R2, 7);
    let instruction = Instructions::Add {
        destination: RegistersEnum::R0,
        source1: RegistersEnum::R1,
        source2: RegisterMode::Register(RegistersEnum::R2),
    };
    instruction
        .execute(&mut registers, &mut memory, &mut input, &mut output)
        .unwrap();
    assert_eq!(12, registers.get(RegistersEnum::R0));
}

#[test]
fn test_and_immediate() {
    let mut registers = Registers::default();
    let mut memory = Memory::default();
    let mut input = InputStream::empty();
    let mut output = OutputStream::new();

    registers.set(RegistersEnum::R1, 5);
    let instruction = Instructions::And {
        destination: RegistersEnum::R0,
        source1: RegistersEnum::R1,
        source2: RegisterMode::Immediate(10),
    };
    instruction
        .execute(&mut registers, &mut memory, &mut input, &mut output)
        .unwrap();
    assert_eq!(0, registers.get(RegistersEnum::R0));
}

#[test]
fn test_and_register() {
    let mut registers = Registers::default();
    let mut memory = Memory::default();
    let mut input = InputStream::empty();
    let mut output = OutputStream::new();

    registers.set(RegistersEnum::R1, 5);
    registers.set(RegistersEnum::R2, 7);
    let instruction = Instructions::And {
        destination: RegistersEnum::R0,
        source1: RegistersEnum::R1,
        source2: RegisterMode::Register(RegistersEnum::R2),
    };
    instruction
        .execute(&mut registers, &mut memory, &mut input, &mut output)
        .unwrap();
    assert_eq!(5, registers.get(RegistersEnum::R0));
}

#[test]
fn test_not() {
    let mut registers = Registers::default();
    let mut memory = Memory::default();
    let mut input = InputStream::empty();
    let mut output = OutputStream::new();

    registers.set(RegistersEnum::R1, 0xFF00);
    let instruction = Instructions::Not {
        destination: RegistersEnum::R0,
        source1: RegistersEnum::R1,
    };
    instruction
        .execute(&mut registers, &mut memory, &mut input, &mut output)
        .unwrap();
    assert_eq!(0x00FF, registers.get(RegistersEnum::R0));
}

#[test]
fn test_load_indirect() {
    let mut registers = Registers::default();
    let mut memory = Memory::default();
    let mut input = InputStream::empty();
    let mut output = OutputStream::new();

    let pc_offset = 5;
    let address = 1;
    let value = 23;
    memory.write(PROGRAM_START + pc_offset, address);
    memory.write(address, value);

    let instruction = Instructions::LoadIndirect {
        destination: RegistersEnum::R0,
        pc_offset: 5,
    };
    instruction
        .execute(&mut registers, &mut memory, &mut input, &mut output)
        .unwrap();
    assert_eq!(value, registers.get(RegistersEnum::R0));
}

#[test]
fn test_branch() {
    let mut registers = Registers::default();
    let mut memory = Memory::default();
    let mut input = InputStream::empty();
    let mut output = OutputStream::new();

    let pc_offset = 10;

    registers.set(RegistersEnum::Condition, 0);
    let instruction = Instructions::Branch {
        pc_offset,
        condition_flag: 1,
    };
    instruction
        .execute(&mut registers, &mut memory, &mut input, &mut output)
        .unwrap();
    assert_eq!(PROGRAM_START, registers.get(RegistersEnum::ProgramCounter));

    registers.set(RegistersEnum::Condition, 1);
    let instruction = Instructions::Branch {
        pc_offset,
        condition_flag: 1,
    };
    instruction
        .execute(&mut registers, &mut memory, &mut input, &mut output)
        .unwrap();
    assert_eq!(
        PROGRAM_START + pc_offset,
        registers.get(RegistersEnum::ProgramCounter)
    );
}

#[test]
fn test_jump() {
    let mut registers = Registers::default();
    let mut memory = Memory::default();
    let mut input = InputStream::empty();
    let mut output = OutputStream::new();

    let pc_offset = 5;
    registers.set(RegistersEnum::R0, PROGRAM_START + pc_offset);

    let instruction = Instructions::Jump {
        source: RegistersEnum::R0,
    };
    instruction
        .execute(&mut registers, &mut memory, &mut input, &mut output)
        .unwrap();
    assert_eq!(
        PROGRAM_START + pc_offset,
        registers.get(RegistersEnum::ProgramCounter)
    );
}

#[test]
fn test_jump_register_long() {
    let mut registers = Registers::default();
    let mut memory = Memory::default();
    let mut input = InputStream::empty();
    let mut output = OutputStream::new();

    let pc_offset = 5;

    let instruction = Instructions::JumpRegister(JumpType::Long(pc_offset));
    instruction
        .execute(&mut registers, &mut memory, &mut input, &mut output)
        .unwrap();
    assert_eq!(
        PROGRAM_START + pc_offset,
        registers.get(RegistersEnum::ProgramCounter)
    );
    assert_eq!(PROGRAM_START, registers.get(RegistersEnum::R7));
}

#[test]
fn test_jump_register_register() {
    let mut registers = Registers::default();
    let mut memory = Memory::default();
    let mut input = InputStream::empty();
    let mut output = OutputStream::new();

    let pc_offset = 5;
    registers.set(RegistersEnum::R0, PROGRAM_START + pc_offset);

    let instruction = Instructions::JumpRegister(JumpType::Register(RegistersEnum::R0));
    instruction
        .execute(&mut registers, &mut memory, &mut input, &mut output)
        .unwrap();
    assert_eq!(
        PROGRAM_START + pc_offset,
        registers.get(RegistersEnum::ProgramCounter)
    );
    assert_eq!(PROGRAM_START, registers.get(RegistersEnum::R7));
}

#[test]
fn test_load() {
    let mut registers = Registers::default();
    let mut memory = Memory::default();
    let mut input = InputStream::empty();
    let mut output = OutputStream::new();

    let pc_offset = 5;
    let value = 10;
    memory.write(PROGRAM_START + pc_offset, value);

    let instruction = Instructions::Load {
        destination: RegistersEnum::R0,
        pc_offset,
    };
    instruction
        .execute(&mut registers, &mut memory, &mut input, &mut output)
        .unwrap();
    assert_eq!(value, registers.get(RegistersEnum::R0));
}

#[test]
fn test_load_register() {
    let mut registers = Registers::default();
    let mut memory = Memory::default();
    let mut input = InputStream::empty();
    let mut output = OutputStream::new();

    let offset = 5;
    let address = 25;
    let value = 10;
    memory.write(address + offset, value);
    registers.set(RegistersEnum::R1, address);

    let instruction = Instructions::LoadRegister {
        destination: RegistersEnum::R0,
        source1: RegistersEnum::R1,
        offset,
    };
    instruction
        .execute(&mut registers, &mut memory, &mut input, &mut output)
        .unwrap();
    assert_eq!(value, registers.get(RegistersEnum::R0));
}

#[test]
fn test_load_effective_address() {
    let mut registers = Registers::default();
    let mut memory = Memory::default();
    let mut input = InputStream::empty();
    let mut output = OutputStream::new();

    let pc_offset = 5;

    let instruction = Instructions::LoadEffectiveAddress {
        destination: RegistersEnum::R0,
        pc_offset,
    };
    instruction
        .execute(&mut registers, &mut memory, &mut input, &mut output)
        .unwrap();
    assert_eq!(PROGRAM_START + pc_offset, registers.get(RegistersEnum::R0));
}

#[test]
fn test_store() {
    let mut registers = Registers::default();
    let mut memory = Memory::default();
    let mut input = InputStream::empty();
    let mut output = OutputStream::new();

    let pc_offset = 5;
    let value = 15;

    registers.set(RegistersEnum::R0, value);
    let instruction = Instructions::Store {
        source: RegistersEnum::R0,
        pc_offset,
    };
    instruction
        .execute(&mut registers, &mut memory, &mut input, &mut output)
        .unwrap();
    assert_eq!(
        value,
        memory.read(PROGRAM_START + pc_offset, &mut input).unwrap()
    );
}

#[test]
fn test_store_indirect() {
    let mut registers = Registers::default();
    let mut memory = Memory::default();
    let mut input = InputStream::empty();
    let mut output = OutputStream::new();

    let pc_offset = 5;
    let value = 15;
    let address = 25;

    memory.write(PROGRAM_START + pc_offset, address);
    registers.set(RegistersEnum::R0, value);
    let instruction = Instructions::StoreIndirect {
        source: RegistersEnum::R0,
        pc_offset,
    };
    instruction
        .execute(&mut registers, &mut memory, &mut input, &mut output)
        .unwrap();
    assert_eq!(value, memory.read(address, &mut input).unwrap());
}

#[test]
fn test_store_register() {
    let mut registers = Registers::default();
    let mut memory = Memory::default();
    let mut input = InputStream::empty();
    let mut output = OutputStream::new();

    let offset = 5;
    let value = 15;
    let address = 25;

    registers.set(RegistersEnum::R0, value);
    registers.set(RegistersEnum::R1, address);
    let instruction = Instructions::StoreRegister {
        source1: RegistersEnum::R0,
        source2: RegistersEnum::R1,
        offset,
    };
    instruction
        .execute(&mut registers, &mut memory, &mut input, &mut output)
        .unwrap();
    assert_eq!(value, memory.read(address + offset, &mut input).unwrap());
}

#[test]
fn test_trap_getc() {
    let mut registers = Registers::default();
    let mut memory = Memory::default();
    let character = 'A' as u16;
    let mut input = InputStream::new(vec![character as u8]);
    let mut output = OutputStream::new();

    let instruction = Instructions::Trap(TrapRoutine::GETC);
    instruction
        .execute(&mut registers, &mut memory, &mut input, &mut output)
        .unwrap();
    assert_eq!(character, registers.get(RegistersEnum::R0));
}

#[test]
fn test_trap_out() {
    let mut registers = Registers::default();
    let mut memory = Memory::default();
    let mut input = InputStream::empty();
    let mut output = OutputStream::new();

    let character = 'A' as u16;
    registers.set(RegistersEnum::R0, character);

    let instruction = Instructions::Trap(TrapRoutine::OUT);
    instruction
        .execute(&mut registers, &mut memory, &mut input, &mut output)
        .unwrap();
    assert_eq!(character, output.as_bytes()[0] as u16);
}

#[test]
fn test_trap_puts() {
    let mut registers = Registers::default();
    let mut memory = Memory::default();
    let mut input = InputStream::empty();
    let mut output = OutputStream::new();

    let address = 20;
    let s = "Hello";
    registers.set(RegistersEnum::R0, address);
    s.char_indices().for_each(|(index, character)| {
        memory.write(address + index as u16, character as u16);
    });

    let instruction = Instructions::Trap(TrapRoutine::PUTS);
    instruction
        .execute(&mut registers, &mut memory, &mut input, &mut output)
        .unwrap();

    assert_eq!(
        String::from_utf8(output.as_bytes()[0..s.len()].to_vec()).unwrap(),
        s
    );
}

#[test]
fn test_trap_in() {
    let mut registers = Registers::default();
    let mut memory = Memory::default();
    let character = 'A' as u16;
    let mut input = InputStream::new(vec![character as u8]);
    let mut output = OutputStream::new();

    let instruction = Instructions::Trap(TrapRoutine::IN);
    instruction
        .execute(&mut registers, &mut memory, &mut input, &mut output)
        .unwrap();
    assert_eq!(character, registers.get(RegistersEnum::R0));
}

#[test]
fn test_trap_putsp() {
    let mut registers = Registers::default();
    let mut memory = Memory::default();
    let mut input = InputStream::empty();
    let mut output = OutputStream::new();

    let address = 20;
    let byte = 'V' as u16 | ('M' as u16) << 8;

    registers.set(RegistersEnum::R0, address);
    memory.write(address, byte);

    let instruction = Instructions::Trap(TrapRoutine::PUTSP);
    instruction
        .execute(&mut registers, &mut memory, &mut input, &mut output)
        .unwrap();

    assert_eq!(output.as_bytes()[0] as char, 'V');
    assert_eq!(output.as_bytes()[1] as char, 'M');
}
