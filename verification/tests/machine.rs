use lc3::instructions::InstructionsTrait;
use lc3::memory::MemoryTrait;
use lc3::registers::RegistersTrait;
use lc3::error::Error;
use lc3::instructions::Control;
use lc3::instructions::Instructions;
use lc3::instructions::JumpType;
use lc3::instructions::RegisterMode;
use lc3::instructions::TrapRoutine;
use lc3::instructions::sign_extend;
use lc3::machine::LittleComputer3;
use lc3::machine::RunState;
use lc3::memory::Memory;
use lc3::memory::MemoryMappedReg;
use lc3::registers::Registers;
use lc3::registers::RegistersEnum;
use lc3::streams::InputStream;
use lc3::streams::OutputStream;

#[test]
fn test_sign_extend_values() {
    assert_eq!(0xFFFF, sign_extend(0x1F, 5));
    assert_eq!(0x000F, sign_extend(0x0F, 5));
    assert_eq!(0xFFFE, sign_extend(0x1FE, 9));
    assert_eq!(0x00FF, sign_extend(0x0FF, 9));
    assert_eq!(0xFFFB, sign_extend(0x7FB, 11));
}

#[test]
fn test_decode_add_immediate() {
    // 0x1261: ADD R1, R1, #1
    let instruction = Instructions::read(0x1261).unwrap();
    assert!(matches!(
        instruction,
        Instructions::Add {
            destination: RegistersEnum::R1,
            source1: RegistersEnum::R1,
            source2: RegisterMode::Immediate(1),
        }
    ));
}

#[test]
fn test_decode_add_register() {
    // 0x1042: ADD R0, R1, R2
    let instruction = Instructions::read(0x1042).unwrap();
    assert!(matches!(
        instruction,
        Instructions::Add {
            destination: RegistersEnum::R0,
            source1: RegistersEnum::R1,
            source2: RegisterMode::Register(RegistersEnum::R2),
        }
    ));
}

#[test]
fn test_decode_branch_negative_offset() {
    // 0x0FFF: BRnzp with offset -1
    let instruction = Instructions::read(0x0FFF).unwrap();
    assert!(matches!(
        instruction,
        Instructions::Branch {
            pc_offset: 0xFFFF,
            condition_flag: 7,
        }
    ));
}

#[test]
fn test_decode_jump_register_forms() {
    // 0x4805: JSR with offset 5; 0x40C0: JSRR R3
    assert!(matches!(
        Instructions::read(0x4805).unwrap(),
        Instructions::JumpRegister(JumpType::Long(5))
    ));
    assert!(matches!(
        Instructions::read(0x40C0).unwrap(),
        Instructions::JumpRegister(JumpType::Register(RegistersEnum::R3))
    ));
}

#[test]
fn test_decode_placeholders() {
    assert!(matches!(Instructions::read(0x8000).unwrap(), Instructions::RTI));
    assert!(matches!(Instructions::read(0xD000).unwrap(), Instructions::RES));
}

#[test]
fn test_decode_traps() {
    assert!(matches!(
        Instructions::read(0xF020).unwrap(),
        Instructions::Trap(TrapRoutine::GETC)
    ));
    assert!(matches!(
        Instructions::read(0xF025).unwrap(),
        Instructions::Trap(TrapRoutine::HALT)
    ));
    assert!(matches!(
        Instructions::read(0xF026),
        Err(Error::UnknownTrapRoutine(0x26))
    ));
}

#[test]
fn test_add_wraps_to_zero_flag() {
    let mut registers = Registers::default();
    let mut memory = Memory::default();
    let mut input = InputStream::empty();
    let mut output = OutputStream::new();

    registers.set(RegistersEnum::R1, 0xFFFF);
    let instruction = Instructions::Add {
        destination: RegistersEnum::R1,
        source1: RegistersEnum::R1,
        source2: RegisterMode::Immediate(1),
    };
    instruction
        .execute(&mut registers, &mut memory, &mut input, &mut output)
        .unwrap();
    assert_eq!(0x0000, registers.get(RegistersEnum::R1));
    assert_eq!(2, registers.get(RegistersEnum::Condition));
}

#[test]
fn test_branch_positive_flag_moves_pc() {
    let mut registers = Registers::default();
    let mut memory = Memory::default();
    let mut input = InputStream::empty();
    let mut output = OutputStream::new();

    registers.set(RegistersEnum::Condition, 1);
    let instruction = Instructions::Branch {
        pc_offset: 10,
        condition_flag: 1,
    };
    instruction
        .execute(&mut registers, &mut memory, &mut input, &mut output)
        .unwrap();
    assert_eq!(0x300A, registers.get(RegistersEnum::ProgramCounter));
}

#[test]
fn test_trap_getc_empty_input_fails() {
    let mut registers = Registers::default();
    let mut memory = Memory::default();
    let mut input = InputStream::empty();
    let mut output = OutputStream::new();

    let instruction = Instructions::Trap(TrapRoutine::GETC);
    let result = instruction.execute(&mut registers, &mut memory, &mut input, &mut output);
    assert!(matches!(result, Err(Error::IoError)));
}

#[test]
fn test_trap_out_writes_low_byte() {
    let mut registers = Registers::default();
    let mut memory = Memory::default();
    let mut input = InputStream::empty();
    let mut output = OutputStream::new();

    registers.set(RegistersEnum::R0, 0x0241);
    let instruction = Instructions::Trap(TrapRoutine::OUT);
    instruction
        .execute(&mut registers, &mut memory, &mut input, &mut output)
        .unwrap();
    assert_eq!(&vec![0x41u8], output.as_bytes());
}

#[test]
fn test_trap_putsp_high_byte_zero() {
    let mut registers = Registers::default();
    let mut memory = Memory::default();
    let mut input = InputStream::empty();
    let mut output = OutputStream::new();

    registers.set(RegistersEnum::R0, 20);
    memory.write(20, 'V' as u16);
    let instruction = Instructions::Trap(TrapRoutine::PUTSP);
    instruction
        .execute(&mut registers, &mut memory, &mut input, &mut output)
        .unwrap();
    assert_eq!(&vec!['V' as u8, 0u8], output.as_bytes());
}

#[test]
fn test_keyboard_poll_ready() {
    let mut memory = Memory::default();
    let mut input = InputStream::new(vec![b'A']);

    let status = memory
        .read(MemoryMappedReg::Kbsr.address(), &mut input)
        .unwrap();
    assert_eq!(0x8000, status);
    let data = memory
        .read(MemoryMappedReg::Kbdr.address(), &mut input)
        .unwrap();
    assert_eq!(b'A' as u16, data);
    assert_eq!(0, input.len());
}

#[test]
fn test_keyboard_poll_no_data() {
    let mut memory = Memory::default();
    let mut input = InputStream::new(vec![0]);

    memory.write(MemoryMappedReg::Kbsr.address(), 0x8000);
    let status = memory
        .read(MemoryMappedReg::Kbsr.address(), &mut input)
        .unwrap();
    assert_eq!(0, status);
}

#[test]
fn test_keyboard_poll_ended_input_fails() {
    let mut memory = Memory::default();
    let mut input = InputStream::empty();

    let result = memory.handle_keyboard(&mut input);
    assert!(matches!(result, Err(Error::IoError)));
    let result = memory.read(MemoryMappedReg::Kbsr.address(), &mut input);
    assert!(matches!(result, Err(Error::IoError)));
}

#[test]
fn test_memory_plain_read_write() {
    let mut memory = Memory::default();
    let mut input = InputStream::empty();

    assert_eq!(0xFFFF, memory.max());
    memory.write(0x1234, 42);
    assert_eq!(42, memory.read(0x1234, &mut input).unwrap());
    memory.write(0xFFFF, 7);
    assert_eq!(7, memory.read(0xFFFF, &mut input).unwrap());
}

#[test]
fn test_load_program_stores_words() {
    let mut machine = LittleComputer3::default();
    machine.load_program(&[0x30, 0x00, 0x10, 0x01]).unwrap();
    assert_eq!(0x1001, machine.memory_word(0x3000));
}

#[test]
fn test_load_program_odd_trailing_byte_fails() {
    let mut machine = LittleComputer3::default();
    let result = machine.load_program(&[0x30, 0x00, 0x10]);
    assert!(matches!(result, Err(Error::IoError)));
    let result = machine.load_program(&[0x30]);
    assert!(matches!(result, Err(Error::IoError)));
}

#[test]
fn test_load_program_consecutive_addresses() {
    let mut machine = LittleComputer3::default();
    machine
        .load_program(&[0x30, 0x00, 0x10, 0x01, 0x20, 0x02, 0x30, 0x03])
        .unwrap();
    assert_eq!(0x1001, machine.memory_word(0x3000));
    assert_eq!(0x2002, machine.memory_word(0x3001));
    assert_eq!(0x3003, machine.memory_word(0x3002));
}

#[test]
fn test_load_program_wraps_at_address_space_top() {
    let mut machine = LittleComputer3::default();
    machine
        .load_program(&[0xFF, 0xFF, 0xAA, 0xBB, 0xCC, 0xDD])
        .unwrap();
    assert_eq!(0xAABB, machine.memory_word(0xFFFF));
    assert_eq!(0xCCDD, machine.memory_word(0x0000));
}

#[test]
fn test_halt_program_halts_without_further_fetches() {
    let mut machine = LittleComputer3::default();
    // HALT at the origin, then an OUT that must never run.
    machine
        .load_program(&[0x30, 0x00, 0xF0, 0x25, 0xF0, 0x21])
        .unwrap();
    let mut input = InputStream::empty();
    let mut output = OutputStream::new();

    let state = machine.execute_program(&mut input, &mut output, 1000).unwrap();
    assert!(matches!(state, RunState::Halted));
    assert!(output.as_bytes().is_empty());
    assert_eq!(0x3001, machine.registers().get(RegistersEnum::ProgramCounter));
}

#[test]
fn test_run_reports_running_when_budget_ends() {
    let mut machine = LittleComputer3::default();
    // ADD R1, R1, #1 then BRp #-2: loops forever.
    machine
        .load_program(&[0x30, 0x00, 0x12, 0x61, 0x03, 0xFE])
        .unwrap();
    let mut input = InputStream::empty();
    let mut output = OutputStream::new();

    let state = machine.execute_program(&mut input, &mut output, 100).unwrap();
    assert!(matches!(state, RunState::Running));
}

#[test]
fn test_run_rejects_placeholder_opcodes() {
    let mut machine = LittleComputer3::default();
    machine.load_program(&[0x30, 0x00, 0xD0, 0x00]).unwrap();
    let mut input = InputStream::empty();
    let mut output = OutputStream::new();

    let result = machine.execute_program(&mut input, &mut output, 10);
    assert!(matches!(result, Err(Error::UnknownInstruction(0xD000))));
}

#[test]
fn test_run_surfaces_decode_error() {
    let mut machine = LittleComputer3::default();
    machine.load_program(&[0x30, 0x00, 0xF0, 0xFF]).unwrap();
    let mut input = InputStream::empty();
    let mut output = OutputStream::new();

    let result = machine.execute_program(&mut input, &mut output, 10);
    assert!(matches!(result, Err(Error::UnknownTrapRoutine(0xFF))));
}

#[test]
fn test_run_counting_program() {
    let mut machine = LittleComputer3::default();
    // ADD R1, R1, #1 three times, then HALT.
    machine
        .load_program(&[0x30, 0x00, 0x12, 0x61, 0x12, 0x61, 0x12, 0x61, 0xF0, 0x25])
        .unwrap();
    let mut input = InputStream::empty();
    let mut output = OutputStream::new();

    let state = machine.execute_program(&mut input, &mut output, 1000).unwrap();
    assert!(matches!(state, RunState::Halted));
    assert_eq!(3, machine.registers().get(RegistersEnum::R1));
    assert_eq!(1, machine.registers().get(RegistersEnum::Condition));
}

#[test]
fn test_run_hello_program() {
    let mut machine = LittleComputer3::default();
    // LEA R0 at the string two words ahead, PUTS, HALT, then "Hi" and
    // the zero terminator.
    machine
        .load_program(&[
            0x30, 0x00, // origin
            0xE0, 0x02, // LEA R0, #2 -> 0x3003
            0xF0, 0x22, // PUTS
            0xF0, 0x25, // HALT
            0x00, 0x48, // 'H'
            0x00, 0x69, // 'i'
            0x00, 0x00, // terminator
        ])
        .unwrap();
    let mut input = InputStream::empty();
    let mut output = OutputStream::new();

    let state = machine.execute_program(&mut input, &mut output, 1000).unwrap();
    assert!(matches!(state, RunState::Halted));
    assert_eq!(b"Hi".to_vec(), output.take_bytes());
}

#[test]
fn test_execute_control_signals() {
    let mut registers = Registers::default();
    let mut memory = Memory::default();
    let mut input = InputStream::empty();
    let mut output = OutputStream::new();

    let halt = Instructions::Trap(TrapRoutine::HALT)
        .execute(&mut registers, &mut memory, &mut input, &mut output)
        .unwrap();
    assert!(matches!(halt, Control::Halt));

    let cont = Instructions::Jump { source: RegistersEnum::R0 }
        .execute(&mut registers, &mut memory, &mut input, &mut output)
        .unwrap();
    assert!(matches!(cont, Control::Continue));
}

#[test]
fn test_error_descriptions() {
    assert_eq!("not a known register", Error::UnknownRegister(12).describe());
    assert_eq!("not a known trap routine", Error::UnknownTrapRoutine(0x26).describe());
    assert_eq!("not a known instruction", Error::UnknownInstruction(0xD000).describe());
    assert_eq!("input or output failed", Error::IoError.describe());
}
