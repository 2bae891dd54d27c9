use chip8::machine::RunState;
use chip8::{Chip8, ExecutionError};

fn machine_with(program: &[u8]) -> Chip8 {
    let mut chip = Chip8::new();
    chip.load_rom(program).expect("program fits");
    chip
}

#[test]
fn cls_step_blanks_the_framebuffer() {
    let mut chip = machine_with(&[0x00, 0xE0]);
    chip.video[0] = true;
    chip.video[777] = true;
    chip.video[2047] = true;
    assert!(chip.can_step());
    assert_eq!(chip.emulate_cycle(), Ok(()));
    assert_eq!(chip.framebuffer().len(), 2048);
    assert!(chip.framebuffer().iter().all(|cell| !*cell));
    assert_eq!(chip.pc, 0x202);
    assert_eq!(chip.opcode, 0x00E0);
}

#[test]
fn ld_va_byte_step() {
    let mut chip = machine_with(&[0x6A, 0x3C]);
    assert!(chip.can_step());
    assert_eq!(chip.emulate_cycle(), Ok(()));
    assert_eq!(chip.registers[0xA], 0x3C);
    assert_eq!(chip.pc, 0x202);
    for register in 0..16 {
        if register != 0xA {
            assert_eq!(chip.registers[register], 0);
        }
    }
}

#[test]
fn call_then_ret_comes_back() {
    let mut chip = machine_with(&[0x23, 0x00]);
    chip.memory[0x300] = 0x00;
    chip.memory[0x301] = 0xEE;
    assert!(chip.can_step());
    assert_eq!(chip.emulate_cycle(), Ok(()));
    assert_eq!(chip.pc, 0x300);
    assert_eq!(chip.sp, 1);
    assert_eq!(chip.stack[0], 0x202);
    assert!(chip.can_step());
    assert_eq!(chip.emulate_cycle(), Ok(()));
    assert_eq!(chip.pc, 0x202);
    assert_eq!(chip.sp, 0);
}

#[test]
fn add_v0_v1_with_carry() {
    let mut chip = machine_with(&[0x80, 0x14]);
    chip.registers[0] = 0xFF;
    chip.registers[1] = 0x01;
    assert!(chip.can_step());
    assert_eq!(chip.emulate_cycle(), Ok(()));
    assert_eq!(chip.registers[0], 0x00);
    assert_eq!(chip.registers[0xF], 1);
    assert_eq!(chip.registers[1], 0x01);
    assert_eq!(chip.pc, 0x202);
}

#[test]
fn draw_five_rows_of_four_pixels() {
    let mut chip = machine_with(&[0xD0, 0x15]);
    chip.index = 0x400;
    for row in 0..5 {
        chip.memory[0x400 + row] = 0xF0;
    }
    chip.registers[0] = 0;
    chip.registers[1] = 0;
    chip.registers[0xF] = 7;
    assert!(chip.can_step());
    assert_eq!(chip.emulate_cycle(), Ok(()));
    for row in 0..32 {
        for column in 0..64 {
            let lit = row < 5 && column < 4;
            assert_eq!(chip.video[row * 64 + column], lit, "row {} column {}", row, column);
        }
    }
    assert_eq!(chip.registers[0xF], 0);
    assert_eq!(chip.pc, 0x202);
    assert_eq!(chip.index, 0x400);
}

#[test]
fn a_fresh_machine_is_zeroed_with_glyphs() {
    let chip = Chip8::new();
    assert_eq!(chip.pc, 0x200);
    assert_eq!(chip.index, 0);
    assert_eq!(chip.sp, 0);
    assert_eq!(chip.opcode, 0);
    assert_eq!(chip.delay_timer, 0);
    assert_eq!(chip.sound_timer, 0);
    assert_eq!(chip.state, RunState::Running);
    assert!(chip.registers.iter().all(|value| *value == 0));
    assert!(chip.stack.iter().all(|value| *value == 0));
    assert!(chip.keypad.iter().all(|key| !*key));
    assert!(chip.video.iter().all(|cell| !*cell));
    for address in 0..4096 {
        if (0x50..0xA0).contains(&address) {
            assert_eq!(chip.memory[address], chip8::machine::FONTSET[address - 0x50]);
        } else {
            assert_eq!(chip.memory[address], 0);
        }
    }
    assert_eq!(&chip.memory[0x50..0x55], &[0xF0, 0x90, 0x90, 0x90, 0xF0]);
    assert_eq!(&chip.memory[0x9B..0xA0], &[0xF0, 0x80, 0xF0, 0x80, 0x80]);
    assert!(!chip.sound_timer_active());
    assert!(chip.can_step());
}

#[test]
fn load_rom_accepts_exactly_the_free_memory() {
    let mut chip = Chip8::new();
    let rom: Vec<u8> = (0..(4096 - 0x200)).map(|i| (i % 251) as u8 + 1).collect();
    assert_eq!(rom.len(), 3584);
    assert_eq!(chip.load_rom(&rom), Ok(()));
    assert_eq!(&chip.memory[0x200..], &rom[..]);
    assert_eq!(chip.memory[0x200], 1);
    assert_eq!(chip.memory[0xFFF], ((3583 % 251) + 1) as u8);
    assert_eq!(chip.memory[0x1FF], 0);
    assert_eq!(&chip.memory[0x50..0x55], &[0xF0, 0x90, 0x90, 0x90, 0xF0]);
    assert_eq!(chip.pc, 0x200);
}

#[test]
fn load_rom_refuses_one_byte_more() {
    let mut chip = Chip8::new();
    chip.load_rom(&[0xAA, 0xBB]).expect("two bytes fit");
    let before = chip.memory;
    let rom = vec![0x55u8; 4096 - 0x200 + 1];
    assert_eq!(chip.load_rom(&rom), Err(chip8::RomTooLarge));
    assert_eq!(chip.memory, before);
    assert_eq!(chip.memory[0x200], 0xAA);
    assert_eq!(chip.memory[0x202], 0);
}

#[test]
fn load_rom_writes_only_the_image() {
    let mut chip = Chip8::new();
    chip.memory[0x203] = 0x77;
    assert_eq!(chip.load_rom(&[1, 2, 3]), Ok(()));
    assert_eq!(&chip.memory[0x200..0x204], &[1, 2, 3, 0x77]);
    assert_eq!(chip.load_rom(&[]), Ok(()));
    assert_eq!(&chip.memory[0x200..0x204], &[1, 2, 3, 0x77]);
}

#[test]
fn sixteen_calls_fill_the_stack_and_the_next_overflows() {
    let mut chip = Chip8::new();
    // Every word from 0x200 on is CALL to the next word.
    for i in 0..20usize {
        let target = 0x200 + 2 * (i + 1);
        chip.memory[0x200 + 2 * i] = 0x20 | (target >> 8) as u8;
        chip.memory[0x200 + 2 * i + 1] = (target & 0xFF) as u8;
    }
    for depth in 0..16u16 {
        assert!(chip.can_step());
        assert_eq!(chip.emulate_cycle(), Ok(()));
        assert_eq!(chip.sp as u16, depth + 1);
        assert_eq!(chip.stack[depth as usize], 0x202 + 2 * depth);
    }
    let pc = chip.pc;
    let stack = chip.stack;
    assert!(chip.can_step());
    assert_eq!(chip.emulate_cycle(), Err(ExecutionError::StackOverflow));
    assert_eq!(chip.sp, 16);
    assert_eq!(chip.pc, pc);
    assert_eq!(chip.stack, stack);
}

#[test]
fn ret_on_an_empty_stack_underflows() {
    let mut chip = machine_with(&[0x00, 0xEE]);
    chip.stack[0] = 0x345;
    assert!(chip.can_step());
    assert_eq!(chip.emulate_cycle(), Err(ExecutionError::StackUnderflow));
    assert_eq!(chip.pc, 0x200);
    assert_eq!(chip.sp, 0);
}

#[test]
fn words_outside_the_instruction_set_are_invalid() {
    for word in [0x0000u16, 0x00E1, 0x0123, 0x8008, 0x800F, 0x8129, 0xE000, 0xE19F, 0xF000, 0xF0FF, 0xF156] {
        let mut chip = machine_with(&[(word >> 8) as u8, (word & 0xFF) as u8]);
        chip.registers[1] = 3;
        let registers = chip.registers;
        assert!(chip.can_step());
        assert_eq!(chip.emulate_cycle(), Err(ExecutionError::InvalidOpcode), "word {:#06X}", word);
        assert_eq!(chip.pc, 0x200);
        assert_eq!(chip.opcode, word);
        assert_eq!(chip.registers, registers);
        assert_eq!(chip8::decode::decode(word), None);
    }
}

#[test]
fn the_second_selection_of_family_zero_is_on_the_low_byte() {
    let mut chip = machine_with(&[0x01, 0xE0]);
    chip.video[5] = true;
    assert_eq!(chip.emulate_cycle(), Ok(()));
    assert!(!chip.video[5]);
    assert_eq!(chip.pc, 0x202);
}

#[test]
fn error_messages() {
    assert_eq!(ExecutionError::StackOverflow.message(), "call with a full stack");
    assert_eq!(ExecutionError::StackUnderflow.message(), "return with an empty stack");
    assert_eq!(ExecutionError::InvalidOpcode.message(), "invalid opcode");
    assert_eq!(chip8::RomTooLarge.message(), "program image exceeds available memory");
}

#[test]
fn checked_cycle_steps_only_inside_the_machine() {
    let mut chip = machine_with(&[0x61, 0x07, 0xBF, 0xFF]);
    chip.registers[0] = 1;
    assert_eq!(chip.checked_cycle(), Some(Ok(())));
    assert_eq!(chip.registers[1], 7);
    assert_eq!(chip.checked_cycle(), Some(Ok(())));
    assert_eq!(chip.pc, 0x1000);
    let memory = chip.memory;
    let registers = chip.registers;
    assert_eq!(chip.checked_cycle(), None);
    assert_eq!(chip.pc, 0x1000);
    assert_eq!(chip.opcode, 0xBFFF);
    assert_eq!(chip.memory, memory);
    assert_eq!(chip.registers, registers);

    let mut chip = machine_with(&[0x00, 0xEE, 0xFF, 0xFF]);
    assert_eq!(chip.checked_cycle(), Some(Err(ExecutionError::StackUnderflow)));
    chip.pc = 0x202;
    assert_eq!(chip.checked_cycle(), Some(Err(ExecutionError::InvalidOpcode)));
    assert_eq!(chip.pc, 0x202);
}

#[test]
fn fetch_reads_the_high_byte_first() {
    let mut chip = machine_with(&[0x12, 0x34, 0xAB, 0xCD]);
    chip.fetch();
    assert_eq!(chip.opcode, 0x1234);
    assert_eq!(chip.pc, 0x200);
    chip.pc = 0x202;
    chip.fetch();
    assert_eq!(chip.opcode, 0xABCD);
    chip.pc = 0x201;
    chip.fetch();
    assert_eq!(chip.opcode, 0x34AB);
}

#[test]
fn cls_leaves_the_program_counter() {
    let mut chip = Chip8::new();
    chip.video = [true; 2048];
    chip.cls();
    assert!(chip.video.iter().all(|cell| !*cell));
    assert_eq!(chip.pc, 0x200);
    chip.video[1] = true;
    chip.op_00e0();
    assert!(chip.video.iter().all(|cell| !*cell));
    assert_eq!(chip.pc, 0x200);
}

#[test]
fn execute_runs_the_word_in_opcode() {
    let mut chip = Chip8::new();
    chip.opcode = 0x6C11;
    assert_eq!(chip.execute(0), Ok(()));
    assert_eq!(chip.registers[0xC], 0x11);
    assert_eq!(chip.pc, 0x202);
    chip.opcode = 0xCC0F;
    assert_eq!(chip.execute(0xF3), Ok(()));
    assert_eq!(chip.registers[0xC], 0x03);
    chip.opcode = 0xFFFF;
    assert_eq!(chip.execute(0), Err(ExecutionError::InvalidOpcode));
    assert_eq!(chip.pc, 0x204);
}
