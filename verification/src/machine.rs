//! The mathematical model of the machine.
//!
//! A [`Machine`] is the state of the interpreter as plain mathematical values:
//! sequences for the arrays, unbounded integers for the address registers.
//! Each instruction is a function from machine to machine; the executable
//! methods of [`crate::Chip8`] are proved to compute exactly these functions.

use crate::decode::{spec_kk, spec_nnn, spec_word, spec_x, spec_y};
use crate::error::ExecutionError;
use vstd::prelude::*;

verus! {

/// Number of bytes of memory.
pub const MEMORY_SIZE: usize = 4096;

/// Address at which a program image is loaded and execution starts.
pub const START_ADDRESS: u16 = 0x200;

/// Address of the first byte of the built-in glyph table.
pub const FONTSET_START_ADDRESS: u16 = 0x50;

/// Number of bytes in the glyph table: sixteen glyphs of five rows.
pub const FONTSET_SIZE: usize = 80;

/// The built-in glyphs for the hexadecimal digits `0` to `F`, five rows each,
/// the pixels of a row in the high four bits of its byte.
pub const FONTSET: [u8; 80] = [
    0xF0, 0x90, 0x90, 0x90, 0xF0,
    0x20, 0x60, 0x20, 0x20, 0x70,
    0xF0, 0x10, 0xF0, 0x80, 0xF0,
    0xF0, 0x10, 0xF0, 0x10, 0xF0,
    0x90, 0x90, 0xF0, 0x10, 0x10,
    0xF0, 0x80, 0xF0, 0x10, 0xF0,
    0xF0, 0x80, 0xF0, 0x90, 0xF0,
    0xF0, 0x10, 0x20, 0x40, 0x40,
    0xF0, 0x90, 0xF0, 0x90, 0xF0,
    0xF0, 0x90, 0xF0, 0x10, 0xF0,
    0xF0, 0x90, 0xF0, 0x90, 0x90,
    0xE0, 0x90, 0xE0, 0x90, 0xE0,
    0xF0, 0x80, 0x80, 0x80, 0xF0,
    0xE0, 0x90, 0x90, 0x90, 0xE0,
    0xF0, 0x80, 0xF0, 0x80, 0xF0,
    0xF0, 0x80, 0xF0, 0x80, 0x80,
];

/// Largest program image that fits above the load address.
pub const MAX_ROM_SIZE: usize = 4096 - 0x200;

/// Width of the framebuffer in pixels.
pub const VIDEO_WIDTH: usize = 64;

/// Height of the framebuffer in pixels.
pub const VIDEO_HEIGHT: usize = 32;

/// Number of cells in the framebuffer.
pub const VIDEO_SIZE: usize = 2048;

/// Number of return addresses the stack can hold.
pub const STACK_SIZE: usize = 16;

/// Whether the machine executes instructions or waits for a key.
#[derive(Clone, Copy, Debug, PartialEq, Eq, Structural)]
pub enum RunState {
    /// The next step fetches and executes an instruction.
    Running,
    /// An `Fx0A` instruction is suspended; the register that will receive the
    /// key is recorded.
    AwaitingKey(u8),
}

/// The state of the machine as mathematical values.
#[verifier::ext_equal]
pub struct Machine {
    /// The 4096 bytes of memory.
    pub memory: Seq<u8>,
    /// The registers `V0` to `VF`.
    pub registers: Seq<u8>,
    /// The index register `I`.
    pub index: int,
    /// The program counter.
    pub pc: int,
    /// The sixteen stack entries; those below `sp` are in use.
    pub stack: Seq<u16>,
    /// The number of return addresses on the stack.
    pub sp: int,
    /// The delay timer.
    pub delay_timer: u8,
    /// The sound timer.
    pub sound_timer: u8,
    /// The sixteen keys, `true` while pressed.
    pub keypad: Seq<bool>,
    /// The 64x32 framebuffer, row by row, `true` for a lit pixel.
    pub video: Seq<bool>,
    /// The instruction word fetched last.
    pub opcode: u16,
    /// Running, or waiting for a key.
    pub state: RunState,
    /// The keypad as the last step of a key wait saw it.
    pub latched: Seq<bool>,
}

impl Machine {
    /// The shape that every machine has: the sizes of its arrays, the ranges
    /// of its registers, at most sixteen return addresses, and a valid
    /// register in a key wait.
    pub open spec fn wf(self) -> bool {
        &&& self.memory.len() == MEMORY_SIZE
        &&& self.registers.len() == 16
        &&& self.stack.len() == STACK_SIZE
        &&& self.keypad.len() == 16
        &&& self.latched.len() == 16
        &&& self.video.len() == VIDEO_SIZE
        &&& 0 <= self.index <= u16::MAX
        &&& 0 <= self.pc <= u16::MAX
        &&& 0 <= self.sp <= STACK_SIZE
        &&& (self.state matches RunState::AwaitingKey(register) ==> register < 16)
    }

    /// The machine as it is built: the glyph table in memory, the program
    /// counter on the load address, everything else zero.
    pub open spec fn initial() -> Machine {
        Machine {
            memory: Seq::new(
                MEMORY_SIZE as nat,
                |address: int|
                    if FONTSET_START_ADDRESS <= address < FONTSET_START_ADDRESS + FONTSET_SIZE {
                        FONTSET[address - FONTSET_START_ADDRESS]
                    } else {
                        0u8
                    },
            ),
            registers: Seq::new(16, |register: int| 0u8),
            index: 0,
            pc: START_ADDRESS as int,
            stack: Seq::new(STACK_SIZE as nat, |entry: int| 0u16),
            sp: 0,
            delay_timer: 0,
            sound_timer: 0,
            keypad: Seq::new(16, |key: int| false),
            video: Seq::new(VIDEO_SIZE as nat, |cell: int| false),
            opcode: 0,
            state: RunState::Running,
            latched: Seq::new(16, |key: int| false),
        }
    }

    /// The program counter addresses memory.
    pub open spec fn pc_in_memory(self) -> bool {
        0 <= self.pc < MEMORY_SIZE
    }

    /// The value of `Vx`, the register named by bits 8-11 of the opcode.
    pub open spec fn vx(self) -> u8 {
        self.registers[spec_x(self.opcode) as int]
    }

    /// The value of `Vy`, the register named by bits 4-7 of the opcode.
    pub open spec fn vy(self) -> u8 {
        self.registers[spec_y(self.opcode) as int]
    }

    /// The machine with the program counter moved on by one instruction.
    /// A step does this once after every instruction that does not set the
    /// program counter itself.
    pub open spec fn advance(self) -> Machine {
        Machine { pc: self.pc + 2, ..self }
    }

    /// The machine after a skip instruction: the program counter moves past
    /// one instruction when the skip is taken and stays when it is not.
    pub open spec fn skip_if(self, taken: bool) -> Machine {
        Machine { pc: if taken { self.pc + 2 } else { self.pc }, ..self }
    }

    /// The machine with `value` in `Vx`.
    pub open spec fn set_vx(self, value: u8) -> Machine {
        Machine { registers: self.registers.update(spec_x(self.opcode) as int, value), ..self }
    }

    /// The machine after an instruction that reports a flag: `VF` receives
    /// the flag, then `Vx` receives the value. When `x` is `0xF` the value is
    /// what remains.
    pub open spec fn set_flag_and_vx(self, flag: u8, value: u8) -> Machine {
        Machine {
            registers: self.registers.update(0xF, flag).update(spec_x(self.opcode) as int, value),
            ..self
        }
    }

    /// The machine with the instruction word at the program counter in
    /// `opcode`, the byte at the lower address being the more significant.
    pub open spec fn fetch(self) -> Machine {
        Machine { opcode: spec_word(self.memory[self.pc], self.memory[self.pc + 1]), ..self }
    }

    /// The machine with every framebuffer cell off.
    pub open spec fn cls(self) -> Machine {
        Machine { video: Seq::new(VIDEO_SIZE as nat, |cell: int| false), ..self }
    }

    /// The machine after a call to `target`: the address of the instruction
    /// after the current one is pushed and control moves to `target`. With a
    /// full stack nothing changes.
    pub open spec fn call(self, target: u16) -> Machine {
        if self.sp >= STACK_SIZE {
            self
        } else {
            Machine {
                stack: self.stack.update(self.sp, (self.pc + 2) as u16),
                sp: self.sp + 1,
                pc: target as int,
                ..self
            }
        }
    }

    /// What a call reports: an overflow exactly when the stack is full.
    pub open spec fn call_result(self) -> Result<(), ExecutionError> {
        if self.sp >= STACK_SIZE {
            Err(ExecutionError::StackOverflow)
        } else {
            Ok(())
        }
    }

    /// What a return reports: an underflow exactly when the stack is empty.
    pub open spec fn ret_result(self) -> Result<(), ExecutionError> {
        if self.sp <= 0 {
            Err(ExecutionError::StackUnderflow)
        } else {
            Ok(())
        }
    }

    /// The machine after a return: the newest return address is popped into
    /// the program counter. With an empty stack nothing changes.
    pub open spec fn ret(self) -> Machine {
        if self.sp <= 0 {
            self
        } else {
            Machine { sp: self.sp - 1, pc: self.stack[self.sp - 1] as int, ..self }
        }
    }

    /// `00E0`, CLS.
    pub open spec fn op_00e0(self) -> Machine {
        self.cls()
    }

    /// `00EE`, RET.
    pub open spec fn op_00ee(self) -> Machine {
        self.ret()
    }

    /// `1nnn`, JP addr.
    pub open spec fn op_1nnn(self) -> Machine {
        Machine { pc: spec_nnn(self.opcode) as int, ..self }
    }

    /// `2nnn`, CALL addr.
    pub open spec fn op_2nnn(self) -> Machine {
        self.call(spec_nnn(self.opcode))
    }

    /// `3xkk`, SE Vx, byte.
    pub open spec fn op_3xkk(self) -> Machine {
        self.skip_if(self.vx() == spec_kk(self.opcode))
    }

    /// `4xkk`, SNE Vx, byte.
    pub open spec fn op_4xkk(self) -> Machine {
        self.skip_if(self.vx() != spec_kk(self.opcode))
    }

    /// `5xy_`, SE Vx, Vy.
    pub open spec fn op_5xy0(self) -> Machine {
        self.skip_if(self.vx() == self.vy())
    }

    /// `6xkk`, LD Vx, byte.
    pub open spec fn op_6xkk(self) -> Machine {
        self.set_vx(spec_kk(self.opcode))
    }

    /// `7xkk`, ADD Vx, byte: the sum modulo 256, no flag.
    pub open spec fn op_7xkk(self) -> Machine {
        self.set_vx(((self.vx() + spec_kk(self.opcode)) % 256) as u8)
    }

    /// `8xy0`, LD Vx, Vy.
    pub open spec fn op_8xy0(self) -> Machine {
        self.set_vx(self.vy())
    }

    /// `8xy1`, OR Vx, Vy.
    pub open spec fn op_8xy1(self) -> Machine {
        self.set_vx(self.vx() | self.vy())
    }

    /// `8xy2`, AND Vx, Vy.
    pub open spec fn op_8xy2(self) -> Machine {
        self.set_vx(self.vx() & self.vy())
    }

    /// `8xy3`, XOR Vx, Vy.
    pub open spec fn op_8xy3(self) -> Machine {
        self.set_vx(self.vx() ^ self.vy())
    }

    /// `8xy4`, ADD Vx, Vy: `VF` is 1 exactly when the sum exceeds 255, `Vx`
    /// receives the sum modulo 256.
    pub open spec fn op_8xy4(self) -> Machine {
        let sum: int = self.vx() + self.vy();
        self.set_flag_and_vx(if sum > 255 { 1 } else { 0 }, (sum % 256) as u8)
    }

    /// `8xy5`, SUB Vx, Vy: `VF` is 1 exactly when `Vx >= Vy`, `Vx` receives
    /// the difference modulo 256.
    pub open spec fn op_8xy5(self) -> Machine {
        let difference: int = self.vx() - self.vy();
        self.set_flag_and_vx(
            if self.vx() >= self.vy() { 1 } else { 0 },
            (difference % 256) as u8,
        )
    }

    /// `8xy6`, SHR Vx: `VF` is the lowest bit of `Vx`, `Vx` is halved.
    pub open spec fn op_8xy6(self) -> Machine {
        self.set_flag_and_vx(self.vx() % 2, self.vx() / 2)
    }

    /// `8xy7`, SUBN Vx, Vy: `VF` is 1 exactly when `Vy >= Vx`, `Vx` receives
    /// `Vy - Vx` modulo 256.
    pub open spec fn op_8xy7(self) -> Machine {
        let difference: int = self.vy() - self.vx();
        self.set_flag_and_vx(
            if self.vy() >= self.vx() { 1 } else { 0 },
            (difference % 256) as u8,
        )
    }

    /// `8xyE`, SHL Vx: `VF` is the highest bit of `Vx`, `Vx` is doubled
    /// modulo 256.
    pub open spec fn op_8xye(self) -> Machine {
        self.set_flag_and_vx(self.vx() / 128, ((self.vx() * 2) % 256) as u8)
    }

    /// `9xy_`, SNE Vx, Vy.
    pub open spec fn op_9xy0(self) -> Machine {
        self.skip_if(self.vx() != self.vy())
    }

    /// `Annn`, LD I, addr.
    pub open spec fn op_annn(self) -> Machine {
        Machine { index: spec_nnn(self.opcode) as int, ..self }
    }

    /// `Bnnn`, JP V0, addr.
    pub open spec fn op_bnnn(self) -> Machine {
        Machine { pc: self.registers[0] + spec_nnn(self.opcode), ..self }
    }

    /// `Cxkk`, RND Vx, byte, for the random byte that was drawn.
    pub open spec fn op_cxkk(self, random: u8) -> Machine {
        self.set_vx(random & spec_kk(self.opcode))
    }

    /// `Ex9E`, SKP Vx.
    pub open spec fn op_ex9e(self) -> Machine {
        self.skip_if(self.keypad[self.vx() as int])
    }

    /// `ExA1`, SKNP Vx.
    pub open spec fn op_exa1(self) -> Machine {
        self.skip_if(!self.keypad[self.vx() as int])
    }

    /// `Fx07`, LD Vx, DT.
    pub open spec fn op_fx07(self) -> Machine {
        self.set_vx(self.delay_timer)
    }

    /// `Fx0A`, LD Vx, K: the machine starts to wait. The program counter
    /// stays on the instruction and the keypad is latched, so that only a key
    /// pressed from now on ends the wait.
    pub open spec fn op_fx0a(self) -> Machine {
        Machine {
            state: RunState::AwaitingKey(spec_x(self.opcode) as u8),
            latched: self.keypad,
            ..self
        }
    }

    /// `Fx15`, LD DT, Vx.
    pub open spec fn op_fx15(self) -> Machine {
        Machine { delay_timer: self.vx(), ..self }
    }

    /// `Fx18`, LD ST, Vx.
    pub open spec fn op_fx18(self) -> Machine {
        Machine { sound_timer: self.vx(), ..self }
    }

    /// `Fx1E`, ADD I, Vx: the sum modulo 65536.
    pub open spec fn op_fx1e(self) -> Machine {
        Machine { index: (self.index + self.vx()) % 0x10000, ..self }
    }

    /// `Fx29`, LD F, Vx: `I` receives the glyph table's address plus five
    /// times `Vx`. For `Vx` below 16 that is the glyph of the digit `Vx`.
    pub open spec fn op_fx29(self) -> Machine {
        Machine { index: FONTSET_START_ADDRESS + self.vx() * 5, ..self }
    }

    /// `Fx33`, LD B, Vx: the hundreds, tens and ones of `Vx` are stored at
    /// `I`, `I + 1` and `I + 2`. `I` is unchanged.
    pub open spec fn op_fx33(self) -> Machine {
        Machine {
            memory: self.memory.update(self.index, self.vx() / 100).update(
                self.index + 1,
                (self.vx() / 10) % 10,
            ).update(self.index + 2, self.vx() % 10),
            ..self
        }
    }

    /// `Fx55`, LD [I], Vx: `V0..=Vx` are stored at `I..=I + x`. `I` is
    /// unchanged.
    pub open spec fn op_fx55(self) -> Machine {
        Machine {
            memory: Seq::new(
                self.memory.len(),
                |address: int|
                    if self.index <= address <= self.index + spec_x(self.opcode) {
                        self.registers[address - self.index]
                    } else {
                        self.memory[address]
                    },
            ),
            ..self
        }
    }

    /// `Fx65`, LD Vx, [I]: `V0..=Vx` are loaded from `I..=I + x`. `I` is
    /// unchanged.
    pub open spec fn op_fx65(self) -> Machine {
        Machine {
            registers: Seq::new(
                self.registers.len(),
                |register: int|
                    if register <= spec_x(self.opcode) {
                        self.memory[self.index + register]
                    } else {
                        self.registers[register]
                    },
            ),
            ..self
        }
    }

    /// The machine with a program image in memory from address `0x200` on.
    pub open spec fn load(self, rom: Seq<u8>) -> Machine {
        Machine {
            memory: Seq::new(
                self.memory.len(),
                |address: int|
                    if START_ADDRESS <= address < START_ADDRESS + rom.len() {
                        rom[address - START_ADDRESS]
                    } else {
                        self.memory[address]
                    },
            ),
            ..self
        }
    }

    /// The machine after one tick of the 60 Hz clock: each timer that is not
    /// zero goes down by one.
    pub open spec fn tick_timers(self) -> Machine {
        Machine {
            delay_timer: if self.delay_timer > 0 { (self.delay_timer - 1) as u8 } else { 0 },
            sound_timer: if self.sound_timer > 0 { (self.sound_timer - 1) as u8 } else { 0 },
            ..self
        }
    }

    /// The machine with key `key` pressed or released.
    pub open spec fn set_key(self, key: int, pressed: bool) -> Machine {
        Machine { keypad: self.keypad.update(key, pressed), ..self }
    }
}

} // verus!
