//! The instructions, one method each.
//!
//! Every method does the work of the instruction word in `opcode`. A jump,
//! a call and a return set the program counter; a skip that is taken moves it
//! past one instruction. No other method touches it: moving on to the next
//! instruction is left to [`Chip8::execute`], which does it once for all of
//! them.

use crate::chip8::Chip8;
use crate::decode;
use crate::error::ExecutionError;
use crate::machine::{RunState, FONTSET_START_ADDRESS, STACK_SIZE};
use vstd::prelude::*;

verus! {

impl Chip8 {
    /// Reads the instruction word at the program counter into `opcode`, the
    /// byte at the lower address first.
    pub fn fetch(&mut self)
        requires
            old(self).pc + 1 < 4096,
        ensures
            final(self)@ == old(self)@.fetch(),
            final(self).generator == old(self).generator,
    {
        let at: usize = self.pc as usize;
        self.opcode = decode::word(self.memory[at], self.memory[at + 1]);
    }

    /// Turns every framebuffer cell off.
    pub fn cls(&mut self)
        ensures
            final(self)@ == old(self)@.cls(),
            final(self).generator == old(self).generator,
    {
        self.video = [false; 2048];
    }

    /// Calls the subroutine at `target`: pushes the address of the instruction
    /// after the current one and jumps. With sixteen return addresses on the
    /// stack the call fails and nothing changes.
    pub fn call(&mut self, target: u16) -> (res: Result<(), ExecutionError>)
        requires
            old(self)@.pc_in_memory(),
        ensures
            res == old(self)@.call_result(),
            final(self)@ == old(self)@.call(target),
            final(self).generator == old(self).generator,
    {
        if self.sp as usize >= STACK_SIZE {
            return Err(ExecutionError::StackOverflow);
        }
        self.stack[self.sp as usize] = self.pc + 2;
        self.sp += 1;
        self.pc = target;
        Ok(())
    }

    /// Returns from a subroutine: pops the newest return address into the
    /// program counter. With an empty stack the return fails and nothing
    /// changes.
    pub fn ret(&mut self) -> (res: Result<(), ExecutionError>)
        requires
            old(self).sp <= STACK_SIZE,
        ensures
            res == old(self)@.ret_result(),
            final(self)@ == old(self)@.ret(),
            final(self).generator == old(self).generator,
    {
        if self.sp == 0 {
            return Err(ExecutionError::StackUnderflow);
        }
        self.sp -= 1;
        self.pc = self.stack[self.sp as usize];
        Ok(())
    }

    /// `00E0`, CLS: clears the framebuffer.
    pub fn op_00e0(&mut self)
        ensures
            final(self)@ == old(self)@.op_00e0(),
            final(self).generator == old(self).generator,
    {
        self.cls();
    }

    /// `00EE`, RET: returns from a subroutine.
    pub fn op_00ee(&mut self) -> (res: Result<(), ExecutionError>)
        requires
            old(self).sp <= STACK_SIZE,
        ensures
            res == old(self)@.ret_result(),
            final(self)@ == old(self)@.op_00ee(),
            final(self).generator == old(self).generator,
    {
        self.ret()
    }

    /// `1nnn`, JP addr: jumps to `nnn`.
    pub fn op_1nnn(&mut self)
        ensures
            final(self)@ == old(self)@.op_1nnn(),
            final(self).generator == old(self).generator,
    {
        self.pc = decode::nnn(self.opcode);
    }

    /// `2nnn`, CALL addr: calls the subroutine at `nnn`.
    pub fn op_2nnn(&mut self) -> (res: Result<(), ExecutionError>)
        requires
            old(self)@.pc_in_memory(),
        ensures
            res == old(self)@.call_result(),
            final(self)@ == old(self)@.op_2nnn(),
            final(self).generator == old(self).generator,
    {
        let target: u16 = decode::nnn(self.opcode);
        self.call(target)
    }

    /// `3xkk`, SE Vx, byte: if `Vx == kk`, moves the program counter on by 2,
    /// past one instruction; otherwise leaves it.
    pub fn op_3xkk(&mut self)
        requires
            old(self)@.pc_in_memory(),
        ensures
            final(self)@ == old(self)@.op_3xkk(),
            final(self).generator == old(self).generator,
    {
        let vx: usize = decode::x(self.opcode);
        let byte: u8 = decode::kk(self.opcode);
        if self.registers[vx] == byte {
            self.pc += 2;
        }
    }

    /// `4xkk`, SNE Vx, byte: if `Vx != kk`, moves the program counter on by
    /// 2, past one instruction; otherwise leaves it.
    pub fn op_4xkk(&mut self)
        requires
            old(self)@.pc_in_memory(),
        ensures
            final(self)@ == old(self)@.op_4xkk(),
            final(self).generator == old(self).generator,
    {
        let vx: usize = decode::x(self.opcode);
        let byte: u8 = decode::kk(self.opcode);
        if self.registers[vx] != byte {
            self.pc += 2;
        }
    }

    /// `5xy_`, SE Vx, Vy: if `Vx == Vy`, moves the program counter on by 2,
    /// past one instruction; otherwise leaves it.
    pub fn op_5xy0(&mut self)
        requires
            old(self)@.pc_in_memory(),
        ensures
            final(self)@ == old(self)@.op_5xy0(),
            final(self).generator == old(self).generator,
    {
        let vx: usize = decode::x(self.opcode);
        let vy: usize = decode::y(self.opcode);
        if self.registers[vx] == self.registers[vy] {
            self.pc += 2;
        }
    }

    /// `6xkk`, LD Vx, byte: `Vx = kk`.
    pub fn op_6xkk(&mut self)
        ensures
            final(self)@ == old(self)@.op_6xkk(),
            final(self).generator == old(self).generator,
    {
        let vx: usize = decode::x(self.opcode);
        let byte: u8 = decode::kk(self.opcode);
        self.registers[vx] = byte;
    }

    /// `7xkk`, ADD Vx, byte: `Vx = Vx + kk` modulo 256; `VF` is not touched.
    pub fn op_7xkk(&mut self)
        ensures
            final(self)@ == old(self)@.op_7xkk(),
            final(self).generator == old(self).generator,
    {
        let vx: usize = decode::x(self.opcode);
        let byte: u8 = decode::kk(self.opcode);
        self.registers[vx] = self.registers[vx].wrapping_add(byte);
    }

    /// `8xy0`, LD Vx, Vy: `Vx = Vy`.
    pub fn op_8xy0(&mut self)
        ensures
            final(self)@ == old(self)@.op_8xy0(),
            final(self).generator == old(self).generator,
    {
        let vx: usize = decode::x(self.opcode);
        let vy: usize = decode::y(self.opcode);
        self.registers[vx] = self.registers[vy];
    }

    /// `8xy1`, OR Vx, Vy: `Vx = Vx | Vy`.
    pub fn op_8xy1(&mut self)
        ensures
            final(self)@ == old(self)@.op_8xy1(),
            final(self).generator == old(self).generator,
    {
        let vx: usize = decode::x(self.opcode);
        let vy: usize = decode::y(self.opcode);
        self.registers[vx] = self.registers[vx] | self.registers[vy];
    }

    /// `8xy2`, AND Vx, Vy: `Vx = Vx & Vy`.
    pub fn op_8xy2(&mut self)
        ensures
            final(self)@ == old(self)@.op_8xy2(),
            final(self).generator == old(self).generator,
    {
        let vx: usize = decode::x(self.opcode);
        let vy: usize = decode::y(self.opcode);
        self.registers[vx] = self.registers[vx] & self.registers[vy];
    }

    /// `8xy3`, XOR Vx, Vy: `Vx = Vx ^ Vy`.
    pub fn op_8xy3(&mut self)
        ensures
            final(self)@ == old(self)@.op_8xy3(),
            final(self).generator == old(self).generator,
    {
        let vx: usize = decode::x(self.opcode);
        let vy: usize = decode::y(self.opcode);
        self.registers[vx] = self.registers[vx] ^ self.registers[vy];
    }

    /// `8xy4`, ADD Vx, Vy: `VF` becomes 1 if `Vx + Vy` exceeds 255 and 0
    /// otherwise, then `Vx` receives the low eight bits of the sum.
    pub fn op_8xy4(&mut self)
        ensures
            final(self)@ == old(self)@.op_8xy4(),
            final(self).generator == old(self).generator,
    {
        let vx: usize = decode::x(self.opcode);
        let vy: usize = decode::y(self.opcode);
        let sum: u16 = self.registers[vx] as u16 + self.registers[vy] as u16;
        if sum > 255 {
            self.registers[0xF] = 1;
        } else {
            self.registers[0xF] = 0;
        }
        assert(sum & 0xFF == sum % 256) by (bit_vector);
        self.registers[vx] = (sum & 0xFF) as u8;
    }

    /// `8xy5`, SUB Vx, Vy: `VF` becomes 1 if `Vx >= Vy` and 0 otherwise, then
    /// `Vx` receives `Vx - Vy` modulo 256. Both operands are read first.
    pub fn op_8xy5(&mut self)
        ensures
            final(self)@ == old(self)@.op_8xy5(),
            final(self).generator == old(self).generator,
    {
        let vx: usize = decode::x(self.opcode);
        let vy: usize = decode::y(self.opcode);
        let minuend: u8 = self.registers[vx];
        let subtrahend: u8 = self.registers[vy];
        if minuend >= subtrahend {
            self.registers[0xF] = 1;
        } else {
            self.registers[0xF] = 0;
        }
        self.registers[vx] = minuend.wrapping_sub(subtrahend);
    }

    /// `8xy6`, SHR Vx: `VF` becomes the lowest bit of `Vx`, then `Vx` is
    /// shifted right by one.
    pub fn op_8xy6(&mut self)
        ensures
            final(self)@ == old(self)@.op_8xy6(),
            final(self).generator == old(self).generator,
    {
        let vx: usize = decode::x(self.opcode);
        let value: u8 = self.registers[vx];
        assert(value & 0x1 == value % 2 && value >> 1 == value / 2) by (bit_vector);
        self.registers[0xF] = value & 0x1;
        self.registers[vx] = value >> 1;
    }

    /// `8xy7`, SUBN Vx, Vy: `VF` becomes 1 if `Vy >= Vx` and 0 otherwise,
    /// then `Vx` receives `Vy - Vx` modulo 256. Both operands are read first.
    pub fn op_8xy7(&mut self)
        ensures
            final(self)@ == old(self)@.op_8xy7(),
            final(self).generator == old(self).generator,
    {
        let vx: usize = decode::x(self.opcode);
        let vy: usize = decode::y(self.opcode);
        let subtrahend: u8 = self.registers[vx];
        let minuend: u8 = self.registers[vy];
        if minuend >= subtrahend {
            self.registers[0xF] = 1;
        } else {
            self.registers[0xF] = 0;
        }
        self.registers[vx] = minuend.wrapping_sub(subtrahend);
    }

    /// `8xyE`, SHL Vx: `VF` becomes the highest bit of `Vx`, then `Vx` is
    /// shifted left by one, modulo 256.
    pub fn op_8xye(&mut self)
        ensures
            final(self)@ == old(self)@.op_8xye(),
            final(self).generator == old(self).generator,
    {
        let vx: usize = decode::x(self.opcode);
        let value: u8 = self.registers[vx];
        assert((value & 0x80) >> 7 == value / 128 && value << 1 == (value * 2) % 256)
            by (bit_vector);
        self.registers[0xF] = (value & 0x80) >> 7;
        self.registers[vx] = value << 1;
    }

    /// `9xy_`, SNE Vx, Vy: if `Vx != Vy`, moves the program counter on by 2,
    /// past one instruction; otherwise leaves it.
    pub fn op_9xy0(&mut self)
        requires
            old(self)@.pc_in_memory(),
        ensures
            final(self)@ == old(self)@.op_9xy0(),
            final(self).generator == old(self).generator,
    {
        let vx: usize = decode::x(self.opcode);
        let vy: usize = decode::y(self.opcode);
        if self.registers[vx] != self.registers[vy] {
            self.pc += 2;
        }
    }

    /// `Annn`, LD I, addr: `I = nnn`.
    pub fn op_annn(&mut self)
        ensures
            final(self)@ == old(self)@.op_annn(),
            final(self).generator == old(self).generator,
    {
        self.index = decode::nnn(self.opcode);
    }

    /// `Bnnn`, JP V0, addr: jumps to `V0 + nnn`.
    pub fn op_bnnn(&mut self)
        ensures
            final(self)@ == old(self)@.op_bnnn(),
            final(self).generator == old(self).generator,
    {
        let address: u16 = decode::nnn(self.opcode);
        self.pc = self.registers[0] as u16 + address;
    }

    /// `Cxkk`, RND Vx, byte: `Vx = random & kk`, for a random byte that the
    /// caller has drawn.
    pub fn op_cxkk(&mut self, random: u8)
        ensures
            final(self)@ == old(self)@.op_cxkk(random),
            final(self).generator == old(self).generator,
    {
        let vx: usize = decode::x(self.opcode);
        let byte: u8 = decode::kk(self.opcode);
        self.registers[vx] = random & byte;
    }

    /// `Ex9E`, SKP Vx: if the key whose number is in `Vx` is pressed, moves
    /// the program counter on by 2, past one instruction; otherwise leaves it.
    pub fn op_ex9e(&mut self)
        requires
            old(self)@.pc_in_memory(),
            old(self)@.vx() < 16,
        ensures
            final(self)@ == old(self)@.op_ex9e(),
            final(self).generator == old(self).generator,
    {
        let vx: usize = decode::x(self.opcode);
        if self.keypad[self.registers[vx] as usize] {
            self.pc += 2;
        }
    }

    /// `ExA1`, SKNP Vx: if the key whose number is in `Vx` is not pressed,
    /// moves the program counter on by 2, past one instruction; otherwise
    /// leaves it.
    pub fn op_exa1(&mut self)
        requires
            old(self)@.pc_in_memory(),
            old(self)@.vx() < 16,
        ensures
            final(self)@ == old(self)@.op_exa1(),
            final(self).generator == old(self).generator,
    {
        let vx: usize = decode::x(self.opcode);
        if !self.keypad[self.registers[vx] as usize] {
            self.pc += 2;
        }
    }

    /// `Fx07`, LD Vx, DT: `Vx` receives the delay timer.
    pub fn op_fx07(&mut self)
        ensures
            final(self)@ == old(self)@.op_fx07(),
            final(self).generator == old(self).generator,
    {
        let vx: usize = decode::x(self.opcode);
        self.registers[vx] = self.delay_timer;
    }

    /// `Fx0A`, LD Vx, K: suspends the instruction. The machine latches the
    /// keypad and waits, with the program counter still on this instruction,
    /// until a step sees a key that went down.
    pub fn op_fx0a(&mut self)
        ensures
            final(self)@ == old(self)@.op_fx0a(),
            final(self).generator == old(self).generator,
    {
        let vx: usize = decode::x(self.opcode);
        self.state = RunState::AwaitingKey(vx as u8);
        self.latched = self.keypad;
    }

    /// `Fx15`, LD DT, Vx: the delay timer receives `Vx`.
    pub fn op_fx15(&mut self)
        ensures
            final(self)@ == old(self)@.op_fx15(),
            final(self).generator == old(self).generator,
    {
        let vx: usize = decode::x(self.opcode);
        self.delay_timer = self.registers[vx];
    }

    /// `Fx18`, LD ST, Vx: the sound timer receives `Vx`.
    pub fn op_fx18(&mut self)
        ensures
            final(self)@ == old(self)@.op_fx18(),
            final(self).generator == old(self).generator,
    {
        let vx: usize = decode::x(self.opcode);
        self.sound_timer = self.registers[vx];
    }

    /// `Fx1E`, ADD I, Vx: `I = I + Vx` modulo 65536.
    pub fn op_fx1e(&mut self)
        ensures
            final(self)@ == old(self)@.op_fx1e(),
            final(self).generator == old(self).generator,
    {
        let vx: usize = decode::x(self.opcode);
        self.index = self.index.wrapping_add(self.registers[vx] as u16);
    }

    /// `Fx29`, LD F, Vx: `I` receives the address of the glyph for `Vx`, the
    /// start of the glyph table plus five times `Vx`.
    pub fn op_fx29(&mut self)
        ensures
            final(self)@ == old(self)@.op_fx29(),
            final(self).generator == old(self).generator,
    {
        let vx: usize = decode::x(self.opcode);
        self.index = FONTSET_START_ADDRESS + self.registers[vx] as u16 * 5;
    }

    /// `Fx33`, LD B, Vx: stores the hundreds, tens and ones of `Vx` at `I`,
    /// `I + 1` and `I + 2`. `I` keeps its value.
    pub fn op_fx33(&mut self)
        requires
            old(self).index + 2 < 4096,
        ensures
            final(self)@ == old(self)@.op_fx33(),
            final(self).generator == old(self).generator,
    {
        let vx: usize = decode::x(self.opcode);
        let value: u8 = self.registers[vx];
        let at: usize = self.index as usize;
        self.memory[at] = value / 100;
        self.memory[at + 1] = (value / 10) % 10;
        self.memory[at + 2] = value % 10;
    }

    /// `Fx55`, LD [I], Vx: stores `V0..=Vx` at `I..=I + x`. `I` keeps its
    /// value.
    pub fn op_fx55(&mut self)
        requires
            old(self).index + decode::x(old(self).opcode) < 4096,
        ensures
            final(self)@ == old(self)@.op_fx55(),
            final(self).generator == old(self).generator,
    {
        let vx: usize = decode::x(self.opcode);
        let at: usize = self.index as usize;
        let mut i: usize = 0;
        while i <= vx
            invariant
                i <= vx + 1,
                vx < 16,
                vx == decode::x(self.opcode),
                at == self.index,
                at + vx < 4096,
                forall|address: int|
                    0 <= address < 4096 ==> self.memory@[address] == if at <= address < at + i {
                        self.registers@[address - at]
                    } else {
                        old(self).memory@[address]
                    },
                self.registers == old(self).registers,
                self.index == old(self).index,
                self.pc == old(self).pc,
                self.stack == old(self).stack,
                self.sp == old(self).sp,
                self.delay_timer == old(self).delay_timer,
                self.sound_timer == old(self).sound_timer,
                self.video == old(self).video,
                self.keypad == old(self).keypad,
                self.opcode == old(self).opcode,
                self.state == old(self).state,
                self.latched == old(self).latched,
                self.generator == old(self).generator,
            decreases vx + 1 - i,
        {
            self.memory[at + i] = self.registers[i];
            i += 1;
        }
    }

    /// `Fx65`, LD Vx, [I]: loads `V0..=Vx` from `I..=I + x`. `I` keeps its
    /// value.
    pub fn op_fx65(&mut self)
        requires
            old(self).index + decode::x(old(self).opcode) < 4096,
        ensures
            final(self)@ == old(self)@.op_fx65(),
            final(self).generator == old(self).generator,
    {
        let vx: usize = decode::x(self.opcode);
        let at: usize = self.index as usize;
        let mut i: usize = 0;
        while i <= vx
            invariant
                i <= vx + 1,
                vx < 16,
                vx == decode::x(self.opcode),
                at == self.index,
                at + vx < 4096,
                forall|register: int|
                    0 <= register < 16 ==> self.registers@[register] == if register < i {
                        self.memory@[at + register]
                    } else {
                        old(self).registers@[register]
                    },
                self.memory == old(self).memory,
                self.index == old(self).index,
                self.pc == old(self).pc,
                self.stack == old(self).stack,
                self.sp == old(self).sp,
                self.delay_timer == old(self).delay_timer,
                self.sound_timer == old(self).sound_timer,
                self.video == old(self).video,
                self.keypad == old(self).keypad,
                self.opcode == old(self).opcode,
                self.state == old(self).state,
                self.latched == old(self).latched,
                self.generator == old(self).generator,
            decreases vx + 1 - i,
        {
            self.registers[i] = self.memory[at + i];
            i += 1;
        }
    }
}

} // verus!
