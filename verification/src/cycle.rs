//! One step of the machine: fetch, decode, execute, or one look at the
//! keypad while an `Fx0A` instruction waits.

use crate::chip8::Chip8;
use crate::decode;
use crate::decode::{spec_decode, spec_n, spec_x, Instruction};
use crate::error::ExecutionError;
use crate::machine::{Machine, RunState, STACK_SIZE};
use crate::random::sample_byte;
use vstd::prelude::*;

verus! {

impl Machine {
    /// Whether key `key` went down since the keypad was latched.
    pub open spec fn new_press(self, key: int) -> bool {
        self.keypad[key] && !self.latched[key]
    }

    /// The lowest key from `from` on that went down since the keypad was
    /// latched, or 16 if there is none.
    pub open spec fn first_new_press(self, from: int) -> int
        decreases 16 - from,
    {
        if from >= 16 {
            16
        } else if self.new_press(from) {
            from
        } else {
            self.first_new_press(from + 1)
        }
    }

    /// The machine after one look at the keypad during a key wait. If a key
    /// went down since the keypad was latched, the lowest such key is stored
    /// in the waiting register, the program counter moves past the
    /// instruction and the machine runs again. In any case the keypad is
    /// latched anew, so that a key that was released can be seen going down.
    pub open spec fn poll_key(self) -> Machine {
        match self.state {
            RunState::Running => self,
            RunState::AwaitingKey(register) => {
                let key: int = self.first_new_press(0);
                if key < 16 {
                    Machine {
                        registers: self.registers.update(register as int, key as u8),
                        pc: self.pc + 2,
                        state: RunState::Running,
                        latched: self.keypad,
                        ..self
                    }
                } else {
                    Machine { latched: self.keypad, ..self }
                }
            },
        }
    }

    /// Whether the instruction `opcode` stays inside memory and the keypad
    /// when this machine executes it: a sprite, a decimal number and a
    /// register block must lie below the end of memory, and a key instruction
    /// must name one of the sixteen keys.
    pub open spec fn operands_in_range(self, opcode: u16) -> bool {
        match spec_decode(opcode) {
            Some(Instruction::Drw) => self.index + spec_n(opcode) <= 4096,
            Some(Instruction::Skp) => self.registers[spec_x(opcode) as int] < 16,
            Some(Instruction::Sknp) => self.registers[spec_x(opcode) as int] < 16,
            Some(Instruction::LdBcd) => self.index + 2 < 4096,
            Some(Instruction::StoreRegs) => self.index + spec_x(opcode) < 4096,
            Some(Instruction::LoadRegs) => self.index + spec_x(opcode) < 4096,
            _ => true,
        }
    }

    /// The word at the program counter, the byte at the lower address being
    /// the more significant.
    pub open spec fn next_opcode(self) -> u16 {
        self.fetch().opcode
    }

    /// The instruction at the program counter, if the word there is one.
    pub open spec fn next_instruction(self) -> Option<Instruction> {
        spec_decode(self.next_opcode())
    }

    /// The machine after the work of `instruction` on the operands in
    /// `opcode`, with `random` as the byte that `RND` draws, and before the
    /// program counter moves on.
    pub open spec fn perform(self, instruction: Instruction, random: u8) -> Machine {
        match instruction {
            Instruction::Cls => self.op_00e0(),
            Instruction::Ret => self.op_00ee(),
            Instruction::Jp => self.op_1nnn(),
            Instruction::Call => self.op_2nnn(),
            Instruction::SeByte => self.op_3xkk(),
            Instruction::SneByte => self.op_4xkk(),
            Instruction::SeReg => self.op_5xy0(),
            Instruction::LdByte => self.op_6xkk(),
            Instruction::AddByte => self.op_7xkk(),
            Instruction::LdReg => self.op_8xy0(),
            Instruction::Or => self.op_8xy1(),
            Instruction::And => self.op_8xy2(),
            Instruction::Xor => self.op_8xy3(),
            Instruction::AddReg => self.op_8xy4(),
            Instruction::Sub => self.op_8xy5(),
            Instruction::Shr => self.op_8xy6(),
            Instruction::Subn => self.op_8xy7(),
            Instruction::Shl => self.op_8xye(),
            Instruction::SneReg => self.op_9xy0(),
            Instruction::LdIndex => self.op_annn(),
            Instruction::JpOffset => self.op_bnnn(),
            Instruction::Rnd => self.op_cxkk(random),
            Instruction::Drw => self.op_dxyn(),
            Instruction::Skp => self.op_ex9e(),
            Instruction::Sknp => self.op_exa1(),
            Instruction::LdFromDelay => self.op_fx07(),
            Instruction::LdKey => self.op_fx0a(),
            Instruction::LdDelay => self.op_fx15(),
            Instruction::LdSound => self.op_fx18(),
            Instruction::AddIndex => self.op_fx1e(),
            Instruction::LdGlyph => self.op_fx29(),
            Instruction::LdBcd => self.op_fx33(),
            Instruction::StoreRegs => self.op_fx55(),
            Instruction::LoadRegs => self.op_fx65(),
        }
    }

    /// The machine after the instruction in `opcode`, with `random` as the
    /// byte that `RND` draws: the work of the instruction and then, unless
    /// the instruction sets the program counter itself, the program counter
    /// moved on by 2. After a skip that is taken this makes 4. A word that
    /// is no instruction, a call with a full stack and a return with an empty
    /// stack change nothing.
    pub open spec fn execute(self, random: u8) -> Machine {
        match spec_decode(self.opcode) {
            None => self,
            Some(instruction) => if instruction.spec_advances() {
                self.perform(instruction, random).advance()
            } else {
                self.perform(instruction, random)
            },
        }
    }

    /// What executing the instruction in `opcode` reports.
    pub open spec fn execute_result(self) -> Result<(), ExecutionError> {
        match spec_decode(self.opcode) {
            None => Err(ExecutionError::InvalidOpcode),
            Some(Instruction::Call) => self.call_result(),
            Some(Instruction::Ret) => self.ret_result(),
            Some(_) => Ok(()),
        }
    }

    /// Whether a step can be taken: the machine is well formed and, while it
    /// runs, the instruction at the program counter lies inside memory and
    /// stays inside memory and the keypad.
    pub open spec fn can_step(self) -> bool {
        &&& self.wf()
        &&& match self.state {
            RunState::AwaitingKey(_) => self.pc_in_memory(),
            RunState::Running => 0 <= self.pc && self.pc + 1 < 4096
                && self.operands_in_range(self.next_opcode()),
        }
    }

    /// Whether the next step draws a random byte: the machine runs and the
    /// instruction at the program counter is `RND`.
    pub open spec fn draws_random(self) -> bool {
        self.state is Running && self.next_instruction() == Some(Instruction::Rnd)
    }

    /// The machine after one step, with `random` as the byte that `RND`
    /// draws: one look at the keypad during a key wait, one instruction
    /// fetched and executed otherwise.
    pub open spec fn step(self, random: u8) -> Machine {
        match self.state {
            RunState::AwaitingKey(_) => self.poll_key(),
            RunState::Running => self.fetch().execute(random),
        }
    }

    /// What one step reports.
    pub open spec fn step_result(self) -> Result<(), ExecutionError> {
        match self.state {
            RunState::AwaitingKey(_) => Ok(()),
            RunState::Running => self.fetch().execute_result(),
        }
    }

    /// A step that draws no random byte does not depend on one.
    pub proof fn lemma_step_ignores_random(self, first: u8, second: u8)
        requires
            !self.draws_random(),
        ensures
            self.step(first) == self.step(second),
    {
    }

    /// A step keeps the machine well formed.
    pub proof fn lemma_step_wf(self, random: u8)
        requires
            self.can_step(),
        ensures
            self.step(random).wf(),
    {
    }
}

impl Chip8 {
    /// One look at the keypad during a key wait. If a key went down since the
    /// keypad was latched, the lowest such key completes the suspended
    /// instruction. While the machine runs this does nothing.
    pub fn poll_key(&mut self)
        requires
            old(self).wf(),
            old(self)@.pc_in_memory(),
        ensures
            final(self)@ == old(self)@.poll_key(),
            final(self).generator == old(self).generator,
    {
        match self.state {
            RunState::Running => {},
            RunState::AwaitingKey(register) => {
                let mut key: usize = 0;
                while key < 16 && !(self.keypad[key] && !self.latched[key])
                    invariant
                        key <= 16,
                        self@.first_new_press(0) == self@.first_new_press(key as int),
                    decreases 16 - key,
                {
                    key += 1;
                }
                if key < 16 {
                    self.registers[register as usize] = key as u8;
                    self.pc += 2;
                    self.state = RunState::Running;
                }
                self.latched = self.keypad;
            },
        }
    }

    /// Whether the instruction `opcode` stays inside memory and the keypad
    /// when this machine executes it.
    pub fn operands_in_range(&self, opcode: u16) -> (ok: bool)
        ensures
            ok == self@.operands_in_range(opcode),
    {
        let vx: usize = decode::x(opcode);
        let index: usize = self.index as usize;
        match decode::decode(opcode) {
            Some(Instruction::Drw) => index + decode::n(opcode) as usize <= 4096,
            Some(Instruction::Skp) => self.registers[vx] < 16,
            Some(Instruction::Sknp) => self.registers[vx] < 16,
            Some(Instruction::LdBcd) => index + 2 < 4096,
            Some(Instruction::StoreRegs) => index + vx < 4096,
            Some(Instruction::LoadRegs) => index + vx < 4096,
            _ => true,
        }
    }

    /// Whether a step can be taken. A host checks this before each call of
    /// [`Chip8::emulate_cycle`].
    pub fn can_step(&self) -> (ok: bool)
        ensures
            ok == self@.can_step(),
    {
        if self.sp as usize > STACK_SIZE {
            return false;
        }
        match self.state {
            RunState::AwaitingKey(register) => register < 16 && self.pc < 4096,
            RunState::Running => {
                if self.pc >= 4095 {
                    return false;
                }
                let at: usize = self.pc as usize;
                let next: u16 = decode::word(self.memory[at], self.memory[at + 1]);
                self.operands_in_range(next)
            },
        }
    }

    /// Executes the instruction in `opcode`, with `random` as the byte that
    /// `RND` draws, and then moves the program counter on by 2 unless the
    /// instruction is a jump, a call, a return or the start of a key wait. A
    /// word that matches no instruction of its family, a call with a full
    /// stack and a return with an empty stack are reported and change
    /// nothing.
    pub fn execute(&mut self, random: u8) -> (res: Result<(), ExecutionError>)
        requires
            old(self).wf(),
            old(self)@.pc_in_memory(),
            old(self)@.operands_in_range(old(self).opcode),
        ensures
            res == old(self)@.execute_result(),
            final(self)@ == old(self)@.execute(random),
            final(self).generator == old(self).generator,
    {
        match decode::decode(self.opcode) {
            None => Err(ExecutionError::InvalidOpcode),
            Some(instruction) => {
                let res: Result<(), ExecutionError> = match instruction {
                    Instruction::Cls => {
                        self.op_00e0();
                        Ok(())
                    },
                    Instruction::Ret => self.op_00ee(),
                    Instruction::Jp => {
                        self.op_1nnn();
                        Ok(())
                    },
                    Instruction::Call => self.op_2nnn(),
                    Instruction::SeByte => {
                        self.op_3xkk();
                        Ok(())
                    },
                    Instruction::SneByte => {
                        self.op_4xkk();
                        Ok(())
                    },
                    Instruction::SeReg => {
                        self.op_5xy0();
                        Ok(())
                    },
                    Instruction::LdByte => {
                        self.op_6xkk();
                        Ok(())
                    },
                    Instruction::AddByte => {
                        self.op_7xkk();
                        Ok(())
                    },
                    Instruction::LdReg => {
                        self.op_8xy0();
                        Ok(())
                    },
                    Instruction::Or => {
                        self.op_8xy1();
                        Ok(())
                    },
                    Instruction::And => {
                        self.op_8xy2();
                        Ok(())
                    },
                    Instruction::Xor => {
                        self.op_8xy3();
                        Ok(())
                    },
                    Instruction::AddReg => {
                        self.op_8xy4();
                        Ok(())
                    },
                    Instruction::Sub => {
                        self.op_8xy5();
                        Ok(())
                    },
                    Instruction::Shr => {
                        self.op_8xy6();
                        Ok(())
                    },
                    Instruction::Subn => {
                        self.op_8xy7();
                        Ok(())
                    },
                    Instruction::Shl => {
                        self.op_8xye();
                        Ok(())
                    },
                    Instruction::SneReg => {
                        self.op_9xy0();
                        Ok(())
                    },
                    Instruction::LdIndex => {
                        self.op_annn();
                        Ok(())
                    },
                    Instruction::JpOffset => {
                        self.op_bnnn();
                        Ok(())
                    },
                    Instruction::Rnd => {
                        self.op_cxkk(random);
                        Ok(())
                    },
                    Instruction::Drw => {
                        self.op_dxyn();
                        Ok(())
                    },
                    Instruction::Skp => {
                        self.op_ex9e();
                        Ok(())
                    },
                    Instruction::Sknp => {
                        self.op_exa1();
                        Ok(())
                    },
                    Instruction::LdFromDelay => {
                        self.op_fx07();
                        Ok(())
                    },
                    Instruction::LdKey => {
                        self.op_fx0a();
                        Ok(())
                    },
                    Instruction::LdDelay => {
                        self.op_fx15();
                        Ok(())
                    },
                    Instruction::LdSound => {
                        self.op_fx18();
                        Ok(())
                    },
                    Instruction::AddIndex => {
                        self.op_fx1e();
                        Ok(())
                    },
                    Instruction::LdGlyph => {
                        self.op_fx29();
                        Ok(())
                    },
                    Instruction::LdBcd => {
                        self.op_fx33();
                        Ok(())
                    },
                    Instruction::StoreRegs => {
                        self.op_fx55();
                        Ok(())
                    },
                    Instruction::LoadRegs => {
                        self.op_fx65();
                        Ok(())
                    },
                };
                if instruction.advances() {
                    self.pc += 2;
                }
                res
            },
        }
    }

    /// One step of the machine if one can be taken, as
    /// [`Chip8::emulate_cycle`] takes it. Where the program counter, a sprite,
    /// a register block or a key number lies outside the machine, no step is
    /// defined: `None` is returned and nothing changes.
    pub fn checked_cycle(&mut self) -> (res: Option<Result<(), ExecutionError>>)
        ensures
            res is None <==> !old(self)@.can_step(),
            res is None ==> *final(self) == *old(self),
            res matches Some(outcome) ==> {
                &&& outcome == old(self)@.step_result()
                &&& exists|random: u8| final(self)@ == #[trigger] old(self)@.step(random)
                &&& !old(self)@.draws_random() ==> final(self).generator == old(self).generator
                    && forall|random: u8| final(self)@ == #[trigger] old(self)@.step(random)
                &&& final(self).wf()
            },
    {
        if self.can_step() {
            Some(self.emulate_cycle())
        } else {
            None
        }
    }

    /// One step of the machine with a random byte supplied by the caller: one
    /// look at the keypad during a key wait, one instruction fetched and
    /// executed otherwise. `random` is used only if the instruction is `RND`.
    pub fn emulate_cycle_with(&mut self, random: u8) -> (res: Result<(), ExecutionError>)
        requires
            old(self)@.can_step(),
        ensures
            res == old(self)@.step_result(),
            final(self)@ == old(self)@.step(random),
            final(self).wf(),
            final(self).generator == old(self).generator,
    {
        match self.state {
            RunState::AwaitingKey(_) => {
                self.poll_key();
                Ok(())
            },
            RunState::Running => {
                self.fetch();
                self.execute(random)
            },
        }
    }

    /// One step of the machine: one look at the keypad during a key wait, one
    /// instruction fetched and executed otherwise. The byte of a `RND`
    /// instruction is drawn from the machine's generator, uniformly from
    /// `0..=255`; no other step touches the generator or depends on it.
    pub fn emulate_cycle(&mut self) -> (res: Result<(), ExecutionError>)
        requires
            old(self)@.can_step(),
        ensures
            res == old(self)@.step_result(),
            exists|random: u8| final(self)@ == #[trigger] old(self)@.step(random),
            !old(self)@.draws_random() ==> final(self).generator == old(self).generator
                && forall|random: u8| final(self)@ == #[trigger] old(self)@.step(random),
            final(self).wf(),
    {
        match self.state {
            RunState::AwaitingKey(_) => {
                self.poll_key();
                assert(self@ == old(self)@.step(0));
                Ok(())
            },
            RunState::Running => {
                self.fetch();
                let random: u8 = if decode::family(self.opcode) == 0xC {
                    sample_byte(&mut self.generator, 0, 255)
                } else {
                    0
                };
                let res = self.execute(random);
                assert(self@ == old(self)@.step(random));
                res
            },
        }
    }
}

} // verus!
