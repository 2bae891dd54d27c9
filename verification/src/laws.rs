//! Laws of the instruction set, proved of the model that the executable
//! machine is proved to follow.

use crate::decode::{spec_kk, spec_n, spec_x, spec_y, Instruction};
use crate::machine::{Machine, RunState};
use vstd::prelude::*;

verus! {

impl Machine {
    /// Whether the skip instruction in `opcode` finds its condition met.
    /// Instructions that do not skip meet none.
    pub open spec fn skip_taken(self) -> bool {
        match crate::decode::spec_decode(self.opcode) {
            Some(Instruction::SeByte) => self.vx() == spec_kk(self.opcode),
            Some(Instruction::SneByte) => self.vx() != spec_kk(self.opcode),
            Some(Instruction::SeReg) => self.vx() == self.vy(),
            Some(Instruction::SneReg) => self.vx() != self.vy(),
            Some(Instruction::Skp) => self.keypad[self.vx() as int],
            Some(Instruction::Sknp) => !self.keypad[self.vx() as int],
            _ => false,
        }
    }

    /// Whether `opcode` holds one of the six skip instructions.
    pub open spec fn is_skip(self) -> bool {
        match crate::decode::spec_decode(self.opcode) {
            Some(Instruction::SeByte) => true,
            Some(Instruction::SneByte) => true,
            Some(Instruction::SeReg) => true,
            Some(Instruction::SneReg) => true,
            Some(Instruction::Skp) => true,
            Some(Instruction::Sknp) => true,
            _ => false,
        }
    }

    /// Whether every framebuffer cell is off.
    pub open spec fn blank(self) -> bool {
        forall|cell: int| 0 <= cell < self.video.len() ==> !self.video[cell]
    }

    /// Whether the sprite at `I` has a lit pixel in one of its `n` rows.
    pub open spec fn sprite_nonempty(self) -> bool {
        exists|row: int| 0 <= row < spec_n(self.opcode) && #[trigger] self.memory[self.index + row] != 0
    }

    /// Whether `other` is about to draw the same sprite at the same place as
    /// this machine: the same instruction word, the same origin registers and
    /// the same sprite rows at the same `I`.
    pub open spec fn same_sprite(self, other: Machine) -> bool {
        &&& other.opcode == self.opcode
        &&& other.index == self.index
        &&& other.vx() == self.vx()
        &&& other.vy() == self.vy()
        &&& forall|row: int|
            0 <= row < spec_n(self.opcode) ==> #[trigger] other.memory[self.index + row]
                == self.memory[self.index + row]
    }
}

/// Whatever the framebuffer holds, a step on the instruction `CLS` turns every
/// cell off, moves the program counter on by 2 and reports success.
pub proof fn lemma_cls_blanks_and_advances(machine: Machine, random: u8)
    requires
        machine.wf(),
        machine.state is Running,
        machine.next_instruction() == Some(Instruction::Cls),
    ensures
        machine.step(random).blank(),
        machine.step(random).video.len() == 2048,
        machine.step(random).pc == machine.pc + 2,
        machine.step_result() is Ok,
{
}

/// A call followed by a return comes back. If `later` is any machine reached
/// after a successful call from `machine` in which the stack is as the call
/// left it (the same number of entries, the same newest entry), then a return
/// in `later` succeeds, puts the program counter on the instruction after the
/// call and restores the stack pointer to what it was before the call.
pub proof fn lemma_call_ret_round_trip(machine: Machine, target: u16, later: Machine)
    requires
        machine.wf(),
        machine.pc_in_memory(),
        machine.sp < 16,
        later.sp == machine.call(target).sp,
        later.stack[machine.sp] == machine.call(target).stack[machine.sp],
    ensures
        machine.call_result() is Ok,
        machine.call(target).pc == target,
        later.ret_result() is Ok,
        later.ret().pc == machine.pc + 2,
        later.ret().sp == machine.sp,
{
}

/// The same round trip through whole steps: a step on `CALL` from `machine`
/// and, in any later machine whose stack is as the call left it, a step on
/// `RET`.
pub proof fn lemma_call_ret_steps(machine: Machine, later: Machine, first: u8, second: u8)
    requires
        machine.wf(),
        machine.pc_in_memory(),
        machine.sp < 16,
        machine.state is Running,
        machine.next_instruction() == Some(Instruction::Call),
        later.state is Running,
        later.next_instruction() == Some(Instruction::Ret),
        later.sp == machine.step(first).sp,
        later.stack[machine.sp] == machine.step(first).stack[machine.sp],
    ensures
        machine.step_result() is Ok,
        later.step_result() is Ok,
        later.step(second).pc == machine.pc + 2,
        later.step(second).sp == machine.sp,
{
}

/// `ADD Vx, Vy` on the register values `a` and `b`: `Vx` ends as
/// `(a + b) mod 256`, and `VF` ends as 1 if `a + b > 255` and as 0 otherwise.
/// When `x` is `0xF` the register holds the sum, so the statement about the
/// flag is made for the other registers.
pub proof fn lemma_add_flag(machine: Machine, random: u8)
    requires
        machine.wf(),
        machine.state is Running,
        machine.next_instruction() == Some(Instruction::AddReg),
    ensures
        ({
            let x = spec_x(machine.next_opcode()) as int;
            let y = spec_y(machine.next_opcode()) as int;
            let a = machine.registers[x];
            let b = machine.registers[y];
            let after = machine.step(random);
            &&& after.registers[x] == (a + b) % 256
            &&& x != 0xF ==> after.registers[0xF] == if a + b > 255 { 1int } else { 0int }
        }),
{
}

/// `SUB Vx, Vy` on the register values `a` and `b`: `Vx` ends as
/// `(a - b) mod 256`, and `VF` ends as 1 if `a >= b` and as 0 otherwise.
/// When `x` is `0xF` the register holds the difference, so the statement
/// about the flag is made for the other registers.
pub proof fn lemma_sub_flag(machine: Machine, random: u8)
    requires
        machine.wf(),
        machine.state is Running,
        machine.next_instruction() == Some(Instruction::Sub),
    ensures
        ({
            let x = spec_x(machine.next_opcode()) as int;
            let y = spec_y(machine.next_opcode()) as int;
            let a = machine.registers[x];
            let b = machine.registers[y];
            let after = machine.step(random);
            &&& after.registers[x] == (a - b) % 256
            &&& x != 0xF ==> after.registers[0xF] == if a >= b { 1int } else { 0int }
        }),
{
}

/// `SUBN Vx, Vy` on the register values `a` in `Vx` and `b` in `Vy`: `Vx`
/// ends as `(b - a) mod 256`, and `VF` ends as 1 if `b >= a` and as 0
/// otherwise, both taken from the values before the instruction. When `x` is
/// `0xF` the register holds the difference, so the statement about the flag
/// is made for the other registers.
pub proof fn lemma_subn_flag(machine: Machine, random: u8)
    requires
        machine.wf(),
        machine.state is Running,
        machine.next_instruction() == Some(Instruction::Subn),
    ensures
        ({
            let x = spec_x(machine.next_opcode()) as int;
            let y = spec_y(machine.next_opcode()) as int;
            let a = machine.registers[x];
            let b = machine.registers[y];
            let after = machine.step(random);
            &&& after.registers[x] == (b - a) % 256
            &&& x != 0xF ==> after.registers[0xF] == if b >= a { 1int } else { 0int }
        }),
{
}

/// `SHR Vx` on the register value `a`: `Vx` ends as `a >> 1`, and `VF` ends
/// as the bit shifted out, the lowest bit of `a`. When `x` is `0xF` the
/// register holds the shifted value, so the statement about the flag is made
/// for the other registers.
pub proof fn lemma_shr_flag(machine: Machine, random: u8)
    requires
        machine.wf(),
        machine.state is Running,
        machine.next_instruction() == Some(Instruction::Shr),
    ensures
        ({
            let x = spec_x(machine.next_opcode()) as int;
            let a = machine.registers[x];
            let after = machine.step(random);
            &&& after.registers[x] == a >> 1
            &&& x != 0xF ==> after.registers[0xF] == a & 1
        }),
{
    let a = machine.registers[spec_x(machine.next_opcode()) as int];
    assert(a & 1 == a % 2 && a >> 1 == a / 2) by (bit_vector);
}

/// `SHL Vx` on the register value `a`: `Vx` ends as `a << 1` cut to eight
/// bits, and `VF` ends as the bit shifted out, the highest bit of `a`. When
/// `x` is `0xF` the register holds the shifted value, so the statement about
/// the flag is made for the other registers.
pub proof fn lemma_shl_flag(machine: Machine, random: u8)
    requires
        machine.wf(),
        machine.state is Running,
        machine.next_instruction() == Some(Instruction::Shl),
    ensures
        ({
            let x = spec_x(machine.next_opcode()) as int;
            let a = machine.registers[x];
            let after = machine.step(random);
            &&& after.registers[x] == a << 1
            &&& x != 0xF ==> after.registers[0xF] == a >> 7
        }),
{
    let a = machine.registers[spec_x(machine.next_opcode()) as int];
    assert(a >> 7 == a / 128 && a << 1 == (a * 2) % 256) by (bit_vector);
}

/// A step on a skip instruction moves the program counter on by 4 when the
/// skip is taken and by 2 when it is not, and changes nothing else but the
/// fetched word.
pub proof fn lemma_skip_pc_delta(machine: Machine, random: u8)
    requires
        machine.wf(),
        machine.state is Running,
        machine.fetch().is_skip(),
    ensures
        machine.step_result() is Ok,
        machine.fetch().skip_taken() ==> machine.step(random).pc == machine.pc + 4,
        !machine.fetch().skip_taken() ==> machine.step(random).pc == machine.pc + 2,
        machine.step(random) == (Machine { pc: machine.step(random).pc, ..machine.fetch() }),
{
}

/// What the work of an instruction does to the program counter, before the
/// step moves it on: a jump, a call and a return set it; a skip moves it on
/// by 2 when it is taken; every other instruction leaves it where it was.
pub proof fn lemma_perform_pc(machine: Machine, instruction: Instruction, random: u8)
    requires
        machine.wf(),
        crate::decode::spec_decode(machine.opcode) == Some(instruction),
    ensures
        machine.is_skip() && machine.skip_taken() ==> machine.perform(instruction, random).pc
            == machine.pc + 2,
        machine.is_skip() && !machine.skip_taken() ==> machine.perform(instruction, random).pc
            == machine.pc,
        !machine.is_skip() && instruction != Instruction::Jp && instruction
            != Instruction::JpOffset && instruction != Instruction::Call && instruction
            != Instruction::Ret ==> machine.perform(instruction, random).pc == machine.pc,
        instruction.spec_advances() ==> machine.execute(random).pc == machine.perform(
            instruction,
            random,
        ).pc + 2,
        !instruction.spec_advances() ==> machine.execute(random) == machine.perform(
            instruction,
            random,
        ),
{
}

/// A step on any instruction that is neither a jump, a call, a return, a
/// skip nor the start of a key wait moves the program counter on by exactly
/// 2.
pub proof fn lemma_plain_instruction_advances(machine: Machine, random: u8)
    requires
        machine.wf(),
        machine.state is Running,
        machine.next_instruction() is Some,
        !machine.fetch().is_skip(),
        machine.next_instruction() != Some(Instruction::Jp),
        machine.next_instruction() != Some(Instruction::JpOffset),
        machine.next_instruction() != Some(Instruction::Call),
        machine.next_instruction() != Some(Instruction::Ret),
        machine.next_instruction() != Some(Instruction::LdKey),
    ensures
        machine.step(random).pc == machine.pc + 2,
{
}

/// Drawing is its own inverse: if `second` draws the same sprite at the same
/// place onto the framebuffer that `first` has drawn, the framebuffer is
/// again what it was before `first` drew.
pub proof fn lemma_draw_twice_restores(first: Machine, second: Machine)
    requires
        first.wf(),
        second.wf(),
        first.same_sprite(second),
        second.video == first.op_dxyn().video,
    ensures
        second.op_dxyn().video == first.video,
{
    assert forall|cell: int| 0 <= cell < 2048 implies second.sprite_covers(cell)
        == first.sprite_covers(cell) by {
        first.lemma_pixel_cell_inverse(0, 0, cell);
    }
    assert(second.op_dxyn().video =~= first.video);
}

/// Drawing a sprite that has a lit pixel twice at the same place on a blank
/// framebuffer: the first draw reports no collision, the second reports one
/// and leaves the framebuffer blank again.
pub proof fn lemma_draw_twice_collides(first: Machine, second: Machine)
    requires
        first.wf(),
        second.wf(),
        first.blank(),
        first.sprite_nonempty(),
        first.same_sprite(second),
        second.video == first.op_dxyn().video,
    ensures
        first.op_dxyn().registers[0xF] == 0,
        second.op_dxyn().registers[0xF] == 1,
        second.op_dxyn().blank(),
{
    lemma_draw_twice_restores(first, second);
    let row = choose|row: int|
        0 <= row < spec_n(first.opcode) && #[trigger] first.memory[first.index + row] != 0;
    let byte = first.memory[first.index + row];
    assert(byte != 0 ==> byte & (0x80u8 >> 0u8) != 0 || byte & (0x80u8 >> 1u8) != 0 || byte & (0x80u8
        >> 2u8) != 0 || byte & (0x80u8 >> 3u8) != 0 || byte & (0x80u8 >> 4u8) != 0 || byte & (0x80u8
        >> 5u8) != 0 || byte & (0x80u8 >> 6u8) != 0 || byte & (0x80u8 >> 7u8) != 0) by (bit_vector);
    let column: int = if first.sprite_pixel(row, 0) {
        0
    } else if first.sprite_pixel(row, 1) {
        1
    } else if first.sprite_pixel(row, 2) {
        2
    } else if first.sprite_pixel(row, 3) {
        3
    } else if first.sprite_pixel(row, 4) {
        4
    } else if first.sprite_pixel(row, 5) {
        5
    } else if first.sprite_pixel(row, 6) {
        6
    } else {
        7
    };
    assert(first.sprite_pixel(row, column));
    let cell = first.pixel_cell(row, column);
    first.lemma_pixel_cell_inverse(row, column, cell);
    assert(first.sprite_covers(cell));
    assert(second.sprite_covers(cell));
    assert(second.video[cell]);
    assert(second.collision());
    assert(!first.collision());
}

/// The key that a look at the keypad finds is the lowest key from `from` on
/// that went down since the keypad was latched, and 16 when there is none.
pub proof fn lemma_first_new_press(machine: Machine, from: int)
    requires
        0 <= from <= 16,
    ensures
        from <= machine.first_new_press(from) <= 16,
        machine.first_new_press(from) < 16 ==> machine.new_press(machine.first_new_press(from)),
        forall|key: int| from <= key < machine.first_new_press(from) ==> !machine.new_press(key),
    decreases 16 - from,
{
    if from < 16 && !machine.new_press(from) {
        lemma_first_new_press(machine, from + 1);
    }
}

/// A step during a key wait in which no key went down neither fetches nor
/// moves the program counter: it latches the keypad and changes nothing else.
pub proof fn lemma_key_wait_holds(machine: Machine, random: u8)
    requires
        machine.wf(),
        machine.state is AwaitingKey,
        forall|key: int| 0 <= key < 16 ==> !machine.new_press(key),
    ensures
        machine.step_result() is Ok,
        machine.step(random) == (Machine { latched: machine.keypad, ..machine }),
{
    lemma_first_new_press(machine, 0);
}

/// A step during a key wait in which `key` is the lowest key that went down
/// completes the suspended instruction: the waiting register receives `key`,
/// the program counter moves on by 2 and the machine runs again.
pub proof fn lemma_key_wait_completes(machine: Machine, random: u8, key: int)
    requires
        machine.wf(),
        machine.state is AwaitingKey,
        0 <= key < 16,
        machine.new_press(key),
        forall|lower: int| 0 <= lower < key ==> !machine.new_press(lower),
    ensures
        machine.step_result() is Ok,
        machine.state matches RunState::AwaitingKey(register) && machine.step(random) == (Machine {
            registers: machine.registers.update(register as int, key as u8),
            pc: machine.pc + 2,
            state: RunState::Running,
            latched: machine.keypad,
            ..machine
        }),
{
    lemma_first_new_press(machine, 0);
}

} // verus!
