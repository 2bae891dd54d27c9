//! The executable machine.

use crate::error::RomTooLarge;
use crate::machine::{
    Machine, RunState, FONTSET, FONTSET_SIZE, FONTSET_START_ADDRESS, MAX_ROM_SIZE, START_ADDRESS,
};
use crate::random::{seeded, seeded_generator};
use rand::rngs::StdRng;
use vstd::prelude::*;

verus! {

/// The machine: its state and the generator that feeds `RND`.
pub struct Chip8 {
    /// Memory. `0x050..0x0A0` holds the glyph table, a program starts at
    /// `0x200`.
    pub memory: [u8; 4096],
    /// The registers `V0` to `VF`.
    pub registers: [u8; 16],
    /// The index register `I`.
    pub index: u16,
    /// The program counter.
    pub pc: u16,
    /// The return addresses; the entries below `sp` are in use.
    pub stack: [u16; 16],
    /// The number of return addresses on the stack, at most 16.
    pub sp: u8,
    /// The delay timer.
    pub delay_timer: u8,
    /// The sound timer.
    pub sound_timer: u8,
    /// The framebuffer, row by row, `true` for a lit pixel.
    pub video: [bool; 2048],
    /// The keys, `true` while pressed.
    pub keypad: [bool; 16],
    /// The instruction word fetched last.
    pub opcode: u16,
    /// Running, or waiting for a key.
    pub state: RunState,
    /// The keypad as the last step of a key wait saw it.
    pub latched: [bool; 16],
    /// The generator that `RND` draws from. The host may replace it.
    pub generator: StdRng,
}

impl View for Chip8 {
    type V = Machine;

    open spec fn view(&self) -> Machine {
        Machine {
            memory: self.memory@,
            registers: self.registers@,
            index: self.index as int,
            pc: self.pc as int,
            stack: self.stack@,
            sp: self.sp as int,
            delay_timer: self.delay_timer,
            sound_timer: self.sound_timer,
            keypad: self.keypad@,
            video: self.video@,
            opcode: self.opcode,
            state: self.state,
            latched: self.latched@,
        }
    }
}

impl Chip8 {
    /// The invariant of the machine: at most sixteen return addresses, and a
    /// valid register in a key wait. Every method keeps it.
    pub open spec fn wf(&self) -> bool {
        self@.wf()
    }

    /// A machine in its initial state whose generator is seeded with zero.
    pub fn new() -> (chip: Chip8)
        ensures
            chip@ == Machine::initial(),
            chip.generator == seeded(0),
            chip.wf(),
    {
        Chip8::with_seed(0)
    }

    /// A machine in its initial state whose generator is the one that `seed`
    /// gives, so that machines built from one seed draw the same bytes.
    pub fn with_seed(seed: u64) -> (chip: Chip8)
        ensures
            chip@ == Machine::initial(),
            chip.generator == seeded(seed),
            chip.wf(),
    {
        let mut chip = Chip8 {
            memory: [0; 4096],
            registers: [0; 16],
            index: 0,
            pc: START_ADDRESS,
            stack: [0; 16],
            sp: 0,
            delay_timer: 0,
            sound_timer: 0,
            video: [false; 2048],
            keypad: [false; 16],
            opcode: 0,
            state: RunState::Running,
            latched: [false; 16],
            generator: seeded_generator(seed),
        };
        let mut i: usize = 0;
        while i < FONTSET_SIZE
            invariant
                i <= FONTSET_SIZE,
                forall|address: int|
                    0 <= address < 4096 ==> chip.memory@[address] == if FONTSET_START_ADDRESS
                        <= address < FONTSET_START_ADDRESS + i {
                        FONTSET[address - FONTSET_START_ADDRESS]
                    } else {
                        0u8
                    },
                chip.registers@ == Seq::new(16, |register: int| 0u8),
                chip.stack@ == Seq::new(16, |entry: int| 0u16),
                chip.keypad@ == Seq::new(16, |key: int| false),
                chip.latched@ == Seq::new(16, |key: int| false),
                chip.video@ == Seq::new(2048, |cell: int| false),
                chip.index == 0,
                chip.pc == 0x200,
                chip.sp == 0,
                chip.delay_timer == 0,
                chip.sound_timer == 0,
                chip.opcode == 0,
                chip.state == RunState::Running,
                chip.generator == seeded(seed),
            decreases FONTSET_SIZE - i,
        {
            chip.memory[FONTSET_START_ADDRESS as usize + i] = FONTSET[i];
            i += 1;
        }
        chip
    }

    /// Copies a program image into memory from address `0x200` on. An image
    /// of more than 3584 bytes is refused before anything is written.
    pub fn load_rom(&mut self, rom: &[u8]) -> (res: Result<(), RomTooLarge>)
        ensures
            res is Err <==> rom@.len() > MAX_ROM_SIZE,
            res is Err ==> *final(self) == *old(self),
            res is Ok ==> final(self)@ == old(self)@.load(rom@),
            final(self).generator == old(self).generator,
    {
        if rom.len() > MAX_ROM_SIZE {
            return Err(RomTooLarge);
        }
        let mut i: usize = 0;
        while i < rom.len()
            invariant
                i <= rom@.len() <= MAX_ROM_SIZE,
                self@ == old(self)@.load(rom@.take(i as int)),
                self.generator == old(self).generator,
            decreases rom.len() - i,
        {
            self.memory[START_ADDRESS as usize + i] = rom[i];
            i += 1;
        }
        assert(rom@.take(i as int) == rom@);
        Ok(())
    }

    /// One tick of the 60 Hz clock: each timer that is not zero goes down by
    /// one.
    pub fn tick_timers(&mut self)
        ensures
            final(self)@ == old(self)@.tick_timers(),
            final(self).generator == old(self).generator,
    {
        if self.delay_timer > 0 {
            self.delay_timer -= 1;
        }
        if self.sound_timer > 0 {
            self.sound_timer -= 1;
        }
    }

    /// Records that key `key` is pressed or released.
    pub fn set_key(&mut self, key: usize, pressed: bool)
        requires
            key < 16,
        ensures
            final(self)@ == old(self)@.set_key(key as int, pressed),
            final(self).generator == old(self).generator,
    {
        self.keypad[key] = pressed;
    }

    /// The framebuffer: 32 rows of 64 cells, row by row.
    pub fn framebuffer(&self) -> (cells: &[bool; 2048])
        ensures
            cells@ == self@.video,
    {
        &self.video
    }

    /// Whether the sound timer is running, which is when the host should
    /// sound its tone.
    pub fn sound_timer_active(&self) -> (active: bool)
        ensures
            active == (self@.sound_timer > 0),
    {
        self.sound_timer > 0
    }
}

} // verus!
