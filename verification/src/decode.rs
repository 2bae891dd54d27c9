//! Instruction words and their fields.
//!
//! An instruction is a 16-bit word. Its top four bits select a family; the
//! families `0x0`, `0x8`, `0xE` and `0xF` select a second time on a residual
//! field. The fields are stated arithmetically and computed with masks and
//! shifts.

use vstd::prelude::*;

verus! {

/// The top four bits of an instruction word: its family.
pub open spec fn spec_family(opcode: u16) -> u8 {
    (opcode / 0x1000) as u8
}

/// Bits 8-11: the first register operand.
pub open spec fn spec_x(opcode: u16) -> usize {
    ((opcode / 0x100) % 0x10) as usize
}

/// Bits 4-7: the second register operand.
pub open spec fn spec_y(opcode: u16) -> usize {
    ((opcode / 0x10) % 0x10) as usize
}

/// Bits 0-3: a four-bit immediate, or the selector inside family `0x8`.
pub open spec fn spec_n(opcode: u16) -> u8 {
    (opcode % 0x10) as u8
}

/// Bits 0-7: an eight-bit immediate, or the selector inside the families
/// `0x0`, `0xE` and `0xF`.
pub open spec fn spec_kk(opcode: u16) -> u8 {
    (opcode % 0x100) as u8
}

/// Bits 0-11: a twelve-bit address.
pub open spec fn spec_nnn(opcode: u16) -> u16 {
    opcode % 0x1000
}

/// The word made of two consecutive bytes, the first one the more significant.
pub open spec fn spec_word(high: u8, low: u8) -> u16 {
    (high * 0x100 + low) as u16
}

#[verifier::when_used_as_spec(spec_family)]
pub fn family(opcode: u16) -> (f: u8)
    ensures
        f == spec_family(opcode),
        f < 16,
{
    assert(opcode >> 12 == opcode / 0x1000) by (bit_vector);
    (opcode >> 12) as u8
}

#[verifier::when_used_as_spec(spec_x)]
pub fn x(opcode: u16) -> (r: usize)
    ensures
        r == spec_x(opcode),
        r < 16,
{
    assert((opcode & 0x0F00) >> 8 == (opcode / 0x100) % 0x10) by (bit_vector);
    ((opcode & 0x0F00) >> 8) as usize
}

#[verifier::when_used_as_spec(spec_y)]
pub fn y(opcode: u16) -> (r: usize)
    ensures
        r == spec_y(opcode),
        r < 16,
{
    assert((opcode & 0x00F0) >> 4 == (opcode / 0x10) % 0x10) by (bit_vector);
    ((opcode & 0x00F0) >> 4) as usize
}

#[verifier::when_used_as_spec(spec_n)]
pub fn n(opcode: u16) -> (r: u8)
    ensures
        r == spec_n(opcode),
        r < 16,
{
    assert(opcode & 0x000F == opcode % 0x10) by (bit_vector);
    (opcode & 0x000F) as u8
}

#[verifier::when_used_as_spec(spec_kk)]
pub fn kk(opcode: u16) -> (r: u8)
    ensures
        r == spec_kk(opcode),
{
    assert(opcode & 0x00FF == opcode % 0x100) by (bit_vector);
    (opcode & 0x00FF) as u8
}

#[verifier::when_used_as_spec(spec_nnn)]
pub fn nnn(opcode: u16) -> (r: u16)
    ensures
        r == spec_nnn(opcode),
        r < 0x1000,
{
    assert(opcode & 0x0FFF == opcode % 0x1000) by (bit_vector);
    opcode & 0x0FFF
}

#[verifier::when_used_as_spec(spec_word)]
pub fn word(high: u8, low: u8) -> (w: u16)
    ensures
        w == spec_word(high, low),
{
    assert(((high as u16) << 8) | (low as u16) == high * 0x100 + low) by (bit_vector);
    ((high as u16) << 8) | (low as u16)
}

/// The instructions of the machine, without their operands.
#[derive(Clone, Copy, Debug, PartialEq, Eq, Structural)]
pub enum Instruction {
    /// `00E0`: clear the framebuffer.
    Cls,
    /// `00EE`: return from a subroutine.
    Ret,
    /// `1nnn`: jump to `nnn`.
    Jp,
    /// `2nnn`: call the subroutine at `nnn`.
    Call,
    /// `3xkk`: skip the next instruction if `Vx == kk`.
    SeByte,
    /// `4xkk`: skip the next instruction if `Vx != kk`.
    SneByte,
    /// `5xy_`: skip the next instruction if `Vx == Vy`.
    SeReg,
    /// `6xkk`: `Vx = kk`.
    LdByte,
    /// `7xkk`: `Vx = Vx + kk`, no flag.
    AddByte,
    /// `8xy0`: `Vx = Vy`.
    LdReg,
    /// `8xy1`: `Vx = Vx | Vy`.
    Or,
    /// `8xy2`: `Vx = Vx & Vy`.
    And,
    /// `8xy3`: `Vx = Vx ^ Vy`.
    Xor,
    /// `8xy4`: `Vx = Vx + Vy`, `VF` = carry.
    AddReg,
    /// `8xy5`: `Vx = Vx - Vy`, `VF` = no borrow.
    Sub,
    /// `8xy6`: `Vx = Vx >> 1`, `VF` = the bit shifted out.
    Shr,
    /// `8xy7`: `Vx = Vy - Vx`, `VF` = no borrow.
    Subn,
    /// `8xyE`: `Vx = Vx << 1`, `VF` = the bit shifted out.
    Shl,
    /// `9xy_`: skip the next instruction if `Vx != Vy`.
    SneReg,
    /// `Annn`: `I = nnn`.
    LdIndex,
    /// `Bnnn`: jump to `V0 + nnn`.
    JpOffset,
    /// `Cxkk`: `Vx = random & kk`.
    Rnd,
    /// `Dxyn`: draw an `n`-row sprite at `(Vx, Vy)`, `VF` = collision.
    Drw,
    /// `Ex9E`: skip the next instruction if key `Vx` is pressed.
    Skp,
    /// `ExA1`: skip the next instruction if key `Vx` is not pressed.
    Sknp,
    /// `Fx07`: `Vx` = delay timer.
    LdFromDelay,
    /// `Fx0A`: wait for a key press and store the key in `Vx`.
    LdKey,
    /// `Fx15`: delay timer = `Vx`.
    LdDelay,
    /// `Fx18`: sound timer = `Vx`.
    LdSound,
    /// `Fx1E`: `I = I + Vx`.
    AddIndex,
    /// `Fx29`: `I` = address of the glyph for `Vx`.
    LdGlyph,
    /// `Fx33`: store the three decimal digits of `Vx` at `I`.
    LdBcd,
    /// `Fx55`: store `V0..=Vx` at `I`.
    StoreRegs,
    /// `Fx65`: load `V0..=Vx` from `I`.
    LoadRegs,
}

impl Instruction {
    /// Whether the program counter moves on by one instruction after this
    /// one. It does after every instruction that does not set the program
    /// counter itself: all but the two jumps, the call, the return, and the
    /// start of a key wait, which holds the program counter until a key is
    /// seen.
    pub open spec fn spec_advances(&self) -> bool {
        match self {
            Instruction::Jp => false,
            Instruction::JpOffset => false,
            Instruction::Call => false,
            Instruction::Ret => false,
            Instruction::LdKey => false,
            _ => true,
        }
    }

    /// Whether the program counter moves on by one instruction after this
    /// one.
    #[verifier::when_used_as_spec(spec_advances)]
    pub fn advances(&self) -> (moves: bool)
        ensures
            moves == self.spec_advances(),
    {
        match self {
            Instruction::Jp => false,
            Instruction::JpOffset => false,
            Instruction::Call => false,
            Instruction::Ret => false,
            Instruction::LdKey => false,
            _ => true,
        }
    }
}

/// The instruction that a word denotes, if any. The first selection is on the
/// family; the families `0x0`, `0xE` and `0xF` select again on the low byte,
/// family `0x8` on the low four bits.
pub open spec fn spec_decode(opcode: u16) -> Option<Instruction> {
    match spec_family(opcode) {
        0x0 => spec_decode_0(spec_kk(opcode)),
        0x1 => Some(Instruction::Jp),
        0x2 => Some(Instruction::Call),
        0x3 => Some(Instruction::SeByte),
        0x4 => Some(Instruction::SneByte),
        0x5 => Some(Instruction::SeReg),
        0x6 => Some(Instruction::LdByte),
        0x7 => Some(Instruction::AddByte),
        0x8 => spec_decode_8(spec_n(opcode)),
        0x9 => Some(Instruction::SneReg),
        0xA => Some(Instruction::LdIndex),
        0xB => Some(Instruction::JpOffset),
        0xC => Some(Instruction::Rnd),
        0xD => Some(Instruction::Drw),
        0xE => spec_decode_e(spec_kk(opcode)),
        _ => spec_decode_f(spec_kk(opcode)),
    }
}

/// Family `0x0`, selected by the low byte.
pub open spec fn spec_decode_0(selector: u8) -> Option<Instruction> {
    match selector {
        0xE0 => Some(Instruction::Cls),
        0xEE => Some(Instruction::Ret),
        _ => None,
    }
}

/// Family `0x8`, selected by the low four bits.
pub open spec fn spec_decode_8(selector: u8) -> Option<Instruction> {
    match selector {
        0x0 => Some(Instruction::LdReg),
        0x1 => Some(Instruction::Or),
        0x2 => Some(Instruction::And),
        0x3 => Some(Instruction::Xor),
        0x4 => Some(Instruction::AddReg),
        0x5 => Some(Instruction::Sub),
        0x6 => Some(Instruction::Shr),
        0x7 => Some(Instruction::Subn),
        0xE => Some(Instruction::Shl),
        _ => None,
    }
}

/// Family `0xE`, selected by the low byte.
pub open spec fn spec_decode_e(selector: u8) -> Option<Instruction> {
    match selector {
        0x9E => Some(Instruction::Skp),
        0xA1 => Some(Instruction::Sknp),
        _ => None,
    }
}

/// Family `0xF`, selected by the low byte.
pub open spec fn spec_decode_f(selector: u8) -> Option<Instruction> {
    match selector {
        0x07 => Some(Instruction::LdFromDelay),
        0x0A => Some(Instruction::LdKey),
        0x15 => Some(Instruction::LdDelay),
        0x18 => Some(Instruction::LdSound),
        0x1E => Some(Instruction::AddIndex),
        0x29 => Some(Instruction::LdGlyph),
        0x33 => Some(Instruction::LdBcd),
        0x55 => Some(Instruction::StoreRegs),
        0x65 => Some(Instruction::LoadRegs),
        _ => None,
    }
}

fn decode_0(selector: u8) -> (r: Option<Instruction>)
    ensures
        r == spec_decode_0(selector),
{
    match selector {
        0xE0 => Some(Instruction::Cls),
        0xEE => Some(Instruction::Ret),
        _ => None,
    }
}

fn decode_8(selector: u8) -> (r: Option<Instruction>)
    ensures
        r == spec_decode_8(selector),
{
    match selector {
        0x0 => Some(Instruction::LdReg),
        0x1 => Some(Instruction::Or),
        0x2 => Some(Instruction::And),
        0x3 => Some(Instruction::Xor),
        0x4 => Some(Instruction::AddReg),
        0x5 => Some(Instruction::Sub),
        0x6 => Some(Instruction::Shr),
        0x7 => Some(Instruction::Subn),
        0xE => Some(Instruction::Shl),
        _ => None,
    }
}

fn decode_e(selector: u8) -> (r: Option<Instruction>)
    ensures
        r == spec_decode_e(selector),
{
    match selector {
        0x9E => Some(Instruction::Skp),
        0xA1 => Some(Instruction::Sknp),
        _ => None,
    }
}

fn decode_f(selector: u8) -> (r: Option<Instruction>)
    ensures
        r == spec_decode_f(selector),
{
    match selector {
        0x07 => Some(Instruction::LdFromDelay),
        0x0A => Some(Instruction::LdKey),
        0x15 => Some(Instruction::LdDelay),
        0x18 => Some(Instruction::LdSound),
        0x1E => Some(Instruction::AddIndex),
        0x29 => Some(Instruction::LdGlyph),
        0x33 => Some(Instruction::LdBcd),
        0x55 => Some(Instruction::StoreRegs),
        0x65 => Some(Instruction::LoadRegs),
        _ => None,
    }
}

/// Decodes an instruction word. Every word has its fields; `None` is returned
/// for a word that matches no instruction of its family.
#[verifier::when_used_as_spec(spec_decode)]
pub fn decode(opcode: u16) -> (r: Option<Instruction>)
    ensures
        r == spec_decode(opcode),
{
    match family(opcode) {
        0x0 => decode_0(kk(opcode)),
        0x1 => Some(Instruction::Jp),
        0x2 => Some(Instruction::Call),
        0x3 => Some(Instruction::SeByte),
        0x4 => Some(Instruction::SneByte),
        0x5 => Some(Instruction::SeReg),
        0x6 => Some(Instruction::LdByte),
        0x7 => Some(Instruction::AddByte),
        0x8 => decode_8(n(opcode)),
        0x9 => Some(Instruction::SneReg),
        0xA => Some(Instruction::LdIndex),
        0xB => Some(Instruction::JpOffset),
        0xC => Some(Instruction::Rnd),
        0xD => Some(Instruction::Drw),
        0xE => decode_e(kk(opcode)),
        _ => decode_f(kk(opcode)),
    }
}

} // verus!
