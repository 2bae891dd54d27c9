//! The sprite instruction.
//!
//! A sprite is `n` bytes at `I`, one byte per row, the leftmost pixel in the
//! highest bit. Its origin is `(Vx mod 64, Vy mod 64)`; each pixel is placed
//! on its own, its column wrapping at the right edge of the framebuffer and
//! its row at the bottom edge. Since a sprite has at most fifteen rows of
//! eight pixels, no two of its pixels land on the same cell, which lets the
//! model say for each cell on its own whether the sprite toggles it.

use crate::chip8::Chip8;
use crate::decode;
use crate::decode::spec_n;
use crate::machine::{Machine, VIDEO_HEIGHT, VIDEO_WIDTH};
use vstd::prelude::*;

verus! {

impl Machine {
    /// The column of the sprite's origin.
    pub open spec fn origin_x(self) -> int {
        (self.vx() % 64) as int
    }

    /// The row of the sprite's origin, before it wraps at the bottom edge.
    pub open spec fn origin_y(self) -> int {
        (self.vy() % 64) as int
    }

    /// Whether the sprite at `I` has a lit pixel in its row `row` and its
    /// column `column`, column 0 being the leftmost.
    pub open spec fn sprite_pixel(self, row: int, column: int) -> bool {
        self.memory[self.index + row] & (0x80u8 >> (column as u8)) != 0
    }

    /// The framebuffer cell on which the sprite's pixel at `(row, column)`
    /// is placed.
    pub open spec fn pixel_cell(self, row: int, column: int) -> int {
        ((self.origin_y() + row) % 32) * 64 + (self.origin_x() + column) % 64
    }

    /// The row of the sprite that is placed on the framebuffer row of `cell`.
    pub open spec fn sprite_row_of(self, cell: int) -> int {
        (cell / 64 - self.origin_y()) % 32
    }

    /// The column of the sprite that is placed on the framebuffer column of
    /// `cell`.
    pub open spec fn sprite_column_of(self, cell: int) -> int {
        (cell % 64 - self.origin_x()) % 64
    }

    /// Whether the sprite toggles `cell`: a lit pixel of one of its `n` rows
    /// is placed there.
    pub open spec fn sprite_covers(self, cell: int) -> bool {
        &&& self.sprite_row_of(cell) < spec_n(self.opcode)
        &&& self.sprite_column_of(cell) < 8
        &&& self.sprite_pixel(self.sprite_row_of(cell), self.sprite_column_of(cell))

    }

    /// Whether drawing the sprite turns a lit cell off.
    pub open spec fn collision(self) -> bool {
        exists|cell: int| 0 <= cell < 2048 && self.video[cell] && #[trigger] self.sprite_covers(cell)
    }

    /// The framebuffer after the sprite has been drawn onto it by exclusive
    /// or.
    pub open spec fn drawn(self) -> Seq<bool> {
        Seq::new(2048, |cell: int| self.video[cell] != self.sprite_covers(cell))
    }

    /// `Dxyn`, DRW Vx, Vy, n: the sprite is drawn and `VF` tells whether a lit
    /// cell was turned off.
    pub open spec fn op_dxyn(self) -> Machine {
        Machine {
            video: self.drawn(),
            registers: self.registers.update(0xF, if self.collision() { 1u8 } else { 0u8 }),
            ..self
        }
    }

    /// Whether the sprite toggles `cell` with one of the pixels that come
    /// before `(row, column)` when the sprite is walked row by row.
    spec fn covers_before(self, cell: int, row: int, column: int) -> bool {
        &&& self.sprite_covers(cell)
        &&& (self.sprite_row_of(cell) < row || (self.sprite_row_of(cell) == row
            && self.sprite_column_of(cell) < column))
    }

    /// Whether one of the pixels before `(row, column)` turns a lit cell off.
    spec fn collision_before(self, row: int, column: int) -> bool {
        exists|cell: int|
            0 <= cell < 2048 && self.video[cell] && #[trigger] self.covers_before(cell, row, column)
    }

    /// Placing a pixel and looking a cell up in the sprite are inverse to each
    /// other: `(row, column)` is placed on `cell` exactly when `cell` looks
    /// up `(row, column)`.
    pub proof fn lemma_pixel_cell_inverse(self, row: int, column: int, cell: int)
        requires
            0 <= row < 32,
            0 <= column < 64,
            0 <= cell < 2048,
        ensures
            0 <= self.pixel_cell(row, column) < 2048,
            0 <= self.sprite_row_of(cell) < 32,
            0 <= self.sprite_column_of(cell) < 64,
            self.pixel_cell(row, column) == cell <==> self.sprite_row_of(cell) == row
                && self.sprite_column_of(cell) == column,
    {
        let placed_row: int = (self.origin_y() + row) % 32;
        let placed_column: int = (self.origin_x() + column) % 64;
        lemma_wrap_rows(self.origin_y(), row, cell / 64);
        lemma_wrap_columns(self.origin_x(), column, cell % 64);
        assert(self.pixel_cell(row, column) == placed_row * 64 + placed_column);
        assert(placed_row * 64 + placed_column == cell <==> placed_row == cell / 64
            && placed_column == cell % 64);
    }
}

/// Moving down by `offset` rows from `origin` ends on row `position` exactly
/// when `position` lies `offset` rows below `origin`, both taken modulo the 32
/// rows of the framebuffer.
proof fn lemma_wrap_rows(origin: int, offset: int, position: int)
    requires
        0 <= origin,
        0 <= offset < 32,
        0 <= position < 32,
    ensures
        0 <= (origin + offset) % 32 < 32,
        0 <= (position - origin) % 32 < 32,
        (origin + offset) % 32 == position <==> (position - origin) % 32 == offset,
{
}

/// Moving right by `offset` columns from `origin` ends on column `position`
/// exactly when `position` lies `offset` columns right of `origin`, both taken
/// modulo the 64 columns of the framebuffer.
proof fn lemma_wrap_columns(origin: int, offset: int, position: int)
    requires
        0 <= origin,
        0 <= offset < 64,
        0 <= position < 64,
    ensures
        0 <= (origin + offset) % 64 < 64,
        0 <= (position - origin) % 64 < 64,
        (origin + offset) % 64 == position <==> (position - origin) % 64 == offset,
{
}

impl Chip8 {
    /// `Dxyn`, DRW Vx, Vy, n: draws the `n`-row sprite at `I` onto the
    /// framebuffer by exclusive or, its origin at `(Vx mod 64, Vy mod 64)`,
    /// each pixel wrapping at the right and at the bottom edge. `VF` becomes 1
    /// if a lit cell was turned off and 0 otherwise.
    pub fn op_dxyn(&mut self)
        requires
            old(self).index + decode::n(old(self).opcode) <= 4096,
        ensures
            final(self)@ == old(self)@.op_dxyn(),
            final(self).generator == old(self).generator,
    {
        let vx: usize = decode::x(self.opcode);
        let vy: usize = decode::y(self.opcode);
        let height: usize = decode::n(self.opcode) as usize;
        let origin_x: usize = (self.registers[vx] % 64) as usize;
        let origin_y: usize = (self.registers[vy] % 64) as usize;
        let at: usize = self.index as usize;
        let ghost before: Machine = self@;
        let mut collided: bool = false;
        let mut row: usize = 0;
        while row < height
            invariant
                row <= height == spec_n(before.opcode) < 16,
                at == before.index,
                at + height <= 4096,
                origin_x == before.origin_x(),
                origin_y == before.origin_y(),
                before == old(self)@,
                self.memory == old(self).memory,
                self.registers == old(self).registers,
                self.index == old(self).index,
                self.pc == old(self).pc,
                self.stack == old(self).stack,
                self.sp == old(self).sp,
                self.delay_timer == old(self).delay_timer,
                self.sound_timer == old(self).sound_timer,
                self.keypad == old(self).keypad,
                self.opcode == old(self).opcode,
                self.state == old(self).state,
                self.latched == old(self).latched,
                self.generator == old(self).generator,
                forall|cell: int|
                    0 <= cell < 2048 ==> self.video@[cell] == (before.video[cell]
                        != before.covers_before(cell, row as int, 0)),
                collided == before.collision_before(row as int, 0),
            decreases height - row,
        {
            let sprite_byte: u8 = self.memory[at + row];
            let mut column: u8 = 0;
            while column < 8
                invariant
                    row < height == spec_n(before.opcode) < 16,
                    column <= 8,
                    at == before.index,
                    at + height <= 4096,
                    origin_x == before.origin_x(),
                    origin_y == before.origin_y(),
                    sprite_byte == before.memory[at + row],
                    before == old(self)@,
                    self.memory == old(self).memory,
                    self.registers == old(self).registers,
                    self.index == old(self).index,
                    self.pc == old(self).pc,
                    self.stack == old(self).stack,
                    self.sp == old(self).sp,
                    self.delay_timer == old(self).delay_timer,
                    self.sound_timer == old(self).sound_timer,
                    self.keypad == old(self).keypad,
                    self.opcode == old(self).opcode,
                    self.state == old(self).state,
                    self.latched == old(self).latched,
                    self.generator == old(self).generator,
                    forall|cell: int|
                        0 <= cell < 2048 ==> self.video@[cell] == (before.video[cell]
                            != before.covers_before(cell, row as int, column as int)),
                    collided == before.collision_before(row as int, column as int),
                decreases 8 - column,
            {
                let ghost target: int = before.pixel_cell(row as int, column as int);
                let ghost lit: bool = before.sprite_pixel(row as int, column as int);
                let ghost earlier: bool = collided;
                proof {
                    before.lemma_pixel_cell_inverse(row as int, column as int, target);
                    assert forall|cell: int| 0 <= cell < 2048 implies before.covers_before(
                        cell,
                        row as int,
                        column + 1,
                    ) == (before.covers_before(cell, row as int, column as int) || (cell == target
                        && lit)) by {
                        before.lemma_pixel_cell_inverse(row as int, column as int, cell);
                    }
                }
                if sprite_byte & (0x80u8 >> column) != 0 {
                    let cell: usize = ((origin_y + row) % VIDEO_HEIGHT) * VIDEO_WIDTH + (origin_x
                        + column as usize) % VIDEO_WIDTH;
                    if self.video[cell] {
                        collided = true;
                    }
                    self.video[cell] = !self.video[cell];
                }
                proof {
                    assert(lit == (sprite_byte & (0x80u8 >> column) != 0));
                    assert(!before.covers_before(target, row as int, column as int));
                    if collided {
                        if earlier {
                            let witness = choose|cell: int|
                                0 <= cell < 2048 && before.video[cell]
                                    && #[trigger] before.covers_before(
                                    cell,
                                    row as int,
                                    column as int,
                                );
                            assert(before.covers_before(witness, row as int, column + 1));
                        } else {
                            assert(before.covers_before(target, row as int, column + 1));
                        }
                        assert(before.collision_before(row as int, column + 1));
                    }
                    if before.collision_before(row as int, column + 1) {
                        let witness = choose|cell: int|
                            0 <= cell < 2048 && before.video[cell]
                                && #[trigger] before.covers_before(cell, row as int, column + 1);
                        if before.covers_before(witness, row as int, column as int) {
                            assert(earlier);
                        }
                        assert(collided);
                    }
                }
                column += 1;
            }
            proof {
                assert forall|cell: int| 0 <= cell < 2048 implies before.covers_before(
                    cell,
                    row as int,
                    8,
                ) == before.covers_before(cell, row + 1, 0) by {}
                assert(before.collision_before(row as int, 8) == before.collision_before(
                    row + 1,
                    0,
                )) by {
                    if before.collision_before(row as int, 8) {
                        let witness = choose|cell: int|
                            0 <= cell < 2048 && before.video[cell]
                                && #[trigger] before.covers_before(cell, row as int, 8);
                        assert(before.covers_before(witness, row + 1, 0));
                    }
                    if before.collision_before(row + 1, 0) {
                        let witness = choose|cell: int|
                            0 <= cell < 2048 && before.video[cell]
                                && #[trigger] before.covers_before(cell, row + 1, 0);
                        assert(before.covers_before(witness, row as int, 8));
                    }
                }
            }
            row += 1;
        }
        proof {
            assert forall|cell: int| 0 <= cell < 2048 implies before.covers_before(
                cell,
                height as int,
                0,
            ) == before.sprite_covers(cell) by {}
            assert(before.collision_before(height as int, 0) == before.collision()) by {
                if before.collision_before(height as int, 0) {
                    let witness = choose|cell: int|
                        0 <= cell < 2048 && before.video[cell]
                            && #[trigger] before.covers_before(cell, height as int, 0);
                    assert(before.sprite_covers(witness));
                }
                if before.collision() {
                    let witness = choose|cell: int|
                        0 <= cell < 2048 && before.video[cell] && #[trigger] before.sprite_covers(
                            cell,
                        );
                    assert(before.covers_before(witness, height as int, 0));
                }
            }
            assert(self.video@ =~= before.drawn());
        }
        if collided {
            self.registers[0xF] = 1;
        } else {
            self.registers[0xF] = 0;
        }
    }
}

} // verus!
