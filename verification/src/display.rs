use crate::decode::{imm4, reg_x, reg_y};
use crate::fault::ErrorKind;
use crate::machine::Core;
use crate::state::State;
use vstd::prelude::*;

verus! {

/// Width of the display in pixels.
pub const SCREEN_X: usize = 64;

/// Height of the display in pixels.
pub const SCREEN_Y: usize = 32;

/// Number of bytes in the packed frame buffer: eight byte columns of
/// thirty-two rows. The byte of column `c` and row `r` is at `c * 32 + r`;
/// its most significant bit is the leftmost of its eight pixels.
pub const FRAME_BYTES: usize = 256;

/// The byte column that holds the leftmost pixel of a sprite drawn at
/// horizontal position `x`. Positions beyond the right edge wrap around.
pub open spec fn lead_column(x: u8) -> int {
    (x as int / 8) % 8
}

/// The byte column to the right of the leading one, wrapping at the edge.
pub open spec fn overflow_column(x: u8) -> int {
    (lead_column(x) + 1) % 8
}

/// Whether a sprite drawn at `x` straddles two byte columns.
pub open spec fn spans_two_columns(x: u8) -> bool {
    x % 8 != 0
}

/// The part of sprite row `b` that falls into the leading column.
pub open spec fn lead_part(b: u8, x: u8) -> u8 {
    b >> (x % 8)
}

/// The part of sprite row `b` that spills into the overflow column.
pub open spec fn overflow_part(b: u8, x: u8) -> u8 {
    b << ((8 - x % 8) as u8)
}

/// The byte that drawing `rows` at `(x, y)` XORs into frame-buffer byte
/// `idx`: zero wherever the sprite does not reach.
pub open spec fn sprite_mask(rows: Seq<u8>, x: u8, y: u8, idx: int) -> u8 {
    let col = idx / 32;
    let row = idx % 32;
    if y <= row < y + rows.len() {
        if col == lead_column(x) {
            lead_part(rows[row - y], x)
        } else if spans_two_columns(x) && col == overflow_column(x) {
            overflow_part(rows[row - y], x)
        } else {
            0
        }
    } else {
        0
    }
}

/// The frame buffer after `rows` has been drawn onto `fb` at `(x, y)`.
pub open spec fn blit(fb: Seq<u8>, rows: Seq<u8>, x: u8, y: u8) -> Seq<u8> {
    Seq::new(256, |idx: int| fb[idx] ^ sprite_mask(rows, x, y, idx))
}

/// Whether drawing `rows` onto `fb` at `(x, y)` meets a pixel that is
/// already lit: some incoming bit lands on a set bit of its target byte, as
/// that byte stands before the draw.
pub open spec fn collides(fb: Seq<u8>, rows: Seq<u8>, x: u8, y: u8) -> bool {
    exists|idx: int| 0 <= idx < 256 && #[trigger] hits(fb, rows, x, y, idx)
}

/// Whether the draw collides at frame-buffer byte `idx`.
pub open spec fn hits(fb: Seq<u8>, rows: Seq<u8>, x: u8, y: u8, idx: int) -> bool {
    fb[idx] & sprite_mask(rows, x, y, idx) != 0
}

/// A frame buffer with every pixel dark.
pub open spec fn blank() -> Seq<u8> {
    Seq::new(256, |idx: int| 0u8)
}

/// Bit `pos` of byte `b`, counted from the most significant bit, which
/// shows the leftmost of the byte's eight pixels.
pub open spec fn bit_of(b: u8, pos: u8) -> bool {
    (b >> ((7 - pos) as u8)) & 1 == 1
}

/// Whether the pixel in column `px` (0 to 63) and row `py` (0 to 31) is lit.
pub open spec fn pixel(fb: Seq<u8>, px: int, py: int) -> bool {
    bit_of(fb[(px / 8) * 32 + py], (px % 8) as u8)
}

/// Whether the sprite `rows`, drawn at `(x, y)`, has a set bit over the
/// pixel `(px, py)`. Row `k` of the sprite lies on display row `y + k`; its
/// eight bits lie on the columns `x` to `x + 7`, counted modulo the width
/// of the display.
pub open spec fn sprite_covers(rows: Seq<u8>, x: u8, y: u8, px: int, py: int) -> bool {
    let dx = (px - x) % 64;
    &&& y <= py < y + rows.len()
    &&& dx < 8
    &&& bit_of(rows[py - y], dx as u8)
}

/// Whether byte `idx` has a bit that is clear in `before` and set in `after`.
pub open spec fn lit_between(before: Seq<u8>, after: Seq<u8>, idx: int) -> bool {
    !before[idx] & after[idx] != 0
}

/// Zero is neutral for XOR and absorbing for AND.
pub(crate) proof fn lemma_xor_zero(a: u8)
    ensures
        a ^ 0 == a,
        a & 0 == 0,
{
    assert(a ^ 0 == a) by (bit_vector);
    assert(a & 0 == 0) by (bit_vector);
}

/// Drawing no rows changes nothing and collides with nothing.
pub proof fn lemma_blit_nothing(fb: Seq<u8>, x: u8, y: u8)
    requires
        fb.len() == 256,
    ensures
        blit(fb, Seq::<u8>::empty(), x, y) == fb,
        !collides(fb, Seq::<u8>::empty(), x, y),
{
    let none = Seq::<u8>::empty();
    assert forall|idx: int| 0 <= idx < 256 implies (#[trigger] fb[idx]) ^ sprite_mask(
        none,
        x,
        y,
        idx,
    ) == fb[idx] && !hits(fb, none, x, y, idx) by {
        lemma_xor_zero(fb[idx]);
    }
    assert(blit(fb, none, x, y) =~= fb);
}

/// Extending a sprite by one row changes the mask only in that row, where
/// it had been zero.
proof fn lemma_mask_grows(rows: Seq<u8>, k: int, x: u8, y: u8, idx: int)
    requires
        0 <= k < rows.len(),
        y + rows.len() <= 32,
        0 <= idx < 256,
    ensures
        idx % 32 != y + k ==> sprite_mask(rows.take(k + 1), x, y, idx) == sprite_mask(
            rows.take(k),
            x,
            y,
            idx,
        ),
        idx % 32 == y + k ==> sprite_mask(rows.take(k), x, y, idx) == 0,
        idx == lead_column(x) * 32 + y + k ==> sprite_mask(rows.take(k + 1), x, y, idx)
            == lead_part(rows[k], x),
        spans_two_columns(x) && idx == overflow_column(x) * 32 + y + k ==> sprite_mask(
            rows.take(k + 1),
            x,
            y,
            idx,
        ) == overflow_part(rows[k], x),
        idx % 32 == y + k && idx / 32 != lead_column(x) && !(spans_two_columns(x) && idx / 32
            == overflow_column(x)) ==> sprite_mask(rows.take(k + 1), x, y, idx) == 0,
{
}

/// Draws the `height` sprite rows found at `memory[start..]` onto the frame
/// buffer at pixel position `(x, y)`. Each row is XORed into the byte of
/// the leading column and, where `x` is not a multiple of eight, into the
/// byte of the next column, which wraps at the right edge. Each target byte
/// is tested for a collision before it is written. Returns whether any row,
/// in either column, collided.
pub fn blit_sprite(
    fb: &mut [u8; 256],
    memory: &[u8; 4096],
    start: usize,
    height: usize,
    x: u8,
    y: u8,
) -> (hit: bool)
    requires
        start + height <= 4096,
        y + height <= 32,
    ensures
        final(fb)@ == blit(old(fb)@, memory@.subrange(start as int, start + height), x, y),
        hit == collides(old(fb)@, memory@.subrange(start as int, start + height), x, y),
{
    let shift: u8 = x % 8;
    let lead: usize = (x / 8) as usize % 8;
    let overflow: usize = (lead + 1) % 8;
    let ghost rows = memory@.subrange(start as int, start + height);
    let mut hit = false;
    let mut k: usize = 0;
    proof {
        assert(rows.take(0) =~= Seq::<u8>::empty());
        lemma_blit_nothing(fb@, x, y);
    }
    while k < height
        invariant
            k <= height,
            start + height <= 4096,
            y + height <= 32,
            shift == x % 8,
            lead == lead_column(x),
            overflow == overflow_column(x),
            rows == memory@.subrange(start as int, start + height),
            fb@ == blit(old(fb)@, rows.take(k as int), x, y),
            hit == collides(old(fb)@, rows.take(k as int), x, y),
        decreases height - k,
    {
        let row: usize = y as usize + k;
        let sprite_byte: u8 = memory[start + k];
        let ghost before = fb@;
        let ghost done = rows.take(k as int);
        let ghost next = rows.take(k + 1);
        let mut row_hit = false;

        let idx: usize = 32 * lead + row;
        let part: u8 = sprite_byte >> shift;
        if fb[idx] & part != 0 {
            row_hit = true;
        }
        fb[idx] = fb[idx] ^ part;

        if shift > 0 {
            let idx: usize = 32 * overflow + row;
            let part: u8 = sprite_byte << (8 - shift);
            if fb[idx] & part != 0 {
                row_hit = true;
            }
            fb[idx] = fb[idx] ^ part;
        }
        proof {
            let orig = old(fb)@;
            let i0 = lead_column(x) * 32 + y + k;
            let i1 = overflow_column(x) * 32 + y + k;
            assert(rows[k as int] == sprite_byte);
            assert forall|j: int| 0 <= j < 256 implies #[trigger] fb@[j] == orig[j] ^ sprite_mask(
                next,
                x,
                y,
                j,
            ) by {
                lemma_mask_grows(rows, k as int, x, y, j);
                lemma_xor_zero(orig[j]);
                assert(before[j] == orig[j] ^ sprite_mask(done, x, y, j));
            }
            assert(fb@ =~= blit(orig, next, x, y));
            assert forall|j: int| 0 <= j < 256 && j != i0 && !(spans_two_columns(x) && j
                == i1) implies hits(orig, next, x, y, j) == hits(orig, done, x, y, j) by {
                lemma_mask_grows(rows, k as int, x, y, j);
                lemma_xor_zero(orig[j]);
            }
            lemma_mask_grows(rows, k as int, x, y, i0);
            lemma_mask_grows(rows, k as int, x, y, i1);
            lemma_xor_zero(orig[i0]);
            lemma_xor_zero(orig[i1]);
            assert(before[i0] == orig[i0] ^ sprite_mask(done, x, y, i0));
            assert(before[i1] == orig[i1] ^ sprite_mask(done, x, y, i1));
            assert(!hits(orig, done, x, y, i0));
            assert(!hits(orig, done, x, y, i1));
            assert(row_hit == (hits(orig, next, x, y, i0) || (spans_two_columns(x) && hits(
                orig,
                next,
                x,
                y,
                i1,
            ))));
            if collides(orig, next, x, y) {
                let j = choose|j: int| 0 <= j < 256 && #[trigger] hits(orig, next, x, y, j);
                assert(hit || row_hit);
            }
            if hit {
                let j = choose|j: int| 0 <= j < 256 && #[trigger] hits(orig, done, x, y, j);
                assert(hits(orig, next, x, y, j));
            }
        }
        if row_hit {
            hit = true;
        }
        k += 1;
    }
    assert(rows.take(height as int) =~= rows);
    hit
}

impl Core {
    /// `00E0`: clears the display.
    pub fn op_cls(&mut self, _inst: u16)
        ensures
            final(self)@ == old(self)@.cls(),
    {
        proof {
            use_type_invariant(&*self);
        }
        let mut k: usize = 0;
        while k < 256
            invariant
                k <= 256,
                self.inv(),
                self@ == (State { frame_buffer: self.frame_buffer@, ..old(self)@ }),
                forall|idx: int| 0 <= idx < k ==> self.frame_buffer@[idx] == 0,
            decreases 256 - k,
        {
            self.frame_buffer[k] = 0;
            k += 1;
        }
        assert(self.frame_buffer@ =~= blank());
    }

    /// `DXYN`: draws the N-row sprite found at I onto the display at pixel
    /// position (Vx, Vy) and then sets VF to 1 if the sprite collided with a
    /// lit pixel and to 0 otherwise. Fails with `OutOfBoundsAccess`,
    /// changing nothing, if a sprite row lies beyond memory or below the
    /// last row of the display.
    pub fn op_drw(&mut self, inst: u16) -> (r: Result<(), ErrorKind>)
        ensures
            old(self)@.ends_as(old(self)@.drw(inst), r, final(self)@),
    {
        proof {
            use_type_invariant(&*self);
        }
        let rx = reg_x(inst) as usize;
        let ry = reg_y(inst) as usize;
        let n = imm4(inst) as usize;

        let x = self.registers[rx];
        let y = self.registers[ry];
        let start = self.i as usize;

        if n > 0 && (start + n > 0x1000 || y as usize + n > SCREEN_Y) {
            return Err(ErrorKind::OutOfBoundsAccess);
        }
        if n == 0 {
            proof {
                assert(old(self)@.sprite_rows(inst) =~= Seq::<u8>::empty());
                lemma_blit_nothing(self.frame_buffer@, x, y);
            }
            self.registers[0xf] = 0;
            return Ok(());
        }
        assert(old(self)@.sprite_rows(inst) =~= self.memory@.subrange(start as int, start + n));
        let mut frame = self.frame_buffer;
        let hit = blit_sprite(&mut frame, &self.memory, start, n, x, y);
        self.frame_buffer = frame;
        self.registers[0xf] = if hit {
            1
        } else {
            0
        };
        Ok(())
    }
}

} // verus!
