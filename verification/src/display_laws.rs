use crate::display::{
    bit_of, blit, collides, hits, lead_column, lead_part, lemma_xor_zero, lit_between,
    overflow_column, overflow_part, pixel, spans_two_columns, sprite_covers, sprite_mask,
};
use vstd::prelude::*;

verus! {

/// Drawing the same rows twice at the same position gives back the frame
/// buffer as it was before the first draw.
pub proof fn law_blit_twice(fb: Seq<u8>, rows: Seq<u8>, x: u8, y: u8)
    requires
        fb.len() == 256,
    ensures
        blit(blit(fb, rows, x, y), rows, x, y) == fb,
{
    let once = blit(fb, rows, x, y);
    assert forall|idx: int| 0 <= idx < 256 implies #[trigger] once[idx] ^ sprite_mask(
        rows,
        x,
        y,
        idx,
    ) == fb[idx] by {
        let a = fb[idx];
        let m = sprite_mask(rows, x, y, idx);
        assert((a ^ m) ^ m == a) by (bit_vector);
    }
    assert(blit(once, rows, x, y) =~= fb);
}

/// The second of two identical draws collides exactly when the first one
/// lit a pixel.
pub proof fn law_second_draw_collides(fb: Seq<u8>, rows: Seq<u8>, x: u8, y: u8)
    requires
        fb.len() == 256,
    ensures
        collides(blit(fb, rows, x, y), rows, x, y) <==> exists|idx: int|
            0 <= idx < 256 && #[trigger] lit_between(fb, blit(fb, rows, x, y), idx),
{
    let once = blit(fb, rows, x, y);
    assert forall|idx: int| 0 <= idx < 256 implies #[trigger] hits(once, rows, x, y, idx)
        == lit_between(fb, once, idx) by {
        let a = fb[idx];
        let m = sprite_mask(rows, x, y, idx);
        assert(((a ^ m) & m != 0) == (!a & (a ^ m) != 0)) by (bit_vector);
    }
    if collides(once, rows, x, y) {
        let idx = choose|idx: int| 0 <= idx < 256 && #[trigger] hits(once, rows, x, y, idx);
        assert(lit_between(fb, once, idx));
    }
    if exists|idx: int| 0 <= idx < 256 && #[trigger] lit_between(fb, once, idx) {
        let idx = choose|idx: int| 0 <= idx < 256 && #[trigger] lit_between(fb, once, idx);
        assert(hits(once, rows, x, y, idx));
    }
}

/// A sprite drawn at a multiple of eight touches the bytes of one column
/// only: every byte of every other column, the overflow column among them,
/// stays as it is.
pub proof fn law_aligned_draw_stays_in_column(fb: Seq<u8>, rows: Seq<u8>, x: u8, y: u8)
    requires
        fb.len() == 256,
        !spans_two_columns(x),
    ensures
        forall|idx: int|
            0 <= idx < 256 && idx / 32 != lead_column(x) ==> #[trigger] blit(fb, rows, x, y)[idx]
                == fb[idx],
{
    assert forall|idx: int| 0 <= idx < 256 && idx / 32 != lead_column(x) implies #[trigger] blit(
        fb,
        rows,
        x,
        y,
    )[idx] == fb[idx] by {
        lemma_xor_zero(fb[idx]);
    }
}

/// A sprite drawn at any other position writes both columns: in each of its
/// rows the byte of the leading column takes the high part of the sprite
/// row and the byte of the overflow column takes the low part.
pub proof fn law_unaligned_draw_writes_overflow(
    fb: Seq<u8>,
    rows: Seq<u8>,
    x: u8,
    y: u8,
    k: int,
)
    requires
        fb.len() == 256,
        spans_two_columns(x),
        0 <= k < rows.len(),
        y + rows.len() <= 32,
    ensures
        overflow_column(x) != lead_column(x),
        blit(fb, rows, x, y)[lead_column(x) * 32 + y + k] == fb[lead_column(x) * 32 + y + k]
            ^ lead_part(rows[k], x),
        blit(fb, rows, x, y)[overflow_column(x) * 32 + y + k] == fb[overflow_column(x) * 32 + y
            + k] ^ overflow_part(rows[k], x),
{
}

/// How the bits of a byte move under XOR and under the two shifts of a
/// draw.
proof fn lemma_bit_of_parts(a: u8, b: u8, m: u8, r: u8, p: u8)
    requires
        r < 8,
        p < 8,
    ensures
        bit_of(a ^ m, p) == (bit_of(a, p) != bit_of(m, p)),
        !bit_of(0, p),
        bit_of(b >> r, p) == (p >= r && bit_of(b, (p - r) as u8)),
        r > 0 ==> bit_of(b << ((8 - r) as u8), p) == (p < r && bit_of(b, (8 + p - r) as u8)),
{
    assert((((a ^ m) >> ((7 - p) as u8)) & 1 == 1) == (((a >> ((7 - p) as u8)) & 1 == 1) != ((m >> (
    (7 - p) as u8)) & 1 == 1))) by (bit_vector)
        requires
            p < 8,
    ;
    assert((0u8 >> ((7 - p) as u8)) & 1 != 1) by (bit_vector)
        requires
            p < 8,
    ;
    assert((((b >> r) >> ((7 - p) as u8)) & 1 == 1) == (p >= r && (b >> ((7 - ((p - r) as u8)) as u8))
        & 1 == 1)) by (bit_vector)
        requires
            p < 8,
            r < 8,
    ;
    if r > 0 {
        assert((((b << ((8 - r) as u8)) >> ((7 - p) as u8)) & 1 == 1) == (p < r && (b >> ((7 - ((8
            + p - r) as u8)) as u8)) & 1 == 1)) by (bit_vector)
            requires
                p < 8,
                0 < r < 8,
        ;
    }
}

/// Where the pixel column `px` lies relative to a sprite drawn at `x`: its
/// distance to the right of `x`, modulo the width, by the byte column and
/// the bit position of `px`.
proof fn lemma_column_offset(x: u8, px: int)
    requires
        0 <= px < 64,
    ensures
        ({
            let col = px / 8;
            let p = px % 8;
            let r = x % 8;
            let dx = (px - x) % 64;
            &&& col == lead_column(x) ==> dx == if p >= r {
                p - r
            } else {
                64 + p - r
            }
            &&& col != lead_column(x) && col == overflow_column(x) ==> dx == 8 + p - r
            &&& col != lead_column(x) && col != overflow_column(x) ==> dx >= 8
        }),
{
    let pxu = px as u16;
    let xu = x as u16;
    let e = (pxu + 256 - xu) as u16 % 64;
    assert({
        let col = pxu / 8;
        let p = pxu % 8;
        let r = xu % 8;
        let lead = (xu / 8) % 8;
        let over = (lead + 1) % 8;
        let e = (pxu + 256 - xu) as u16 % 64;
        &&& col == lead && p >= r ==> e + r == p
        &&& col == lead && p < r ==> e + r == 64 + p
        &&& col != lead && col == over ==> e + r == 8 + p
        &&& col != lead && col != over ==> e >= 8
    }) by (bit_vector)
        requires
            pxu < 64,
            xu < 256,
    ;
    assert((px - x) % 64 == (px + 256 - x) % 64);
}

/// What a draw does, pixel by pixel: the pixel at `(px, py)` is flipped if
/// the sprite has a set bit over it, and stays as it is otherwise.
pub proof fn law_blit_flips_covered_pixels(
    fb: Seq<u8>,
    rows: Seq<u8>,
    x: u8,
    y: u8,
    px: int,
    py: int,
)
    requires
        fb.len() == 256,
        y + rows.len() <= 32,
        0 <= px < 64,
        0 <= py < 32,
    ensures
        pixel(blit(fb, rows, x, y), px, py) == (pixel(fb, px, py) != sprite_covers(
            rows,
            x,
            y,
            px,
            py,
        )),
{
    let col = px / 8;
    let p = (px % 8) as u8;
    let r = x % 8;
    let idx = col * 32 + py;
    let mask = sprite_mask(rows, x, y, idx);
    assert(idx / 32 == col && idx % 32 == py);
    assert(blit(fb, rows, x, y)[idx] == fb[idx] ^ mask);
    lemma_column_offset(x, px);
    if y <= py < y + rows.len() {
        lemma_bit_of_parts(fb[idx], rows[py - y], mask, r, p);
    } else {
        lemma_bit_of_parts(fb[idx], 0, mask, r, p);
    }
}

/// Two bytes have a common set bit exactly when their AND is not zero.
proof fn lemma_common_bit(a: u8, m: u8)
    ensures
        a & m != 0 <==> exists|p: u8| p < 8 && bit_of(a, p) && #[trigger] bit_of(m, p),
{
    assert(a & m != 0 <==> (a >> 7) & 1 == 1 && (m >> 7) & 1 == 1 || (a >> 6) & 1 == 1 && (m >> 6)
        & 1 == 1 || (a >> 5) & 1 == 1 && (m >> 5) & 1 == 1 || (a >> 4) & 1 == 1 && (m >> 4) & 1
        == 1 || (a >> 3) & 1 == 1 && (m >> 3) & 1 == 1 || (a >> 2) & 1 == 1 && (m >> 2) & 1 == 1
        || (a >> 1) & 1 == 1 && (m >> 1) & 1 == 1 || (a >> 0) & 1 == 1 && (m >> 0) & 1 == 1)
        by (bit_vector);
    if a & m != 0 {
        assert(bit_of(a, 0) && bit_of(m, 0) || bit_of(a, 1) && bit_of(m, 1) || bit_of(a, 2)
            && bit_of(m, 2) || bit_of(a, 3) && bit_of(m, 3) || bit_of(a, 4) && bit_of(m, 4)
            || bit_of(a, 5) && bit_of(m, 5) || bit_of(a, 6) && bit_of(m, 6) || bit_of(a, 7)
            && bit_of(m, 7));
    }
}

/// A draw collides exactly when the sprite has a set bit over a pixel that
/// is lit before the draw.
pub proof fn law_collides_iff_lit_pixel_covered(fb: Seq<u8>, rows: Seq<u8>, x: u8, y: u8)
    requires
        fb.len() == 256,
        y + rows.len() <= 32,
    ensures
        collides(fb, rows, x, y) <==> exists|px: int, py: int|
            0 <= px < 64 && 0 <= py < 32 && pixel(fb, px, py) && #[trigger] sprite_covers(
                rows,
                x,
                y,
                px,
                py,
            ),
{
    assert forall|px: int, py: int| 0 <= px < 64 && 0 <= py < 32 implies #[trigger] sprite_covers(
        rows,
        x,
        y,
        px,
        py,
    ) == bit_of(sprite_mask(rows, x, y, (px / 8) * 32 + py), (px % 8) as u8) by {
        let idx = (px / 8) * 32 + py;
        law_blit_flips_covered_pixels(fb, rows, x, y, px, py);
        lemma_bit_of_parts(fb[idx], 0, sprite_mask(rows, x, y, idx), 0, (px % 8) as u8);
    }
    if collides(fb, rows, x, y) {
        let idx = choose|idx: int| 0 <= idx < 256 && #[trigger] hits(fb, rows, x, y, idx);
        let mask = sprite_mask(rows, x, y, idx);
        lemma_common_bit(fb[idx], mask);
        let p = choose|p: u8| p < 8 && bit_of(fb[idx], p) && #[trigger] bit_of(mask, p);
        let px = 8 * (idx / 32) + p;
        let py = idx % 32;
        assert(px / 8 == idx / 32 && px % 8 == p && (px / 8) * 32 + py == idx);
        assert(pixel(fb, px, py) && sprite_covers(rows, x, y, px, py));
    }
    if exists|px: int, py: int|
        0 <= px < 64 && 0 <= py < 32 && pixel(fb, px, py) && #[trigger] sprite_covers(
            rows,
            x,
            y,
            px,
            py,
        ) {
        let (px, py) = choose|px: int, py: int|
            0 <= px < 64 && 0 <= py < 32 && pixel(fb, px, py) && #[trigger] sprite_covers(
                rows,
                x,
                y,
                px,
                py,
            );
        let idx = (px / 8) * 32 + py;
        let mask = sprite_mask(rows, x, y, idx);
        lemma_common_bit(fb[idx], mask);
        assert(bit_of(mask, (px % 8) as u8));
        assert(hits(fb, rows, x, y, idx));
    }
}

} // verus!
