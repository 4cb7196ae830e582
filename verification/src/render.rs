use crate::display::{bit_of, pixel};
use vstd::prelude::*;

verus! {

/// The pixel at place `k` of the scan order, as column and row: the order
/// goes through the bytes of the frame buffer as they lie, and through the
/// eight pixels of each byte from left to right.
pub open spec fn scan(k: int) -> (u8, u8) {
    let idx = k / 8;
    ((8 * (idx / 32) + k % 8) as u8, (idx % 32) as u8)
}

/// All 2048 pixels in scan order.
pub open spec fn all_pixels() -> Seq<(u8, u8)> {
    Seq::new(2048, |k: int| scan(k))
}

/// The test for a pixel being lit in `fb`.
pub open spec fn is_lit(fb: Seq<u8>) -> spec_fn((u8, u8)) -> bool {
    |p: (u8, u8)| pixel(fb, p.0 as int, p.1 as int)
}

/// The lit pixels of `fb`, in scan order.
pub open spec fn lit(fb: Seq<u8>) -> Seq<(u8, u8)> {
    all_pixels().filter(is_lit(fb))
}

/// Going one pixel further in scan order adds that pixel if it is lit.
proof fn lemma_scan_step(fb: Seq<u8>, k: int)
    requires
        0 <= k < 2048,
    ensures
        all_pixels().take(k + 1).filter(is_lit(fb)) == if bit_of(fb[k / 8], (k % 8) as u8) {
            all_pixels().take(k).filter(is_lit(fb)).push(scan(k))
        } else {
            all_pixels().take(k).filter(is_lit(fb))
        },
{
    let idx = k / 8;
    let px = 8 * (idx / 32) + k % 8;
    assert(px / 8 == idx / 32 && px % 8 == k % 8);
    assert((px / 8) * 32 + idx % 32 == idx);
    assert(all_pixels().take(k + 1) =~= all_pixels().take(k).push(scan(k)));
    all_pixels().take(k).lemma_filter_push(scan(k), is_lit(fb));
}

/// A byte of zero shows no lit pixel.
proof fn lemma_dark_byte(fb: Seq<u8>, idx: int, n: int)
    requires
        0 <= idx < 256,
        0 <= n <= 8,
        fb[idx] == 0,
    ensures
        all_pixels().take(8 * idx + n).filter(is_lit(fb)) == all_pixels().take(8 * idx).filter(
            is_lit(fb),
        ),
    decreases n,
{
    if n > 0 {
        lemma_dark_byte(fb, idx, n - 1);
        lemma_scan_step(fb, 8 * idx + n - 1);
        let pos = (n - 1) as u8;
        assert(!bit_of(0, pos)) by (bit_vector)
            requires
                pos < 8,
        ;
    }
}

/// Lists the lit pixels of a frame buffer, each as its column (0 to 63) and
/// row (0 to 31), for a renderer to plot. They come in scan order: byte by
/// byte as the frame buffer holds them, each byte from its leftmost pixel
/// to its rightmost.
pub fn lit_pixels(pixels: &[u8; 256]) -> (out: Vec<(u8, u8)>)
    ensures
        out@ == lit(pixels@),
{
    let mut out: Vec<(u8, u8)> = Vec::new();
    let mut x: usize = 0;
    proof {
        assert(all_pixels().take(0) =~= Seq::<(u8, u8)>::empty());
        reveal(Seq::filter);
    }
    while x < 8
        invariant
            x <= 8,
            out@ == all_pixels().take(8 * (x * 32)).filter(is_lit(pixels@)),
        decreases 8 - x,
    {
        let mut y: usize = 0;
        while y < 32
            invariant
                x < 8,
                y <= 32,
                out@ == all_pixels().take(8 * (x * 32 + y)).filter(is_lit(pixels@)),
            decreases 32 - y,
        {
            let bit_row = pixels[x * 32 + y];
            if bit_row != 0 {
                let mut i: u8 = 0;
                while i < 8
                    invariant
                        x < 8,
                        y < 32,
                        i <= 8,
                        bit_row == pixels@[x * 32 + y],
                        out@ == all_pixels().take(8 * (x * 32 + y) + i).filter(is_lit(pixels@)),
                    decreases 8 - i,
                {
                    let mask: u8 = 0x80 >> i;
                    assert((bit_row & mask > 0) == bit_of(bit_row, i)) by (bit_vector)
                        requires
                            i < 8,
                            mask == 0x80u8 >> i,
                    ;
                    proof {
                        lemma_scan_step(pixels@, 8 * (x * 32 + y) + i);
                    }
                    if bit_row & mask > 0 {
                        out.push((8 * x as u8 + i, y as u8));
                    }
                    i += 1;
                }
            } else {
                proof {
                    lemma_dark_byte(pixels@, (x * 32 + y) as int, 8);
                }
            }
            y += 1;
        }
        x += 1;
    }
    assert(all_pixels().take(2048) =~= all_pixels());
    out
}

} // verus!
