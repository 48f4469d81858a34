use vstd::prelude::*;
use crate::common::RGBA_CHANNELS;
use crate::texture::{lemma_pixel_decode, pixel_index};

verus! {

/// Side length of the canonical skin atlas.
pub const SKIN_SIDE: usize = 64;

/// Byte length of the canonical 64×64 RGBA skin.
pub const SKIN_BYTES: usize = 16384;

/// The rectangles (x0, x1, y0, y1), ends exclusive, of the 64×64 atlas that the player model
/// never reads; the slim model leaves more of the arm area unused than the classic one.
pub open spec fn padding_rects(is_steve: bool) -> Seq<(int, int, int, int)> {
    let shared = seq![
        (0, 8, 0, 8), (24, 40, 0, 8), (56, 64, 0, 8),
        (0, 4, 16, 20), (12, 20, 16, 20), (36, 44, 16, 20),
        (0, 4, 32, 36), (12, 20, 32, 36), (36, 44, 32, 36),
        (0, 4, 48, 52), (12, 20, 48, 52), (28, 36, 48, 52),
    ];
    if is_steve {
        shared + seq![(52, 56, 16, 20), (52, 56, 32, 36), (44, 52, 48, 52), (60, 64, 48, 52), (56, 64, 16, 48)]
    } else {
        shared + seq![
            (50, 54, 16, 20), (50, 52, 32, 36), (42, 52, 48, 52), (46, 48, 52, 64),
            (58, 64, 48, 52), (62, 64, 52, 64), (54, 64, 16, 48),
        ]
    }
}

/// Whether pixel (`x`, `y`) lies in the rectangle `r`.
pub open spec fn in_box(r: (int, int, int, int), x: int, y: int) -> bool {
    r.0 <= x < r.1 && r.2 <= y < r.3
}

/// Whether pixel (`x`, `y`) of the atlas is padding for the given model.
pub open spec fn is_padding(x: int, y: int, is_steve: bool) -> bool {
    exists|i: int| 0 <= i < padding_rects(is_steve).len() && in_box(#[trigger] padding_rects(is_steve)[i], x, y)
}

/// Whether byte `k` of a 64×64 RGBA buffer belongs to a padding pixel.
pub open spec fn is_padding_byte(k: int, is_steve: bool) -> bool {
    is_padding((k / 4) % 64, (k / 4) / 64, is_steve)
}

/// Whether byte `k` belongs to a pixel of rectangle `r` of a 64-pixel-wide buffer.
spec fn byte_in_box(k: int, r: (int, int, int, int)) -> bool {
    in_box(r, (k / 4) % 64, (k / 4) / 64)
}

/// Sets the four channels of pixel (`x`, `y`) of an image `width` pixels wide.
fn set_pixel(vec: &mut [u8], x: usize, y: usize, width: usize, r: u8, g: u8, b: u8, a: u8)
    requires
        pixel_index(x as int, y as int, width as int, 3) < old(vec)@.len(),
    ensures
        final(vec)@ == old(vec)@.update(pixel_index(x as int, y as int, width as int, 0), r).update(
            pixel_index(x as int, y as int, width as int, 1),
            g,
        ).update(pixel_index(x as int, y as int, width as int, 2), b).update(
            pixel_index(x as int, y as int, width as int, 3),
            a,
        ),
{
    let n = vec.len();
    assert(0 <= y * width && y * width + x <= (y * width + x) * 4 && (y * width + x) * 4 + 3 < n) by (nonlinear_arith)
        requires pixel_index(x as int, y as int, width as int, 3) < n, 0 <= x, 0 <= y, 0 <= width;
    let i = (y * width + x) * RGBA_CHANNELS;
    vec[i] = r;
    vec[i + 1] = g;
    vec[i + 2] = b;
    vec[i + 3] = a;
}

/// Makes the pixels `x0..x1` × `y0..y1` of a 64×64 RGBA buffer transparent black.
fn clear_rect(raw_data: &mut [u8], x0: usize, x1: usize, y0: usize, y1: usize)
    requires
        old(raw_data)@.len() == SKIN_BYTES,
        x0 <= x1 <= 64,
        y0 <= y1 <= 64,
    ensures
        final(raw_data)@.len() == SKIN_BYTES,
        forall|k: int|
            0 <= k < SKIN_BYTES ==> #[trigger] final(raw_data)@[k] == if byte_in_box(
                k,
                (x0 as int, x1 as int, y0 as int, y1 as int),
            ) {
                0
            } else {
                old(raw_data)@[k]
            },
{
    let ghost old_d = raw_data@;
    let mut y: usize = y0;
    while y < y1
        invariant
            y0 <= y <= y1 <= 64,
            x0 <= x1 <= 64,
            raw_data@.len() == SKIN_BYTES,
            forall|k: int|
                0 <= k < SKIN_BYTES ==> #[trigger] raw_data@[k] == if byte_in_box(
                    k,
                    (x0 as int, x1 as int, y0 as int, y as int),
                ) {
                    0
                } else {
                    old_d[k]
                },
        decreases y1 - y,
    {
        let mut x: usize = x0;
        while x < x1
            invariant
                y0 <= y < y1 <= 64,
                x0 <= x <= x1 <= 64,
                raw_data@.len() == SKIN_BYTES,
                forall|k: int|
                    0 <= k < SKIN_BYTES ==> #[trigger] raw_data@[k] == if byte_in_box(
                        k,
                        (x0 as int, x1 as int, y0 as int, y as int),
                    ) || byte_in_box(k, (x0 as int, x as int, y as int, y as int + 1)) {
                        0
                    } else {
                        old_d[k]
                    },
            decreases x1 - x,
        {
            proof {
                lemma_pixel_decode(x as int, y as int, 64, 0);
                lemma_pixel_decode(x as int, y as int, 64, 3);
            }
            set_pixel(raw_data, x, y, SKIN_SIDE, 0, 0, 0, 0);
            proof {
                let base = pixel_index(x as int, y as int, 64, 0);
                assert forall|k: int| 0 <= k < SKIN_BYTES implies #[trigger] raw_data@[k] == if byte_in_box(
                    k,
                    (x0 as int, x1 as int, y0 as int, y as int),
                ) || byte_in_box(k, (x0 as int, x as int + 1, y as int, y as int + 1)) {
                    0
                } else {
                    old_d[k]
                } by {
                    vstd::arithmetic::div_mod::lemma_fundamental_div_mod(k, 4);
                    vstd::arithmetic::div_mod::lemma_fundamental_div_mod(k / 4, 64);
                    if base <= k < base + 4 {
                        lemma_pixel_decode(x as int, y as int, 64, k - base);
                    } else {
                        let p = k / 4;
                        if p % 64 == x && p / 64 == y {
                            assert(p == y * 64 + x);
                            assert(k == p * 4 + k % 4);
                        }
                    }
                }
            }
            x = x + 1;
        }
        proof {
            assert forall|k: int| 0 <= k < SKIN_BYTES implies #[trigger] raw_data@[k] == if byte_in_box(
                k,
                (x0 as int, x1 as int, y0 as int, y as int + 1),
            ) {
                0
            } else {
                old_d[k]
            } by {}
        }
        y = y + 1;
    }
}

/// Makes every padding pixel (see `padding_rects`) of a 64×64 RGBA skin transparent black, and
/// leaves the other pixels as they are.
pub fn clear_unused_pixels(raw_data: &mut [u8], is_steve: bool)
    requires
        old(raw_data)@.len() == SKIN_BYTES,
    ensures
        final(raw_data)@.len() == SKIN_BYTES,
        forall|k: int|
            0 <= k < SKIN_BYTES ==> #[trigger] final(raw_data)@[k] == if is_padding_byte(k, is_steve) {
                0
            } else {
                old(raw_data)@[k]
            },
{
    let ghost old_d = raw_data@;
    let rects: Vec<(usize, usize, usize, usize)> = if is_steve {
        vec![
            (0, 8, 0, 8), (24, 40, 0, 8), (56, 64, 0, 8),
            (0, 4, 16, 20), (12, 20, 16, 20), (36, 44, 16, 20),
            (0, 4, 32, 36), (12, 20, 32, 36), (36, 44, 32, 36),
            (0, 4, 48, 52), (12, 20, 48, 52), (28, 36, 48, 52),
            (52, 56, 16, 20), (52, 56, 32, 36), (44, 52, 48, 52), (60, 64, 48, 52), (56, 64, 16, 48),
        ]
    } else {
        vec![
            (0, 8, 0, 8), (24, 40, 0, 8), (56, 64, 0, 8),
            (0, 4, 16, 20), (12, 20, 16, 20), (36, 44, 16, 20),
            (0, 4, 32, 36), (12, 20, 32, 36), (36, 44, 32, 36),
            (0, 4, 48, 52), (12, 20, 48, 52), (28, 36, 48, 52),
            (50, 54, 16, 20), (50, 52, 32, 36), (42, 52, 48, 52), (46, 48, 52, 64),
            (58, 64, 48, 52), (62, 64, 52, 64), (54, 64, 16, 48),
        ]
    };
    let ghost rs = padding_rects(is_steve);
    assert(rects@.len() == rs.len());
    assert(forall|i: int| 0 <= i < rs.len() ==> {
        let r = #[trigger] rects@[i];
        (r.0 as int, r.1 as int, r.2 as int, r.3 as int) == rs[i] && r.0 <= r.1 <= 64 && r.2 <= r.3 <= 64
    });
    let mut i: usize = 0;
    while i < rects.len()
        invariant
            i <= rects@.len() == rs.len(),
            rs == padding_rects(is_steve),
            raw_data@.len() == SKIN_BYTES,
            forall|j: int| 0 <= j < rs.len() ==> {
                let r = #[trigger] rects@[j];
                (r.0 as int, r.1 as int, r.2 as int, r.3 as int) == rs[j] && r.0 <= r.1 <= 64 && r.2 <= r.3 <= 64
            },
            forall|k: int|
                0 <= k < SKIN_BYTES ==> #[trigger] raw_data@[k] == if exists|j: int|
                    0 <= j < i && in_box(#[trigger] rs[j], (k / 4) % 64, (k / 4) / 64) {
                    0
                } else {
                    old_d[k]
                },
        decreases rects@.len() - i,
    {
        let (x0, x1, y0, y1) = rects[i];
        clear_rect(raw_data, x0, x1, y0, y1);
        proof {
            assert forall|k: int| 0 <= k < SKIN_BYTES implies #[trigger] raw_data@[k] == if exists|j: int|
                0 <= j < i + 1 && in_box(#[trigger] rs[j], (k / 4) % 64, (k / 4) / 64) {
                0
            } else {
                old_d[k]
            } by {
                if in_box(rs[i as int], (k / 4) % 64, (k / 4) / 64) {
                } else {
                    if exists|j: int| 0 <= j < i + 1 && in_box(#[trigger] rs[j], (k / 4) % 64, (k / 4) / 64) {
                        let j = choose|j: int| 0 <= j < i + 1 && in_box(#[trigger] rs[j], (k / 4) % 64, (k / 4) / 64);
                        assert(j < i);
                    }
                }
            }
        }
        i = i + 1;
    }
}

} // verus!
