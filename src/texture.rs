use vstd::prelude::*;
use crate::common::{OffsetAndDimension, RGBA_CHANNELS};
use crate::skin::{SkinFace, SkinLayer, SkinModel, SkinPart, SkinSection};

verus! {

/// The rectangle (x, y, width, height) of a body part's layer in the 64×64 atlas.
pub open spec fn atlas_rect(part: SkinPart, layer: SkinLayer) -> Option<(int, int, int, int)> {
    match (part, layer) {
        (SkinPart::Head, SkinLayer::Bottom) => Some((0, 0, 32, 16)),
        (SkinPart::Head, SkinLayer::Top) => Some((32, 0, 32, 16)),
        (SkinPart::ArmLeft, SkinLayer::Bottom) => Some((32, 48, 16, 16)),
        (SkinPart::ArmLeft, SkinLayer::Top) => Some((48, 48, 16, 16)),
        (SkinPart::Body, SkinLayer::Bottom) => Some((16, 16, 24, 16)),
        (SkinPart::Body, SkinLayer::Top) => Some((16, 32, 24, 16)),
        (SkinPart::ArmRight, SkinLayer::Bottom) => Some((40, 16, 16, 16)),
        (SkinPart::ArmRight, SkinLayer::Top) => Some((40, 32, 16, 16)),
        (SkinPart::LegLeft, SkinLayer::Bottom) => Some((16, 48, 16, 16)),
        (SkinPart::LegLeft, SkinLayer::Top) => Some((0, 48, 16, 16)),
        (SkinPart::LegRight, SkinLayer::Bottom) => Some((0, 16, 16, 16)),
        (SkinPart::LegRight, SkinLayer::Top) => Some((0, 32, 16, 16)),
        _ => None,
    }
}

/// The rectangle as a tuple of integers.
pub open spec fn rect_of(r: OffsetAndDimension) -> (int, int, int, int) {
    (r.x_offset as int, r.y_offset as int, r.width as int, r.height as int)
}

/// Where a section lies in the 64×64 atlas; `None` for the combined layer.
pub fn texture_position(section: SkinSection) -> (r: Option<OffsetAndDimension>)
    ensures
        r matches Some(p) ==> atlas_rect(*section.0, section.1) == Some(rect_of(p)),
        r is None <==> atlas_rect(*section.0, section.1) is None,
{
    let new = |x: usize, y: usize, w: usize, h: usize| -> (o: OffsetAndDimension)
        ensures
            o == (OffsetAndDimension { x_offset: x, y_offset: y, width: w, height: h }),
        { OffsetAndDimension::new(x, y, w, h) };
    match (section.0, section.1) {
        (SkinPart::Head, SkinLayer::Bottom) => Some(new(0, 0, 32, 16)),
        (SkinPart::Head, SkinLayer::Top) => Some(new(32, 0, 32, 16)),
        (SkinPart::ArmLeft, SkinLayer::Bottom) => Some(new(32, 48, 16, 16)),
        (SkinPart::ArmLeft, SkinLayer::Top) => Some(new(48, 48, 16, 16)),
        (SkinPart::Body, SkinLayer::Bottom) => Some(new(16, 16, 24, 16)),
        (SkinPart::Body, SkinLayer::Top) => Some(new(16, 32, 24, 16)),
        (SkinPart::ArmRight, SkinLayer::Bottom) => Some(new(40, 16, 16, 16)),
        (SkinPart::ArmRight, SkinLayer::Top) => Some(new(40, 32, 16, 16)),
        (SkinPart::LegLeft, SkinLayer::Bottom) => Some(new(16, 48, 16, 16)),
        (SkinPart::LegLeft, SkinLayer::Top) => Some(new(0, 48, 16, 16)),
        (SkinPart::LegRight, SkinLayer::Bottom) => Some(new(0, 16, 16, 16)),
        (SkinPart::LegRight, SkinLayer::Top) => Some(new(0, 32, 16, 16)),
        _ => None,
    }
}


/// The number of whole pixel rows that a buffer of `len` bytes holds at `width` pixels a row.
pub open spec fn rows_of(len: int, width: int) -> int {
    len / 4 / width
}

/// Whether the target rectangle is at least as large as the source on both axes: then every
/// target pixel takes its nearest source pixel; otherwise source boxes are averaged.
pub open spec fn fill_mode(source: OffsetAndDimension, target: OffsetAndDimension) -> bool {
    target.width >= source.width && target.height >= source.height
}

/// The nearest source coordinate of target coordinate `t`: `offset + floor((t + 1/2) * s / d)`.
pub open spec fn nearest_source(t: int, offset: int, s: int, d: int) -> int {
    offset + ((2 * t + 1) * s) / (2 * d)
}

/// The first source coordinate of the box that target coordinate `t` averages:
/// `offset + floor(t * s / d)`.
pub open spec fn box_origin(t: int, offset: int, s: int, d: int) -> int {
    offset + (t * s) / d
}

/// The smaller of two integers.
pub open spec fn min_int(a: int, b: int) -> int {
    if a <= b { a } else { b }
}

/// Byte position of channel `c` of pixel (`x`, `y`) in a buffer `width` pixels wide.
pub open spec fn pixel_index(x: int, y: int, width: int, c: int) -> int {
    (y * width + x) * 4 + c
}

/// Sum of channel `c` over the pixels `x0..x1` of row `y`.
pub open spec fn row_sum(src: Seq<u8>, sw: int, y: int, x0: int, x1: int, c: int) -> int
    decreases x1 - x0,
{
    if x1 <= x0 {
        0
    } else {
        row_sum(src, sw, y, x0, x1 - 1, c) + src[pixel_index(x1 - 1, y, sw, c)]
    }
}

/// Sum of channel `c` over the pixels `x0..x1` × `y0..y1`.
pub open spec fn box_sum(src: Seq<u8>, sw: int, x0: int, x1: int, y0: int, y1: int, c: int) -> int
    decreases y1 - y0,
{
    if y1 <= y0 {
        0
    } else {
        box_sum(src, sw, x0, x1, y0, y1 - 1, c) + row_sum(src, sw, y1 - 1, x0, x1, c)
    }
}

/// The value that channel `c` of target pixel (`tx`, `ty`), relative to the target
/// rectangle, receives from the source image `src` (`sw` pixels wide); `None` leaves it as it was.
///
/// In fill mode it is the nearest source pixel's channel, when that pixel lies in the buffer.
/// Otherwise the box of `source.width / target.width` × `source.height / target.height`
/// source pixels is averaged (integer division), over its pixels that lie in the buffer.
pub open spec fn resampled_channel(
    src: Seq<u8>,
    sw: int,
    source: OffsetAndDimension,
    target: OffsetAndDimension,
    tx: int,
    ty: int,
    c: int,
) -> Option<u8> {
    let sh = rows_of(src.len() as int, sw);
    if fill_mode(source, target) {
        let sx = nearest_source(tx, source.x_offset as int, source.width as int, target.width as int);
        let sy = nearest_source(ty, source.y_offset as int, source.height as int, target.height as int);
        if sx < sw && sy < sh {
            Some(src[pixel_index(sx, sy, sw, c)])
        } else {
            None
        }
    } else {
        let sx = box_origin(tx, source.x_offset as int, source.width as int, target.width as int);
        let sy = box_origin(ty, source.y_offset as int, source.height as int, target.height as int);
        let x1 = min_int(sx + source.width as int / target.width as int, sw);
        let y1 = min_int(sy + source.height as int / target.height as int, sh);
        if sx < x1 && sy < y1 {
            Some((box_sum(src, sw, sx, x1, sy, y1, c) / ((x1 - sx) * (y1 - sy))) as u8)
        } else {
            None
        }
    }
}

/// Whether byte `k` of a buffer `tw` pixels wide lies in rectangle `target`.
pub open spec fn in_rect(k: int, tw: int, target: OffsetAndDimension) -> bool {
    let p = k / 4;
    let row = p / tw - target.y_offset;
    let col = p % tw - target.x_offset;
    0 <= row < target.height && 0 <= col < target.width
}

/// The byte at position `k` of the target buffer after resampling.
pub open spec fn resampled_byte(
    old: Seq<u8>,
    src: Seq<u8>,
    sw: int,
    tw: int,
    source: OffsetAndDimension,
    target: OffsetAndDimension,
    k: int,
) -> u8 {
    if in_rect(k, tw, target) {
        let p = k / 4;
        match resampled_channel(
            src, sw, source, target, p % tw - target.x_offset, p / tw - target.y_offset, k % 4,
        ) {
            Some(v) => v,
            None => old[k],
        }
    } else {
        old[k]
    }
}

/// The target buffer after resampling `source` of `src` into `target` of `old`.
pub open spec fn resampled_image(
    old: Seq<u8>,
    src: Seq<u8>,
    sw: int,
    tw: int,
    source: OffsetAndDimension,
    target: OffsetAndDimension,
) -> Seq<u8> {
    Seq::new(old.len(), |k: int| resampled_byte(old, src, sw, tw, source, target, k))
}

/// Whether a rectangle fits in a buffer of `len` bytes that is `width` pixels wide.
pub open spec fn rect_fits(r: OffsetAndDimension, width: int, len: int) -> bool {
    &&& r.x_offset + r.width <= width
    &&& (r.y_offset + r.height) * width * 4 <= len
}

/// Progress of the resampling loop: the bytes of rows before `y`, of the pixels before `x` in
/// row `y`, and of the channels before `c` of pixel `x` are resampled; the rest is as it was.
spec fn resampled_upto(
    old: Seq<u8>,
    src: Seq<u8>,
    sw: int,
    tw: int,
    source: OffsetAndDimension,
    target: OffsetAndDimension,
    y: int,
    x: int,
    c: int,
) -> Seq<u8> {
    Seq::new(
        old.len(),
        |k: int|
            {
                let p = k / 4;
                let row = p / tw - target.y_offset;
                let col = p % tw - target.x_offset;
                if in_rect(k, tw, target) && (row < y || (row == y && (col < x || (col == x && k % 4 < c)))) {
                    resampled_byte(old, src, sw, tw, source, target, k)
                } else {
                    old[k]
                }
            },
    )
}

/// Decoding a byte position back into its pixel and channel.
pub proof fn lemma_pixel_decode(x: int, y: int, w: int, c: int)
    requires
        0 <= x < w,
        0 <= y,
        0 <= c < 4,
    ensures
        pixel_index(x, y, w, c) / 4 == y * w + x,
        pixel_index(x, y, w, c) % 4 == c,
        (y * w + x) / w == y,
        (y * w + x) % w == x,
{
    assert(y * w + x >= 0) by (nonlinear_arith)
        requires 0 <= x < w, 0 <= y;
    vstd::arithmetic::div_mod::lemma_fundamental_div_mod_converse(pixel_index(x, y, w, c), 4, y * w + x, c);
    vstd::arithmetic::div_mod::lemma_fundamental_div_mod_converse(y * w + x, w, y, x);
}

proof fn lemma_pixel_in_bounds(x: int, y: int, w: int, h: int, c: int, len: int)
    requires
        0 <= x < w,
        0 <= y < h,
        0 <= c < 4,
        h * w * 4 <= len,
    ensures
        0 <= pixel_index(x, y, w, c) < len,
{
    assert(0 <= pixel_index(x, y, w, c) < len) by (nonlinear_arith)
        requires 0 <= x < w, 0 <= y < h, 0 <= c < 4, h * w * 4 <= len;
}

proof fn lemma_rows_bound(len: int, w: int)
    requires
        0 <= len,
        0 < w,
    ensures
        rows_of(len, w) * w * 4 <= len,
        0 <= rows_of(len, w),
{
    let q = len / 4;
    vstd::arithmetic::div_mod::lemma_fundamental_div_mod(len, 4);
    vstd::arithmetic::div_mod::lemma_fundamental_div_mod(q, w);
    assert(0 <= q / w) by (nonlinear_arith)
        requires 0 <= q, 0 < w;
    assert(len % 4 >= 0 && q % w >= 0);
    assert((q / w) * w <= q);
    assert(rows_of(len, w) * w * 4 <= len) by (nonlinear_arith)
        requires (q / w) * w <= q, q * 4 <= len, rows_of(len, w) == q / w;
}

/// Sums of channel values stay within 255 per pixel summed.
proof fn lemma_row_sum_bound(src: Seq<u8>, sw: int, y: int, x0: int, x1: int, c: int)
    requires
        x0 <= x1,
    ensures
        0 <= row_sum(src, sw, y, x0, x1, c) <= 255 * (x1 - x0),
    decreases x1 - x0,
{
    if x1 > x0 {
        lemma_row_sum_bound(src, sw, y, x0, x1 - 1, c);
    }
}

proof fn lemma_box_sum_bound(src: Seq<u8>, sw: int, x0: int, x1: int, y0: int, y1: int, c: int)
    requires
        x0 <= x1,
        y0 <= y1,
    ensures
        0 <= box_sum(src, sw, x0, x1, y0, y1, c) <= 255 * ((x1 - x0) * (y1 - y0)),
    decreases y1 - y0,
{
    if y1 > y0 {
        lemma_box_sum_bound(src, sw, x0, x1, y0, y1 - 1, c);
        lemma_row_sum_bound(src, sw, y1 - 1, x0, x1, c);
        assert(255 * ((x1 - x0) * (y1 - 1 - y0)) + 255 * (x1 - x0) == 255 * ((x1 - x0) * (y1 - y0)))
            by (nonlinear_arith);
    }
}

/// The average of channel `c` over the source pixels `x0..x1` × `y0..y1`.
fn box_average(src: &[u8], sw: usize, sh: usize, x0: usize, x1: usize, y0: usize, y1: usize, c: usize) -> (r: u8)
    requires
        x0 < x1 <= sw,
        y0 < y1 <= sh,
        sh * sw * 4 <= src@.len(),
        c < 4,
    ensures
        r == (box_sum(src@, sw as int, x0 as int, x1 as int, y0 as int, y1 as int, c as int) / ((x1 - x0) * (y1 - y0))) as u8,
{
    let ghost s = src@;
    let n = src.len();
    assert((x1 - x0) * (y1 - y0) <= sw * sh) by (nonlinear_arith)
        requires x0 < x1 <= sw, y0 < y1 <= sh;
    let mut total: u128 = 0;
    let mut y: usize = y0;
    while y < y1
        invariant
            y0 <= y <= y1,
            x0 < x1 <= sw,
            y1 <= sh,
            sh * sw * 4 <= src@.len(),
            c < 4,
            s == src@,
            n == src@.len(),
            total == box_sum(s, sw as int, x0 as int, x1 as int, y0 as int, y as int, c as int),
        decreases y1 - y,
    {
        proof {
            lemma_box_sum_bound(s, sw as int, x0 as int, x1 as int, y0 as int, y as int, c as int);
            assert((x1 - x0) * (y - y0) <= sw * sh) by (nonlinear_arith)
                requires x0 < x1 <= sw, y0 <= y <= sh;
            assert(sw * sh <= src@.len()) by (nonlinear_arith)
                requires sh * sw * 4 <= src@.len();
        }
        let mut row: u128 = 0;
        let mut x: usize = x0;
        while x < x1
            invariant
                y0 <= y < y1,
                x0 <= x <= x1,
                x1 <= sw,
                y1 <= sh,
                sh * sw * 4 <= src@.len(),
                c < 4,
                s == src@,
                n == src@.len(),
                row == row_sum(s, sw as int, y as int, x0 as int, x as int, c as int),
            decreases x1 - x,
        {
            proof {
                lemma_row_sum_bound(s, sw as int, y as int, x0 as int, x as int, c as int);
                lemma_pixel_in_bounds(x as int, y as int, sw as int, sh as int, c as int, src@.len() as int);
                assert(x - x0 <= sw);
                assert(sw * 4 <= src@.len()) by (nonlinear_arith)
                    requires sh * sw * 4 <= src@.len(), y < sh;
                assert(0 <= y * sw && y * sw + x <= (y * sw + x) * 4 + c) by (nonlinear_arith)
                    requires 0 <= y, 0 <= sw, 0 <= x, 0 <= c;
            }
            row = row + src[(y * sw + x) * 4 + c] as u128;
            x = x + 1;
        }
        proof {
            lemma_row_sum_bound(s, sw as int, y as int, x0 as int, x1 as int, c as int);
            assert(255 * ((x1 - x0) * (y - y0)) + 255 * (x1 - x0) <= 255 * (sw * sh) + 255 * sw);
            assert(sw * sh <= n);
        }
        total = total + row;
        y = y + 1;
    }
    assert(sw * sh <= n) by (nonlinear_arith)
        requires sh * sw * 4 <= n;
    let count: u128 = ((x1 - x0) as u128) * ((y1 - y0) as u128);
    proof {
        lemma_box_sum_bound(s, sw as int, x0 as int, x1 as int, y0 as int, y1 as int, c as int);
        assert(count > 0) by (nonlinear_arith)
            requires count == (x1 - x0) * (y1 - y0), x0 < x1, y0 < y1;
        vstd::arithmetic::div_mod::lemma_div_is_ordered(total as int, 255 * count, count as int);
        vstd::arithmetic::div_mod::lemma_div_by_multiple(255, count as int);
        vstd::arithmetic::div_mod::lemma_div_pos_is_pos(total as int, count as int);
    }
    (total / count) as u8
}

/// Channel `c` of target pixel (`tx`, `ty`) of `target`, taken from `source`; see
/// `resampled_channel`.
fn sample(
    src: &[u8],
    sw: usize,
    sh: usize,
    source: &OffsetAndDimension,
    target: &OffsetAndDimension,
    tx: usize,
    ty: usize,
    c: usize,
) -> (r: Option<u8>)
    requires
        sw > 0,
        sh == rows_of(src@.len() as int, sw as int),
        tx < target.width < 0x4000_0000_0000_0000,
        ty < target.height < 0x4000_0000_0000_0000,
        c < 4,
    ensures
        r == resampled_channel(src@, sw as int, *source, *target, tx as int, ty as int, c as int),
{
    proof {
        lemma_rows_bound(src@.len() as int, sw as int);
    }
    if target.width >= source.width && target.height >= source.height {
        let tx2: u128 = 2 * tx as u128 + 1;
        let ty2: u128 = 2 * ty as u128 + 1;
        assert(tx2 * source.width < 0x8000_0000_0000_0000_0000_0000_0000_0000) by (nonlinear_arith)
            requires tx2 < 0x8000_0000_0000_0000, source.width < 0x1_0000_0000_0000_0000;
        assert(ty2 * source.height < 0x8000_0000_0000_0000_0000_0000_0000_0000) by (nonlinear_arith)
            requires ty2 < 0x8000_0000_0000_0000, source.height < 0x1_0000_0000_0000_0000;
        let qx: u128 = (tx2 * source.width as u128) / (2 * target.width as u128);
        let qy: u128 = (ty2 * source.height as u128) / (2 * target.height as u128);
        assert(qx <= tx2 * source.width) by {
            vstd::arithmetic::div_mod::lemma_div_is_ordered_by_denominator((tx2 * source.width) as int, 1, 2 * target.width);
        }
        assert(qy <= ty2 * source.height) by {
            vstd::arithmetic::div_mod::lemma_div_is_ordered_by_denominator((ty2 * source.height) as int, 1, 2 * target.height);
        }
        let sx: u128 = source.x_offset as u128 + qx;
        let sy: u128 = source.y_offset as u128 + qy;
        let n = src.len();
        if sx < sw as u128 && sy < sh as u128 {
            let sx = sx as usize;
            let sy = sy as usize;
            proof {
                lemma_pixel_in_bounds(sx as int, sy as int, sw as int, sh as int, c as int, src@.len() as int);
                assert(0 <= sy * sw && sy * sw + sx <= (sy * sw + sx) * 4 + c) by (nonlinear_arith)
                    requires 0 <= sy, 0 <= sw, 0 <= sx, 0 <= c;
            }
            Some(src[(sy * sw + sx) * 4 + c])
        } else {
            None
        }
    } else {
        assert(tx * source.width < 0x4000_0000_0000_0000_0000_0000_0000_0000) by (nonlinear_arith)
            requires tx < 0x4000_0000_0000_0000, source.width < 0x1_0000_0000_0000_0000;
        assert(ty * source.height < 0x4000_0000_0000_0000_0000_0000_0000_0000) by (nonlinear_arith)
            requires ty < 0x4000_0000_0000_0000, source.height < 0x1_0000_0000_0000_0000;
        let qx: u128 = (tx as u128 * source.width as u128) / (target.width as u128);
        let qy: u128 = (ty as u128 * source.height as u128) / (target.height as u128);
        assert(qx <= tx * source.width) by {
            vstd::arithmetic::div_mod::lemma_div_is_ordered_by_denominator((tx * source.width) as int, 1, target.width as int);
        }
        assert(qy <= ty * source.height) by {
            vstd::arithmetic::div_mod::lemma_div_is_ordered_by_denominator((ty * source.height) as int, 1, target.height as int);
        }
        let sx: u128 = source.x_offset as u128 + qx;
        let sy: u128 = source.y_offset as u128 + qy;
        let xs: u128 = (source.width / target.width) as u128;
        let ys: u128 = (source.height / target.height) as u128;
        let x1: u128 = if sx + xs <= sw as u128 { sx + xs } else { sw as u128 };
        let y1: u128 = if sy + ys <= sh as u128 { sy + ys } else { sh as u128 };
        if sx < x1 && sy < y1 {
            Some(box_average(src, sw, sh, sx as usize, x1 as usize, sy as usize, y1 as usize, c))
        } else {
            None
        }
    }
}

/// Copies the rectangle `source` of `source_data` (`source_width` pixels a row) into the
/// rectangle `target` of `target_data` (`target_width` pixels a row), scaling it to the
/// target's size: nearest neighbour where the target is at least as large on both axes, box
/// averaging otherwise. Bytes outside the target rectangle stay as they were.
pub fn scale_and_fill_texture(
    source_data: &[u8],
    target_data: &mut [u8],
    source_width: usize,
    target_width: usize,
    source: &OffsetAndDimension,
    target: &OffsetAndDimension,
)
    requires
        source_width > 0,
        rect_fits(*target, target_width as int, old(target_data)@.len() as int),
    ensures
        final(target_data)@ == resampled_image(
            old(target_data)@, source_data@, source_width as int, target_width as int, *source, *target,
        ),
{
    let ghost old_t = target_data@;
    let ghost src = source_data@;
    let ghost sw = source_width as int;
    let ghost tw = target_width as int;
    let source_height = source_data.len() / RGBA_CHANNELS / source_width;
    let len = target_data.len();
    if target.width == 0 || target.height == 0 {
        assert(target_data@ =~= resampled_image(old_t, src, sw, tw, *source, *target));
        return;
    }
    assert(target.height < 0x4000_0000_0000_0000 && target.width < 0x4000_0000_0000_0000) by (nonlinear_arith)
        requires
            target.x_offset + target.width <= target_width,
            (target.y_offset + target.height) * target_width * 4 <= len,
            len <= usize::MAX,
            target.width > 0,
            target.height > 0;
    let mut y: usize = 0;
    while y < target.height
        invariant
            y <= target.height,
            0 < target.width < 0x4000_0000_0000_0000,
            target.height < 0x4000_0000_0000_0000,
            source_width > 0,
            source_height == rows_of(src.len() as int, sw),
            src == source_data@,
            sw == source_width,
            tw == target_width,
            len == target_data@.len(),
            len == old_t.len(),
            rect_fits(*target, tw, len as int),
            target_data@ == resampled_upto(old_t, src, sw, tw, *source, *target, y as int, 0, 0),
        decreases target.height - y,
    {
        let mut x: usize = 0;
        while x < target.width
            invariant
                y < target.height,
                x <= target.width,
                0 < target.width < 0x4000_0000_0000_0000,
                target.height < 0x4000_0000_0000_0000,
                source_width > 0,
                source_height == rows_of(src.len() as int, sw),
                src == source_data@,
                sw == source_width,
                tw == target_width,
                len == target_data@.len(),
                len == old_t.len(),
                rect_fits(*target, tw, len as int),
                target_data@ == resampled_upto(old_t, src, sw, tw, *source, *target, y as int, x as int, 0),
            decreases target.width - x,
        {
            let mut c: usize = 0;
            while c < RGBA_CHANNELS
                invariant
                    y < target.height,
                    x < target.width,
                    c <= 4,
                    0 < target.width < 0x4000_0000_0000_0000,
                    target.height < 0x4000_0000_0000_0000,
                    source_width > 0,
                    source_height == rows_of(src.len() as int, sw),
                    src == source_data@,
                    sw == source_width,
                    tw == target_width,
                    len == target_data@.len(),
                    len == old_t.len(),
                    rect_fits(*target, tw, len as int),
                    target_data@ == resampled_upto(old_t, src, sw, tw, *source, *target, y as int, x as int, c as int),
                decreases 4 - c,
            {
                let v = sample(source_data, source_width, source_height, source, target, x, y, c);
                let ghost row = target.y_offset + y;
                let ghost col = target.x_offset + x;
                proof {
                    lemma_pixel_in_bounds(col, row, tw, target.y_offset + target.height, c as int, len as int);
                    lemma_pixel_decode(col, row, tw, c as int);
                    assert(row * tw <= len) by (nonlinear_arith)
                        requires row < target.y_offset + target.height, tw >= 0,
                            (target.y_offset + target.height) * tw * 4 <= len;
                }
                let k = ((target.y_offset + y) * target_width + target.x_offset + x) * 4 + c;
                if let Some(v) = v {
                    target_data[k] = v;
                }
                proof {
                    let next = resampled_upto(old_t, src, sw, tw, *source, *target, y as int, x as int, c as int + 1);
                    assert(tw > 0);
                    assert forall|j: int| 0 <= j < len implies #[trigger] target_data@[j] == next[j] by {
                        vstd::arithmetic::div_mod::lemma_fundamental_div_mod(j, 4);
                        vstd::arithmetic::div_mod::lemma_fundamental_div_mod(j / 4, tw);
                        if j != k {
                            let p = j / 4;
                            if p / tw == row && p % tw == col && j % 4 == c {
                                assert(p == row * tw + col) by (nonlinear_arith)
                                    requires p == tw * (p / tw) + p % tw, p / tw == row, p % tw == col;
                                assert(j == p * 4 + c);
                                assert(k == (row * tw + col) * 4 + c);
                            }
                        }
                    }
                    assert(target_data@ =~= next);
                }
                c = c + 1;
            }
            proof {
                let a = resampled_upto(old_t, src, sw, tw, *source, *target, y as int, x as int, 4);
                let b = resampled_upto(old_t, src, sw, tw, *source, *target, y as int, x as int + 1, 0);
                assert forall|j: int| 0 <= j < len implies #[trigger] a[j] == b[j] by {
                    vstd::arithmetic::div_mod::lemma_fundamental_div_mod(j, 4);
                }
                assert(a =~= b);
            }
            x = x + 1;
        }
        proof {
            let a = resampled_upto(old_t, src, sw, tw, *source, *target, y as int, target.width as int, 0);
            let b = resampled_upto(old_t, src, sw, tw, *source, *target, y as int + 1, 0, 0);
            assert forall|j: int| 0 <= j < len implies #[trigger] a[j] == b[j] by {
                vstd::arithmetic::div_mod::lemma_fundamental_div_mod(j, 4);
            }
            assert(a =~= b);
        }
        y = y + 1;
    }
    proof {
        let a = resampled_upto(old_t, src, sw, tw, *source, *target, target.height as int, 0, 0);
        let b = resampled_image(old_t, src, sw, tw, *source, *target);
        assert(a =~= b);
    }
}

proof fn lemma_nearest_same_size(t: int, w: int)
    requires
        0 <= t < w,
    ensures
        ((2 * t + 1) * w) / (2 * w) == t,
{
    assert((2 * t + 1) * w == t * (2 * w) + w) by (nonlinear_arith);
    vstd::arithmetic::div_mod::lemma_fundamental_div_mod_converse((2 * t + 1) * w, 2 * w, t, w);
}

/// When the source and target rectangles have the same size, resampling copies every pixel
/// of the source rectangle that lies in the source buffer to the same place in the target
/// rectangle, all four channels, unchanged.
pub proof fn lemma_same_size_is_copy(
    old: Seq<u8>,
    src: Seq<u8>,
    sw: int,
    tw: int,
    source: OffsetAndDimension,
    target: OffsetAndDimension,
    tx: int,
    ty: int,
    c: int,
)
    requires
        source.width == target.width,
        source.height == target.height,
        sw > 0,
        rect_fits(target, tw, old.len() as int),
        0 <= tx < target.width,
        0 <= ty < target.height,
        0 <= c < 4,
        source.x_offset + tx < sw,
        source.y_offset + ty < rows_of(src.len() as int, sw),
    ensures
        resampled_image(old, src, sw, tw, source, target)[pixel_index(
            target.x_offset + tx,
            target.y_offset + ty,
            tw,
            c,
        )] == src[pixel_index(source.x_offset + tx, source.y_offset + ty, sw, c)],
{
    let row = target.y_offset + ty;
    let col = target.x_offset + tx;
    lemma_pixel_decode(col, row, tw, c);
    lemma_pixel_in_bounds(col, row, tw, target.y_offset + target.height, c, old.len() as int);
    lemma_nearest_same_size(tx, target.width as int);
    lemma_nearest_same_size(ty, target.height as int);
}

proof fn lemma_uniform_row_sum(src: Seq<u8>, sw: int, y: int, x0: int, x1: int, c: int, v: u8)
    requires
        x0 <= x1,
        forall|x: int| x0 <= x < x1 ==> #[trigger] src[pixel_index(x, y, sw, c)] == v,
    ensures
        row_sum(src, sw, y, x0, x1, c) == v * (x1 - x0),
    decreases x1 - x0,
{
    if x1 > x0 {
        lemma_uniform_row_sum(src, sw, y, x0, x1 - 1, c, v);
        assert(src[pixel_index(x1 - 1, y, sw, c)] == v);
        assert(row_sum(src, sw, y, x0, x1, c) == row_sum(src, sw, y, x0, x1 - 1, c) + src[pixel_index(x1 - 1, y, sw, c)]);
        assert(v * (x1 - 1 - x0) + v == v * (x1 - x0)) by (nonlinear_arith);
    } else {
        assert(v * (x1 - x0) == 0) by (nonlinear_arith)
            requires x1 == x0;
    }
}

proof fn lemma_uniform_box_sum(src: Seq<u8>, sw: int, x0: int, x1: int, y0: int, y1: int, c: int, v: u8)
    requires
        x0 <= x1,
        y0 <= y1,
        forall|x: int, y: int| x0 <= x < x1 && y0 <= y < y1 ==> #[trigger] src[pixel_index(x, y, sw, c)] == v,
    ensures
        box_sum(src, sw, x0, x1, y0, y1, c) == v * ((x1 - x0) * (y1 - y0)),
    decreases y1 - y0,
{
    if y1 > y0 {
        lemma_uniform_box_sum(src, sw, x0, x1, y0, y1 - 1, c, v);
        assert forall|x: int| x0 <= x < x1 implies #[trigger] src[pixel_index(x, y1 - 1, sw, c)] == v by {}
        lemma_uniform_row_sum(src, sw, y1 - 1, x0, x1, c, v);
        assert(box_sum(src, sw, x0, x1, y0, y1, c) == box_sum(src, sw, x0, x1, y0, y1 - 1, c) + row_sum(src, sw, y1 - 1, x0, x1, c));
        assert(v * ((x1 - x0) * (y1 - 1 - y0)) + v * (x1 - x0) == v * ((x1 - x0) * (y1 - y0)))
            by (nonlinear_arith);
    } else {
        assert(v * ((x1 - x0) * (y1 - y0)) == 0) by (nonlinear_arith)
            requires y1 == y0;
    }
}

/// Box averaging keeps a uniform colour: when every pixel of the source buffer holds `v` in
/// channel `c`, and the source rectangle is at least as large as the target on both axes,
/// every target pixel whose box starts inside the source buffer receives exactly `v`.
pub proof fn lemma_uniform_downscale(
    src: Seq<u8>,
    sw: int,
    source: OffsetAndDimension,
    target: OffsetAndDimension,
    tx: int,
    ty: int,
    c: int,
    v: u8,
)
    requires
        !fill_mode(source, target),
        source.width >= target.width,
        source.height >= target.height,
        sw > 0,
        0 <= tx < target.width,
        0 <= ty < target.height,
        0 <= c < 4,
        forall|x: int, y: int|
            0 <= x < sw && 0 <= y < rows_of(src.len() as int, sw) ==> #[trigger] src[pixel_index(x, y, sw, c)] == v,
    ensures
        resampled_channel(src, sw, source, target, tx, ty, c) == (if box_origin(
            tx,
            source.x_offset as int,
            source.width as int,
            target.width as int,
        ) < sw && box_origin(ty, source.y_offset as int, source.height as int, target.height as int)
            < rows_of(src.len() as int, sw) {
            Some(v)
        } else {
            None
        }),
{
    let sh = rows_of(src.len() as int, sw);
    let sx = box_origin(tx, source.x_offset as int, source.width as int, target.width as int);
    let sy = box_origin(ty, source.y_offset as int, source.height as int, target.height as int);
    let xs = source.width as int / target.width as int;
    let ys = source.height as int / target.height as int;
    vstd::arithmetic::div_mod::lemma_div_is_ordered(target.width as int, source.width as int, target.width as int);
    vstd::arithmetic::div_mod::lemma_div_is_ordered(target.height as int, source.height as int, target.height as int);
    vstd::arithmetic::div_mod::lemma_div_by_multiple(1, target.width as int);
    vstd::arithmetic::div_mod::lemma_div_by_multiple(1, target.height as int);
    assert(0 <= (tx * source.width) / target.width as int) by {
        vstd::arithmetic::div_mod::lemma_div_pos_is_pos(tx * source.width, target.width as int);
    }
    assert(0 <= (ty * source.height) / target.height as int) by {
        vstd::arithmetic::div_mod::lemma_div_pos_is_pos(ty * source.height, target.height as int);
    }
    let x1 = min_int(sx + xs, sw);
    let y1 = min_int(sy + ys, sh);
    if sx < sw && sy < sh {
        assert forall|x: int, y: int| sx <= x < x1 && sy <= y < y1 implies #[trigger] src[pixel_index(x, y, sw, c)] == v by {}
        lemma_uniform_box_sum(src, sw, sx, x1, sy, y1, c, v);
        let n = (x1 - sx) * (y1 - sy);
        assert(n > 0) by (nonlinear_arith)
            requires n == (x1 - sx) * (y1 - sy), sx < x1, sy < y1;
        vstd::arithmetic::div_mod::lemma_div_by_multiple(v as int, n);
    }
}

/// The rectangle (x, y, width, height) of one face of a body part's layer in the 64×64 atlas.
///
/// The head's faces are 8×8; the body's are 8×12 in front and back, 4×12 at the sides and 8×4
/// on top and bottom; limbs are 4 wide (arms 3 in the slim model) and 12 high, 4 high on top
/// and bottom. Overlay layers lie 32 pixels right of the head, 16 below the body, right arm
/// and right leg, 16 right of the left arm and 16 left of the left leg.
pub open spec fn face_rect(part: SkinPart, layer: SkinLayer, face: SkinFace, model: SkinModel) -> (int, int, int, int) {
    let top = layer == SkinLayer::Top;
    let cap = face == SkinFace::Top || face == SkinFace::Bottom;
    if part == SkinPart::Head {
        let (x, y): (int, int) = match face {
            SkinFace::Top => (8, 0),
            SkinFace::Bottom => (16, 0),
            SkinFace::Right => (0, 8),
            SkinFace::Front => (8, 8),
            SkinFace::Left => (16, 8),
            SkinFace::Back => (24, 8),
        };
        (if top { x + 32 } else { x }, y, 8, 8)
    } else if part == SkinPart::Body {
        let (x, y, w, h): (int, int, int, int) = match face {
            SkinFace::Left => (16, 20, 4, 12),
            SkinFace::Right => (28, 20, 4, 12),
            SkinFace::Top => (20, 16, 8, 4),
            SkinFace::Bottom => (28, 16, 8, 4),
            SkinFace::Front => (20, 20, 8, 12),
            SkinFace::Back => (32, 20, 8, 12),
        };
        (x, if top { y + 16 } else { y }, w, h)
    } else if part == SkinPart::LegRight || part == SkinPart::LegLeft {
        let (x, y): (int, int) = match face {
            SkinFace::Top => (4, 16),
            SkinFace::Bottom => (8, 16),
            SkinFace::Right => (0, 20),
            SkinFace::Front => (4, 20),
            SkinFace::Left => (8, 20),
            SkinFace::Back => (12, 20),
        };
        let h: int = if cap { 4 } else { 12 };
        if part == SkinPart::LegLeft {
            (if top { x } else { x + 16 }, y + 32, 4, h)
        } else {
            (x, if top { y + 16 } else { y }, 4, h)
        }
    } else {
        let aw: int = if model == SkinModel::Classic { 4 } else { 3 };
        let (x, y, w): (int, int, int) = match face {
            SkinFace::Top => (44, 16, aw),
            SkinFace::Bottom => (44 + aw, 16, aw),
            SkinFace::Right => (40, 20, 4),
            SkinFace::Front => (44, 20, aw),
            SkinFace::Left => (44 + aw, 20, 4),
            SkinFace::Back => (44 + aw, 20, aw),
        };
        let h: int = if cap { 4 } else { 12 };
        if part == SkinPart::ArmLeft {
            (if top { x + 8 } else { x - 8 }, y + 32, w, h)
        } else {
            (x, if top { y + 16 } else { y }, w, h)
        }
    }
}

/// Where one face of a body part's layer lies in the 64×64 atlas; see `face_rect`.
pub fn texture_position_face(part: &SkinPart, layer: &SkinLayer, face: &SkinFace, model: &SkinModel) -> (r: Option<OffsetAndDimension>)
    ensures
        r matches Some(p) && rect_of(p) == face_rect(*part, *layer, *face, *model),
{
    let mut width: usize;
    let height: usize;
    let mut x_offset: usize = 0;
    let mut y_offset: usize = 0;
    if *part == SkinPart::Head {
        width = 8;
        height = 8;
        match face {
            SkinFace::Top => x_offset = 8,
            SkinFace::Bottom => x_offset = 16,
            SkinFace::Right => y_offset = 8,
            SkinFace::Front => {
                x_offset = 8;
                y_offset = 8;
            },
            SkinFace::Left => {
                x_offset = 16;
                y_offset = 8;
            },
            SkinFace::Back => {
                x_offset = 24;
                y_offset = 8;
            },
        }
        if *layer == SkinLayer::Top {
            x_offset += 32;
        }
    } else if *part == SkinPart::Body {
        if *face == SkinFace::Left || *face == SkinFace::Right {
            x_offset = if *face == SkinFace::Left { 16 } else { 28 };
            y_offset = 20;
            width = 4;
            height = 12;
        } else {
            width = 8;
            if *face == SkinFace::Top || *face == SkinFace::Bottom {
                x_offset = if *face == SkinFace::Top { 20 } else { 28 };
                y_offset = 16;
                height = 4;
            } else {
                x_offset = if *face == SkinFace::Front { 20 } else { 32 };
                y_offset = 20;
                height = 12;
            }
        }
        if *layer == SkinLayer::Top {
            y_offset += 16;
        }
    } else {
        width = 4;
        height = if *face == SkinFace::Top || *face == SkinFace::Bottom { 4 } else { 12 };
        if *part == SkinPart::LegRight || *part == SkinPart::LegLeft {
            if *face == SkinFace::Top || *face == SkinFace::Bottom {
                y_offset = 16;
                x_offset = if *face == SkinFace::Top { 4 } else { 8 };
            } else {
                y_offset = 20;
                match face {
                    SkinFace::Front => x_offset = 4,
                    SkinFace::Left => x_offset = 8,
                    SkinFace::Back => x_offset = 12,
                    _ => {},
                }
            }
            if *part == SkinPart::LegLeft {
                x_offset += 16;
                y_offset += 32;
            }
        } else {
            let arm_width: usize = if *model == SkinModel::Classic { 4 } else { 3 };
            if *face == SkinFace::Top || *face == SkinFace::Bottom {
                x_offset = 44;
                if *face == SkinFace::Bottom {
                    x_offset += arm_width;
                }
                y_offset = 16;
                width = arm_width;
            } else {
                x_offset = 40;
                y_offset = 20;
                match face {
                    SkinFace::Front => {
                        x_offset += 4;
                        width = arm_width;
                    },
                    SkinFace::Left => x_offset += 4 + arm_width,
                    SkinFace::Back => {
                        x_offset += 4 + arm_width;
                        width = arm_width;
                    },
                    _ => {},
                }
            }
            if *part == SkinPart::ArmLeft {
                x_offset -= 8;
                y_offset += 32;
            }
        }
        if *layer == SkinLayer::Top {
            if *part == SkinPart::ArmLeft {
                x_offset += 16;
            } else if *part == SkinPart::LegLeft {
                x_offset -= 16;
            } else {
                y_offset += 16;
            }
        }
    }
    Some(OffsetAndDimension { x_offset, y_offset, width, height })
}

/// Sets pixel (`x`, `y`), that is pixel `y * width + x`, of an RGBA image `width` pixels wide
/// to an opaque colour; a pixel past the end of the buffer is left alone.
pub fn set_rgb_pixel(image: &mut [u8], width: usize, x: usize, y: usize, r: u8, g: u8, b: u8)
    ensures
        pixel_index(x as int, y as int, width as int, 3) < old(image)@.len() ==> final(image)@ == old(image)@.update(
            pixel_index(x as int, y as int, width as int, 0),
            r,
        ).update(pixel_index(x as int, y as int, width as int, 1), g).update(
            pixel_index(x as int, y as int, width as int, 2),
            b,
        ).update(pixel_index(x as int, y as int, width as int, 3), 255),
        pixel_index(x as int, y as int, width as int, 3) >= old(image)@.len() ==> final(image)@ == old(image)@,
{
    let n = image.len();
    assert((y as u128) * (width as u128) + (x as u128) < 0x1_0000_0000_0000_0000_0000_0000_0000_0000) by (nonlinear_arith)
        requires y <= usize::MAX, width <= usize::MAX, x <= usize::MAX, usize::MAX < 0x1_0000_0000_0000_0000;
    let p: u128 = (y as u128) * (width as u128) + x as u128;
    if p >= n as u128 || p * 4 + 3 >= n as u128 {
        return;
    }
    let pixel = (p * 4) as usize;
    image[pixel] = r;
    image[pixel + 1] = g;
    image[pixel + 2] = b;
    image[pixel + 3] = 255;
}

} // verus!
