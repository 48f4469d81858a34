use skins::common::{Offset, OffsetAndDimension};
use skins::pixel_cleaner::clear_unused_pixels;
use skins::skin::{SkinFace, SkinLayer, SkinModel, SkinPart, SkinSection};
use skins::texture::{scale_and_fill_texture, set_rgb_pixel, texture_position, texture_position_face};

fn rect(x: usize, y: usize, w: usize, h: usize) -> OffsetAndDimension {
    OffsetAndDimension::new(x, y, w, h)
}

fn pixel(buf: &[u8], width: usize, x: usize, y: usize) -> [u8; 4] {
    let i = (y * width + x) * 4;
    [buf[i], buf[i + 1], buf[i + 2], buf[i + 3]]
}

#[test]
fn constructors_keep_their_fields() {
    let r = OffsetAndDimension::new(1, 2, 3, 4);
    assert_eq!((r.x_offset, r.y_offset, r.width, r.height), (1, 2, 3, 4));
    let o = Offset::new(5, 6);
    assert_eq!((o.x_offset, o.y_offset), (5, 6));
}

#[test]
fn atlas_positions() {
    assert_eq!(texture_position(SkinSection(&SkinPart::Head, SkinLayer::Bottom)), Some(rect(0, 0, 32, 16)));
    assert_eq!(texture_position(SkinSection(&SkinPart::Head, SkinLayer::Top)), Some(rect(32, 0, 32, 16)));
    assert_eq!(texture_position(SkinSection(&SkinPart::ArmLeft, SkinLayer::Bottom)), Some(rect(32, 48, 16, 16)));
    assert_eq!(texture_position(SkinSection(&SkinPart::LegRight, SkinLayer::Top)), Some(rect(0, 32, 16, 16)));
    assert_eq!(texture_position(SkinSection(&SkinPart::Body, SkinLayer::Both)), None);
}

#[test]
fn face_positions() {
    let head = texture_position_face(&SkinPart::Head, &SkinLayer::Bottom, &SkinFace::Front, &SkinModel::Classic);
    assert_eq!(head, Some(rect(8, 8, 8, 8)));
    let hat = texture_position_face(&SkinPart::Head, &SkinLayer::Top, &SkinFace::Back, &SkinModel::Classic);
    assert_eq!(hat, Some(rect(56, 8, 8, 8)));
    let slim_arm = texture_position_face(&SkinPart::ArmRight, &SkinLayer::Bottom, &SkinFace::Front, &SkinModel::Slim);
    assert_eq!(slim_arm, Some(rect(44, 20, 3, 12)));
    let sleeve = texture_position_face(&SkinPart::ArmLeft, &SkinLayer::Top, &SkinFace::Front, &SkinModel::Classic);
    assert_eq!(sleeve, Some(rect(52, 52, 4, 12)));
    let pants = texture_position_face(&SkinPart::LegLeft, &SkinLayer::Top, &SkinFace::Top, &SkinModel::Classic);
    assert_eq!(pants, Some(rect(4, 48, 4, 4)));
    let jacket = texture_position_face(&SkinPart::Body, &SkinLayer::Top, &SkinFace::Right, &SkinModel::Slim);
    assert_eq!(jacket, Some(rect(28, 36, 4, 12)));
}

#[test]
fn same_size_is_a_byte_copy() {
    let mut src = vec![0u8; 8 * 8 * 4];
    for (i, b) in src.iter_mut().enumerate() {
        *b = (i * 7 % 256) as u8;
    }
    let mut dst = vec![9u8; 16 * 16 * 4];
    scale_and_fill_texture(&src, &mut dst, 8, 16, &rect(2, 1, 4, 5), &rect(10, 3, 4, 5));
    for y in 0..5 {
        for x in 0..4 {
            assert_eq!(pixel(&dst, 16, 10 + x, 3 + y), pixel(&src, 8, 2 + x, 1 + y));
        }
    }
    assert_eq!(pixel(&dst, 16, 9, 3), [9, 9, 9, 9]);
    assert_eq!(pixel(&dst, 16, 14, 3), [9, 9, 9, 9]);
    assert_eq!(pixel(&dst, 16, 10, 8), [9, 9, 9, 9]);
}

#[test]
fn uniform_downscale_keeps_colour() {
    let mut src = Vec::new();
    for _ in 0..16 {
        src.extend_from_slice(&[100, 100, 100, 255]);
    }
    let mut dst = vec![0u8; 2 * 2 * 4];
    scale_and_fill_texture(&src, &mut dst, 4, 2, &rect(0, 0, 4, 4), &rect(0, 0, 2, 2));
    for y in 0..2 {
        for x in 0..2 {
            assert_eq!(pixel(&dst, 2, x, y), [100, 100, 100, 255]);
        }
    }
}

#[test]
fn downscale_averages_boxes() {
    // 2×2 source averaged into one pixel: (10 + 20 + 30 + 41) / 4 = 25 (integer division)
    let src = vec![10, 0, 0, 255, 20, 0, 0, 255, 30, 0, 0, 255, 41, 0, 0, 255];
    let mut dst = vec![0u8; 4];
    scale_and_fill_texture(&src, &mut dst, 2, 1, &rect(0, 0, 2, 2), &rect(0, 0, 1, 1));
    assert_eq!(dst, vec![25, 0, 0, 255]);
}

#[test]
fn downscale_skips_samples_outside_the_source() {
    // the box of the single target pixel reaches past the 2×2 source: only its 4 pixels count
    let src = vec![10, 10, 10, 255, 20, 20, 20, 255, 30, 30, 30, 255, 40, 40, 40, 255];
    let mut dst = vec![0u8; 4];
    scale_and_fill_texture(&src, &mut dst, 2, 1, &rect(0, 0, 4, 4), &rect(0, 0, 1, 1));
    assert_eq!(dst, vec![25, 25, 25, 255]);
    // a box wholly outside the source leaves the target as it was
    let mut untouched = vec![7u8; 4];
    scale_and_fill_texture(&src, &mut untouched, 2, 1, &rect(5, 5, 4, 4), &rect(0, 0, 1, 1));
    assert_eq!(untouched, vec![7, 7, 7, 7]);
}

#[test]
fn upscale_uses_nearest_pixel() {
    let src = vec![1, 1, 1, 1, 2, 2, 2, 2, 3, 3, 3, 3, 4, 4, 4, 4];
    let mut dst = vec![0u8; 4 * 4 * 4];
    scale_and_fill_texture(&src, &mut dst, 2, 4, &rect(0, 0, 2, 2), &rect(0, 0, 4, 4));
    // floor((x + 1/2) * 2 / 4): 0, 0, 1, 1
    assert_eq!(pixel(&dst, 4, 0, 0), [1, 1, 1, 1]);
    assert_eq!(pixel(&dst, 4, 1, 1), [1, 1, 1, 1]);
    assert_eq!(pixel(&dst, 4, 2, 0), [2, 2, 2, 2]);
    assert_eq!(pixel(&dst, 4, 1, 2), [3, 3, 3, 3]);
    assert_eq!(pixel(&dst, 4, 3, 3), [4, 4, 4, 4]);
}

#[test]
fn padding_is_cleared_per_model() {
    let full = vec![200u8; 16384];
    let mut steve = full.clone();
    clear_unused_pixels(&mut steve, true);
    let mut slim = full.clone();
    clear_unused_pixels(&mut slim, false);
    // (0, 0) is padding in both layouts, (8, 8) in neither
    assert_eq!(pixel(&steve, 64, 0, 0), [0, 0, 0, 0]);
    assert_eq!(pixel(&slim, 64, 0, 0), [0, 0, 0, 0]);
    assert_eq!(pixel(&steve, 64, 8, 8), [200, 200, 200, 200]);
    // (54, 20) is padding of the slim layout only
    assert_eq!(pixel(&steve, 64, 54, 20), [200, 200, 200, 200]);
    assert_eq!(pixel(&slim, 64, 54, 20), [0, 0, 0, 0]);
    // (53, 33) is padding of the classic layout only
    assert_eq!(pixel(&steve, 64, 53, 33), [0, 0, 0, 0]);
    assert_eq!(pixel(&slim, 64, 53, 33), [200, 200, 200, 200]);
}

#[test]
fn rgb_pixel_is_opaque_and_bounded() {
    let mut img = vec![0u8; 2 * 2 * 4];
    set_rgb_pixel(&mut img, 2, 1, 1, 5, 6, 7);
    assert_eq!(pixel(&img, 2, 1, 1), [5, 6, 7, 255]);
    set_rgb_pixel(&mut img, 2, 1, 5, 9, 9, 9);
    assert_eq!(img.iter().filter(|b| **b == 9).count(), 0);
}

#[test]
fn rgb_pixel_past_the_row_wraps_into_the_next() {
    let mut img = vec![0u8; 2 * 2 * 4];
    // x = 2 in a 2-pixel row is pixel 2, the first of the second row
    set_rgb_pixel(&mut img, 2, 2, 0, 1, 2, 3);
    assert_eq!(pixel(&img, 2, 0, 1), [1, 2, 3, 255]);
}
