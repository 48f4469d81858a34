use skins::bones::{bone_name_to_skin_section, get_texture_position, is_bottom_arm, translate_bone};
use skins::common::OffsetAndDimension;
use skins::geometry::{get_correct_entry, GeometryError};
use skins::json_tree::{get_field, get_num, number_units, parse_json, JsonNode, JsonNumber, MAX_UNITS, UNIT};
use skins::skin::{SkinLayer, SkinModel, SkinPart};

fn doc(text: &str) -> JsonNode {
    parse_json(text).expect("test document is JSON")
}

fn gradient_skin() -> Vec<u8> {
    let mut v = vec![0u8; 64 * 64 * 4];
    for (i, b) in v.iter_mut().enumerate() {
        *b = if i % 4 == 3 { 255 } else { (i / 4 % 251) as u8 };
    }
    v
}

#[test]
fn numbers_are_read_exactly() {
    let n = JsonNumber { positive: true, mantissa: 15, exponent: -1 };
    assert_eq!(number_units(&n), 15 * UNIT / 10);
    let negative = JsonNumber { positive: false, mantissa: 2, exponent: 0 };
    assert_eq!(number_units(&negative), -2 * UNIT);
    // decimal places past the twentieth are dropped
    let tiny = JsonNumber { positive: true, mantissa: 1, exponent: -30 };
    assert_eq!(number_units(&tiny), 0);
    let truncated = JsonNumber { positive: false, mantissa: 25_000_000_000, exponent: -30 };
    assert_eq!(number_units(&truncated), -2);
    // magnitudes past 10^15 saturate
    let huge = JsonNumber { positive: true, mantissa: 1, exponent: 40 };
    assert_eq!(number_units(&huge), MAX_UNITS);
    let trailing = JsonNumber { positive: true, mantissa: 250_000_000_000, exponent: -30 };
    assert_eq!(number_units(&trailing), 25);
    let d = doc(r#"{"a": 0.25, "b": "x"}"#);
    assert_eq!(get_num(&d, "a"), Some(UNIT / 4));
    assert_eq!(get_num(&d, "b"), None);
    assert!(get_field(&d, "c").is_none());
}

#[test]
fn bone_names_map_to_sections() {
    let s = bone_name_to_skin_section("leftarm").unwrap();
    assert_eq!((*s.0, s.1), (SkinPart::ArmLeft, SkinLayer::Bottom));
    let s = bone_name_to_skin_section("rightPants").unwrap();
    assert_eq!((*s.0, s.1), (SkinPart::LegRight, SkinLayer::Top));
    assert!(bone_name_to_skin_section("cape").is_none());
    assert_eq!(get_texture_position("jacket"), Some(OffsetAndDimension::new(16, 32, 24, 16)));
    assert!(get_texture_position("tail").is_none());
    assert!(is_bottom_arm("rightArm"));
    assert!(is_bottom_arm("leftArm"));
    assert!(!is_bottom_arm("rightSleeve"));
    assert!(!is_bottom_arm("body"));
}

#[test]
fn legacy_entry_is_found_by_key() {
    let d = doc(r#"{"format_version":"1.8.0","geometry.a":{"texturewidth":64,"textureheight":32,"bones":[]}}"#);
    let (_, w, h) = get_correct_entry("1.8.0", &d, "geometry.a").unwrap();
    assert_eq!((w, h), (64, 32));
    assert_eq!(get_correct_entry("1.8.0", &d, "geometry.b").err(), Some(GeometryError::TextureWidthNotNumber));
}

#[test]
fn listed_entry_is_found_by_identifier() {
    let d = doc(
        r#"{"format_version":"1.12.0","minecraft:geometry":[
            {"description":{"identifier":"geometry.x","texture_width":16,"texture_height":16}},
            {"description":{"identifier":"geometry.a","texture_width":128,"texture_height":128.9}}]}"#,
    );
    let (_, w, h) = get_correct_entry("1.14.0", &d, "geometry.a").unwrap();
    assert_eq!((w, h), (128, 128));
}

#[test]
fn unsupported_format_is_rejected() {
    let d = doc(r#"{"format_version":"9.9.9"}"#);
    let e = get_correct_entry("9.9.9", &d, "geometry.a").err().unwrap();
    assert_eq!(e, GeometryError::UnsupportedFormatVersion);
    assert_eq!(e.message(), "unknown/unsupported geometry format version");
}

#[test]
fn unknown_identifier_is_not_found() {
    let d = doc(r#"{"format_version":"1.12.0","minecraft:geometry":[{"description":{"identifier":"geometry.x","texture_width":64,"texture_height":64}}]}"#);
    assert_eq!(get_correct_entry("1.12.0", &d, "geometry.a").err(), Some(GeometryError::GeometryNotFound));
    let missing = doc(r#"{"format_version":"1.12.0","minecraft:geometry":[{"description":{}}]}"#);
    assert_eq!(get_correct_entry("1.12.0", &missing, "geometry.a").err(), Some(GeometryError::MissingIdentifier));
}

#[test]
fn declared_size_must_be_positive_and_bounded() {
    let zero = doc(r#"{"g":{"texturewidth":0.5,"textureheight":64}}"#);
    assert_eq!(get_correct_entry("1.8.0", &zero, "g").err(), Some(GeometryError::TextureSizeNotPositive));
    let text = doc(r#"{"g":{"texturewidth":64,"textureheight":"64"}}"#);
    assert_eq!(get_correct_entry("1.8.0", &text, "g").err(), Some(GeometryError::TextureHeightNotNumber));
    let big = doc(r#"{"g":{"texturewidth":8192,"textureheight":64}}"#);
    assert_eq!(get_correct_entry("1.8.0", &big, "g").err(), Some(GeometryError::TextureTooLarge));
}

#[test]
fn classic_arm_is_inferred_from_cube_width() {
    let src = gradient_skin();
    let mut atlas = vec![0u8; 16384];
    let bone = doc(r#"{"name":"leftArm","cubes":[{"size":[4,12,8],"uv":[0,0]}]}"#);
    assert_eq!(translate_bone(&src, 64, &bone, false, &mut atlas), Ok(Some(SkinModel::Classic)));
    assert!(atlas.iter().any(|b| *b != 0));
}

#[test]
fn slim_arm_is_inferred_from_cube_width() {
    let src = gradient_skin();
    let mut atlas = vec![0u8; 16384];
    let bone = doc(r#"{"name":"rightArm","cubes":[{"size":[3,12,8],"uv":[40,16]}]}"#);
    assert_eq!(translate_bone(&src, 64, &bone, false, &mut atlas), Ok(Some(SkinModel::Slim)));
    let sleeve = doc(r#"{"name":"rightSleeve","cubes":[{"size":[3,12,8],"uv":[40,16]}]}"#);
    assert_eq!(translate_bone(&src, 64, &sleeve, false, &mut atlas), Ok(None));
}

#[test]
fn cube_copies_its_unfolded_rectangle() {
    let src = gradient_skin();
    let mut atlas = vec![0u8; 16384];
    // 2 * (4 + 4) = 16 wide, 4 + 12 = 16 high: the atlas rectangle of the right leg, copied 1:1
    let bone = doc(r#"{"name":"rightLeg","cubes":[{"size":[4,12,4],"uv":[0,16]}]}"#);
    assert_eq!(translate_bone(&src, 64, &bone, false, &mut atlas), Ok(None));
    for y in 16..32 {
        for x in 0..16 {
            let i = (y * 64 + x) * 4;
            assert_eq!(&atlas[i..i + 4], &src[i..i + 4]);
        }
    }
}

#[test]
fn skipped_and_malformed_bones() {
    let src = gradient_skin();
    let mut atlas = vec![0u8; 16384];
    let empty = doc(r#"{"name":"body","cubes":[]}"#);
    assert_eq!(translate_bone(&src, 64, &empty, false, &mut atlas), Ok(None));
    let unknown = doc(r#"{"name":"wing","cubes":[{"size":[1],"uv":[0,0]}]}"#);
    assert_eq!(translate_bone(&src, 64, &unknown, false, &mut atlas), Ok(None));
    let inert = doc(r#"{"name":"body"}"#);
    assert_eq!(translate_bone(&src, 64, &inert, false, &mut atlas), Ok(None));
    let face_only = doc(r#"{"name":"body","cubes":[{"size":[8,12,4],"uv":[16,16]}]}"#);
    assert_eq!(translate_bone(&src, 64, &face_only, true, &mut atlas), Ok(None));
    assert!(atlas.iter().all(|b| *b == 0));
    let object_uv = doc(r#"{"name":"body","cubes":[{"size":[8,12,4],"uv":{"north":{"uv":[0,0]}}}]}"#);
    assert_eq!(translate_bone(&src, 64, &object_uv, false, &mut atlas), Ok(None));
    assert!(atlas.iter().all(|b| *b == 0));
    let bad_size = doc(r#"{"name":"body","cubes":[{"size":[8,12],"uv":[0,0]}]}"#);
    assert_eq!(translate_bone(&src, 64, &bad_size, false, &mut atlas), Err(GeometryError::InvalidCubeSize));
    let bad_values = doc(r#"{"name":"body","cubes":[{"size":[8,"12",4],"uv":[0,0]}]}"#);
    assert_eq!(translate_bone(&src, 64, &bad_values, false, &mut atlas), Err(GeometryError::InvalidCubeSizeValues));
    let no_uv = doc(r#"{"name":"body","cubes":[{"size":[8,12,4]}]}"#);
    assert_eq!(translate_bone(&src, 64, &no_uv, false, &mut atlas), Err(GeometryError::MissingCubeUv));
    let nameless = doc(r#"{"cubes":[]}"#);
    assert_eq!(translate_bone(&src, 64, &nameless, false, &mut atlas), Err(GeometryError::BoneWithoutName));
    let not_array = doc(r#"{"name":"body","cubes":7}"#);
    assert_eq!(translate_bone(&src, 64, &not_array, false, &mut atlas), Err(GeometryError::CubesNotArray));
}

#[test]
fn normalized_uvs_match_premultiplied_uvs() {
    let src = gradient_skin();
    let normalized = doc(
        r#"{"name":"body","poly_mesh":{"normalized_uvs":true,"polys":[[[0,0,0]]],"normals":[[0,1,0]],
            "uvs":[[0.25,0.5],[0.5,0.75]]}}"#,
    );
    let premultiplied = doc(
        r#"{"name":"body","poly_mesh":{"polys":[[[0,0,0]]],"normals":[[0,1,0]],"uvs":[[16,32],[32,48]]}}"#,
    );
    let mut a = vec![0u8; 16384];
    let mut b = vec![0u8; 16384];
    assert_eq!(translate_bone(&src, 64, &normalized, false, &mut a), Ok(None));
    assert_eq!(translate_bone(&src, 64, &premultiplied, false, &mut b), Ok(None));
    assert_eq!(a, b);
    // the bounding box is 16 × 16 at (16, 64 - 48): copied onto the body's 24 × 16 rectangle
    assert!(a.iter().any(|v| *v != 0));
}

#[test]
fn mesh_errors() {
    let src = gradient_skin();
    let mut atlas = vec![0u8; 16384];
    let out = doc(r#"{"name":"body","poly_mesh":{"polys":[[0]],"normals":[[0]],"uvs":[[65,0]]}}"#);
    assert_eq!(translate_bone(&src, 64, &out, false, &mut atlas), Err(GeometryError::UvOutOfBounds));
    let mismatch = doc(r#"{"name":"body","poly_mesh":{"polys":[[0]],"normals":[],"uvs":[[1,1]]}}"#);
    assert_eq!(translate_bone(&src, 64, &mismatch, false, &mut atlas), Err(GeometryError::PolysNormalsMismatch));
    let empty = doc(r#"{"name":"body","poly_mesh":{"polys":[],"normals":[],"uvs":[[1,1]]}}"#);
    assert_eq!(translate_bone(&src, 64, &empty, false, &mut atlas), Err(GeometryError::EmptyMesh));
    let short = doc(r#"{"name":"body","poly_mesh":{"polys":[[0]],"normals":[[0]],"uvs":[[1]]}}"#);
    assert_eq!(translate_bone(&src, 64, &short, false, &mut atlas), Err(GeometryError::InvalidUvLength));
    let arm = doc(r#"{"name":"leftArm","poly_mesh":{"polys":[[0]],"normals":[[0]],"uvs":[[0,0],[18,16]]}}"#);
    assert_eq!(translate_bone(&src, 64, &arm, false, &mut atlas), Ok(Some(SkinModel::Slim)));
}

fn atlas_pixel(atlas: &[u8], x: usize, y: usize) -> &[u8] {
    let i = (y * 64 + x) * 4;
    &atlas[i..i + 4]
}

#[test]
fn cube_width_is_truncated() {
    let src = gradient_skin();
    let mut atlas = vec![0u8; 16384];
    // 2 * (4 + 3.9) = 15.8 pixels: 15 wide, stretched over the 16 columns of the right leg
    let bone = doc(r#"{"name":"rightLeg","cubes":[{"size":[3.9,12,4],"uv":[0,16]}]}"#);
    assert_eq!(translate_bone(&src, 64, &bone, false, &mut atlas), Ok(None));
    // column 15 takes source column floor(15.5 * 15 / 16) = 14
    assert_eq!(atlas_pixel(&atlas, 15, 20), atlas_pixel(&src, 14, 20));
    assert_eq!(atlas_pixel(&atlas, 0, 20), atlas_pixel(&src, 0, 20));
}

#[test]
fn cube_height_is_rounded_half_away() {
    let src = gradient_skin();
    let mut up = vec![0u8; 16384];
    // 4 + 11.5 = 15.5 rounds to 16 rows: a plain copy
    let half = doc(r#"{"name":"rightLeg","cubes":[{"size":[4,11.5,4],"uv":[0,16]}]}"#);
    assert_eq!(translate_bone(&src, 64, &half, false, &mut up), Ok(None));
    assert_eq!(atlas_pixel(&up, 3, 31), atlas_pixel(&src, 3, 31));
    let mut down = vec![0u8; 16384];
    // 4 + 11.4 = 15.4 rounds to 15 rows: row 15 of the leg takes source row 16 + 14
    let less = doc(r#"{"name":"rightLeg","cubes":[{"size":[4,11.4,4],"uv":[0,16]}]}"#);
    assert_eq!(translate_bone(&src, 64, &less, false, &mut down), Ok(None));
    assert_eq!(atlas_pixel(&down, 3, 31), atlas_pixel(&src, 3, 30));
}

#[test]
fn oversized_numbers_give_meaningful_errors() {
    // a texture width of 10^30 saturates and is reported as too large, not as "not a number"
    let big = doc(r#"{"g":{"texturewidth":1e30,"textureheight":64}}"#);
    assert_eq!(get_correct_entry("1.8.0", &big, "g").err(), Some(GeometryError::TextureTooLarge));
    // a UV with many decimal places is read, truncated, and lies inside the image
    let src = gradient_skin();
    let mut atlas = vec![0u8; 16384];
    let fine = doc(r#"{"name":"body","poly_mesh":{"polys":[[0]],"normals":[[0]],"uvs":[[0.1234567890123456789012345,1],[16,17]]}}"#);
    assert_eq!(translate_bone(&src, 64, &fine, false, &mut atlas), Ok(None));
}
