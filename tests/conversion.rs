use sha2::{Digest, Sha256};
use skins::codec::{encode_custom_image, encode_image};
use skins::geometry::GeometryError;
use skins::json_tree::{parse_json, JsonNode};
use skins::pixel_cleaner::clear_unused_pixels;
use skins::hex::write_hex;
use skins::skin_convert::{collect_skin_info, collect_skin_info_parsed, convert_parsed_skin, convert_skin, parse_geometry, parse_patch, ConvertResult, ErrorType};

const NULL_GEOMETRY: &str = "bnVsbAo=";

fn canonical_skin() -> Vec<u8> {
    let mut v = vec![0u8; 16384];
    for (i, b) in v.iter_mut().enumerate() {
        *b = if i % 4 == 3 { 255 } else { (i * 13 % 256) as u8 };
    }
    clear_unused_pixels(&mut v, true);
    clear_unused_pixels(&mut v, false);
    v
}

fn claims(width: i64, height: i64, pixels: &[u8], patch: &str, geometry: &str, extra: &str) -> JsonNode {
    let text = format!(
        r#"{{"SkinImageWidth":{},"SkinImageHeight":{},"SkinData":"{}","SkinResourcePatch":"{}","SkinGeometryData":"{}"{}}}"#,
        width,
        height,
        base64::encode(pixels),
        base64::encode(patch),
        geometry,
        extra
    );
    parse_json(&text).expect("claims are JSON")
}

fn default_patch(name: &str) -> String {
    format!(r#"{{"geometry":{{"default":"{}"}}}}"#, name)
}

fn arm_geometry(width: u32) -> String {
    base64::encode(format!(
        r#"{{"format_version":"1.12.0","minecraft:geometry":[{{"description":{{"identifier":"geometry.test","texture_width":64,"texture_height":64}},
        "bones":[{{"name":"head","cubes":[{{"size":[8,8,8],"uv":[0,0]}}]}},{{"name":"leftArm","cubes":[{{"size":[{},12,8],"uv":[32,48]}}]}}]}}]}}"#,
        width
    ))
}

fn success(r: ConvertResult) -> (skins::codec::ImageWithHashes, bool) {
    match r {
        ConvertResult::Success(img, classic) => (img, classic),
        ConvertResult::Error(m) => panic!("conversion failed: {}", m),
        ConvertResult::Invalid(t) => panic!("request invalid: {:?}", t),
    }
}

fn decoded_pixels(png: &[u8]) -> Vec<u8> {
    let bitmap = lodepng::decode32(png).expect("valid png");
    assert_eq!((bitmap.width, bitmap.height), (64, 64));
    bitmap.buffer.iter().flat_map(|p| [p.r, p.g, p.b, p.a]).collect()
}

#[test]
fn canonical_skin_passes_through_unchanged() {
    let pixels = canonical_skin();
    let c = claims(64, 64, &pixels, &default_patch("geometry.humanoid.custom"), NULL_GEOMETRY, "");
    let (img, classic) = success(convert_skin(&c));
    assert!(classic);
    assert_eq!(img.hash, Sha256::digest(&pixels).to_vec());
    assert_eq!(decoded_pixels(&img.png), pixels);
}

#[test]
fn png_round_trip_keeps_internal_hash() {
    let pixels = canonical_skin();
    let c = claims(64, 64, &pixels, &default_patch("geometry.humanoid.custom"), NULL_GEOMETRY, "");
    let (img, _) = success(convert_skin(&c));
    let decoded = decoded_pixels(&img.png);
    assert_eq!(Sha256::digest(&decoded).to_vec(), img.hash);
    assert_eq!(img.minecraft_hash, Sha256::digest(&img.png).to_vec());
    assert_eq!(img.hash.len(), 32);
}

#[test]
fn encoded_image_is_a_png_with_its_hashes() {
    let pixels = canonical_skin();
    let img = encode_image(&pixels).expect("encodes");
    assert_eq!(&img.png[..8], &[0x89, b'P', b'N', b'G', 0x0d, 0x0a, 0x1a, 0x0a]);
    assert_ne!(img.png, pixels);
    assert_eq!(img.minecraft_hash, Sha256::digest(&img.png).to_vec());
    assert_eq!(img.hash, Sha256::digest(&pixels).to_vec());
    let small = encode_custom_image(&[1, 2, 3, 4], 1, 1).expect("encodes");
    assert_eq!(decoded_len(&small.png), 1);
}

fn decoded_len(png: &[u8]) -> usize {
    lodepng::decode32(png).expect("valid png").buffer.len()
}

#[test]
fn slim_geometry_name_passes_through_as_slim() {
    let pixels = canonical_skin();
    let c = claims(64, 64, &pixels, &default_patch("geometry.humanoid.customSlim"), NULL_GEOMETRY, "");
    let (_, classic) = success(convert_skin(&c));
    assert!(!classic);
}

#[test]
fn small_skin_is_scaled_into_the_atlas() {
    let pixels: Vec<u8> = (0..32 * 32).flat_map(|i| [(i % 200) as u8, 1, 2, 255]).collect();
    let c = claims(32, 32, &pixels, &default_patch("geometry.humanoid.custom"), NULL_GEOMETRY, "");
    let (img, _) = success(convert_skin(&c));
    let decoded = decoded_pixels(&img.png);
    // atlas pixel (9, 9) takes source pixel floor((9 + 1/2) * 32 / 64) = (4, 4)
    let i = (9 * 64 + 9) * 4;
    assert_eq!(&decoded[i..i + 4], &[((4 * 32 + 4) % 200) as u8, 1, 2, 255]);
}

#[test]
fn classic_arm_model_is_inferred() {
    let pixels = canonical_skin();
    let c = claims(64, 64, &pixels, &default_patch("geometry.test"), &arm_geometry(4), "");
    let (_, classic) = success(convert_skin(&c));
    assert!(classic);
}

#[test]
fn slim_arm_model_is_inferred() {
    let pixels = canonical_skin();
    let c = claims(64, 64, &pixels, &default_patch("geometry.test"), &arm_geometry(3), "");
    let (_, classic) = success(convert_skin(&c));
    assert!(!classic);
}

#[test]
fn arm_size_claim_overrides_inference() {
    let pixels = canonical_skin();
    let slim = claims(64, 64, &pixels, &default_patch("geometry.test"), &arm_geometry(4), r#","ArmSize":"slim""#);
    assert!(!success(convert_skin(&slim)).1);
    let steve = claims(64, 64, &pixels, &default_patch("geometry.test"), &arm_geometry(3), r#","ArmSize":"steve""#);
    assert!(success(convert_skin(&steve)).1);
}

#[test]
fn unsupported_format_version_is_an_error() {
    let pixels = canonical_skin();
    let geometry = base64::encode(r#"{"format_version":"9.9.9"}"#);
    let c = claims(64, 64, &pixels, &default_patch("geometry.test"), &geometry, "");
    match convert_skin(&c) {
        ConvertResult::Error(m) => {
            assert!(!m.is_empty());
            assert_eq!(m, GeometryError::UnsupportedFormatVersion.message());
        },
        _ => panic!("expected an error"),
    }
}

#[test]
fn unmatched_identifier_is_an_error_not_invalid() {
    let pixels = canonical_skin();
    let geometry = base64::encode(
        r#"{"format_version":"1.12.0","minecraft:geometry":[{"description":{"identifier":"geometry.other","texture_width":64,"texture_height":64},"bones":[]}]}"#,
    );
    let c = claims(64, 64, &pixels, &default_patch("geometry.test"), &geometry, "");
    match convert_skin(&c) {
        ConvertResult::Error(m) => assert_eq!(m, "geometry with given identifier wasn't found"),
        _ => panic!("expected an error"),
    }
}

#[test]
fn broken_geometry_documents_are_errors() {
    let pixels = canonical_skin();
    let not_json = base64::encode("{not json");
    let c = claims(64, 64, &pixels, &default_patch("geometry.test"), &not_json, "");
    assert!(matches!(convert_skin(&c), ConvertResult::Error("invalid json")));
    let not_utf8 = base64::encode([0xffu8, 0xfe, 0x00]);
    let c = claims(64, 64, &pixels, &default_patch("geometry.test"), &not_utf8, "");
    assert!(matches!(convert_skin(&c), ConvertResult::Error("invalid utf-8 data")));
    let no_version = base64::encode(r#"{"minecraft:geometry":[]}"#);
    let c = claims(64, 64, &pixels, &default_patch("geometry.test"), &no_version, "");
    assert!(matches!(convert_skin(&c), ConvertResult::Error("geometry data doesn't have a valid format version")));
    let no_bones = base64::encode(r#"{"format_version":"1.8.0","geometry.test":{"texturewidth":64,"textureheight":64}}"#);
    let c = claims(64, 64, &pixels, &default_patch("geometry.test"), &no_bones, "");
    assert!(matches!(convert_skin(&c), ConvertResult::Error("geometry data doesn't have any bones")));
}

#[test]
fn size_mismatch_is_invalid_size() {
    let pixels = canonical_skin();
    let c = claims(64, 63, &pixels, &default_patch("geometry.test"), NULL_GEOMETRY, "");
    assert!(matches!(convert_skin(&c), ConvertResult::Invalid(ErrorType::InvalidSize)));
    let negative = claims(-64, 64, &pixels, &default_patch("geometry.test"), NULL_GEOMETRY, "");
    assert!(matches!(convert_skin(&negative), ConvertResult::Invalid(ErrorType::InvalidSize)));
}

#[test]
fn missing_patch_is_invalid_geometry() {
    let pixels = canonical_skin();
    let text = format!(
        r#"{{"SkinImageWidth":64,"SkinImageHeight":64,"SkinData":"{}","SkinGeometryData":"{}"}}"#,
        base64::encode(&pixels),
        NULL_GEOMETRY
    );
    let c = parse_json(&text).unwrap();
    assert!(matches!(convert_skin(&c), ConvertResult::Invalid(ErrorType::InvalidGeometry)));
    let no_default = claims(64, 64, &pixels, r#"{"geometry":{}}"#, NULL_GEOMETRY, "");
    assert!(matches!(convert_skin(&no_default), ConvertResult::Invalid(ErrorType::InvalidGeometry)));
}

#[test]
fn collected_info_holds_the_request() {
    let pixels = canonical_skin();
    let c = claims(64, 64, &pixels, &default_patch("geometry.test"), &arm_geometry(4), "");
    let info = collect_skin_info(&c).ok().expect("valid request");
    assert!(info.needs_convert);
    assert_eq!(info.skin_width, 64);
    assert_eq!(info.raw_skin_data, pixels);
    assert_eq!(info.geometry_name, "geometry.test");
    assert!(info.geometry_data.starts_with(b"{\"format_version\""));
    let passthrough = claims(64, 64, &pixels, &default_patch("geometry.test"), NULL_GEOMETRY, "");
    assert!(!collect_skin_info(&passthrough).ok().unwrap().needs_convert);
}

#[test]
fn geometry_of_another_size_is_resampled_first() {
    // a 32 × 32 skin whose geometry declares 64 × 64: the skin is scaled up before bones apply
    let pixels: Vec<u8> = (0..32 * 32).flat_map(|_| [50u8, 60, 70, 255]).collect();
    let c = claims(32, 32, &pixels, &default_patch("geometry.test"), &arm_geometry(4), "");
    let (img, _) = success(convert_skin(&c));
    let decoded = decoded_pixels(&img.png);
    let i = (10 * 64 + 10) * 4;
    assert_eq!(&decoded[i..i + 4], &[50, 60, 70, 255]);
}

#[test]
fn animated_face_is_laid_over_the_head() {
    let pixels = canonical_skin();
    let patch = r#"{"geometry":{"default":"geometry.test","animated_face":"geometry.face"}}"#;
    let geometry = base64::encode(
        r#"{"format_version":"1.12.0","minecraft:geometry":[
        {"description":{"identifier":"geometry.test","texture_width":64,"texture_height":64},"bones":[{"name":"body","cubes":[{"size":[8,12,4],"uv":[16,16]}]}]},
        {"description":{"identifier":"geometry.face","texture_width":32,"texture_height":16},"bones":[{"name":"head","cubes":[{"size":[8,8,8],"uv":[0,0]}]}]}]}"#,
    );
    let face: Vec<u8> = (0..32 * 16).flat_map(|_| [9u8, 8, 7, 255]).collect();
    let frames = format!(
        r#","AnimatedImageData":[{{"Type":2,"ImageWidth":1,"ImageHeight":1,"Image":"AAAAAA=="}},{{"Type":1,"ImageWidth":32,"ImageHeight":16,"Image":"{}"}}]"#,
        base64::encode(&face)
    );
    let c = claims(64, 64, &pixels, patch, &geometry, &frames);
    let (img, _) = success(convert_skin(&c));
    let decoded = decoded_pixels(&img.png);
    let i = (8 * 64 + 8) * 4;
    assert_eq!(&decoded[i..i + 4], &[9, 8, 7, 255]);
    let missing = claims(64, 64, &pixels, patch, &geometry, "");
    assert!(matches!(convert_skin(&missing), ConvertResult::Error("animated image data has to be present")));
    let wrong = format!(r#","AnimatedImageData":[{{"Type":1,"ImageWidth":32,"ImageHeight":15,"Image":"{}"}}]"#, base64::encode(&face));
    let c = claims(64, 64, &pixels, patch, &geometry, &wrong);
    assert!(matches!(convert_skin(&c), ConvertResult::Error("animated frame image has an incorrect length")));
    let no_face = r#","AnimatedImageData":[{"Type":2,"ImageWidth":1,"ImageHeight":1,"Image":"AAAAAA=="}]"#;
    let c = claims(64, 64, &pixels, patch, &geometry, no_face);
    assert!(matches!(
        convert_skin(&c),
        ConvertResult::Error("geometry did have an animated face, but the animation frame doesn't")
    ));
}

#[test]
fn wrong_buffer_length_does_not_encode() {
    assert!(encode_custom_image(&[1, 2, 3], 1, 1).is_none());
    assert!(encode_custom_image(&[0; 8], 1, 1).is_none());
    assert!(encode_image(&[0; 100]).is_none());
}

#[test]
fn hex_is_upper_case() {
    assert_eq!(write_hex(&[0x00, 0x0f, 0xa5, 0xff]), "000FA5FF");
    assert_eq!(write_hex(&[]), "");
}

#[test]
fn parsed_documents_decide_the_result() {
    let pixels = canonical_skin();
    let c = claims(64, 64, &pixels, &default_patch("geometry.test"), &arm_geometry(3), "");
    let patch = parse_patch(&c);
    let document = parse_geometry(&c);
    assert!(patch.is_some() && document.is_some());
    let (_, classic) = success(convert_parsed_skin(&c, patch, document));
    assert!(!classic);
    // the same request with a patch the parser rejected is incomplete
    assert!(matches!(
        convert_parsed_skin(&c, None, parse_geometry(&c)),
        ConvertResult::Invalid(ErrorType::InvalidGeometry)
    ));
    // and with a geometry the parser rejected is an error
    assert!(matches!(convert_parsed_skin(&c, parse_patch(&c), None), ConvertResult::Error("invalid json")));
    let info = collect_skin_info_parsed(&c, parse_patch(&c)).ok().unwrap();
    assert_eq!(info.geometry_name, "geometry.test");
}
