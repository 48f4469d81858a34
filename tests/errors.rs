use skins::bones::translate_bone;
use skins::chain_validator::ChainProgress;
use skins::geometry::GeometryError;
use skins::json_tree::{parse_json, JsonNode};
use skins::skin_convert::{convert_skin, ConvertResult, ErrorType};

fn doc(text: &str) -> JsonNode {
    parse_json(text).expect("test document is JSON")
}

fn bone_error(bone: &str) -> Option<GeometryError> {
    let src = vec![255u8; 64 * 64 * 4];
    let mut atlas = vec![0u8; 16384];
    translate_bone(&src, 64, &doc(bone), false, &mut atlas).err()
}

fn request(geometry: &str, patch: &str, extra: &str) -> JsonNode {
    let pixels = vec![0u8; 16384];
    doc(&format!(
        r#"{{"SkinImageWidth":64,"SkinImageHeight":64,"SkinData":"{}","SkinResourcePatch":"{}","SkinGeometryData":"{}"{}}}"#,
        base64::encode(&pixels),
        base64::encode(patch),
        base64::encode(geometry),
        extra
    ))
}

fn error_of(r: ConvertResult) -> &'static str {
    match r {
        ConvertResult::Error(m) => m,
        ConvertResult::Invalid(t) => panic!("request invalid: {:?}", t),
        ConvertResult::Success(..) => panic!("conversion succeeded"),
    }
}

const FACE_PATCH: &str = r#"{"geometry":{"default":"g","animated_face":"f"}}"#;
const FACE_GEOMETRY: &str = r#"{"format_version":"1.12.0","minecraft:geometry":[
    {"description":{"identifier":"g","texture_width":64,"texture_height":64},"bones":[]},
    {"description":{"identifier":"f","texture_width":1,"texture_height":1},"bones":[{"name":"head"}]}]}"#;

#[test]
fn cube_uv_errors() {
    assert_eq!(
        bone_error(r#"{"name":"body","cubes":[{"size":[8,12,4],"uv":5}]}"#),
        Some(GeometryError::CubeUvNotArray)
    );
    assert_eq!(
        bone_error(r#"{"name":"body","cubes":[{"size":[8,12,4],"uv":[1,2,3]}]}"#),
        Some(GeometryError::InvalidCubeUv)
    );
    assert_eq!(
        bone_error(r#"{"name":"body","cubes":[{"size":[8,12,4],"uv":[1,"2"]}]}"#),
        Some(GeometryError::InvalidCubeUv)
    );
}

#[test]
fn mesh_field_errors() {
    assert_eq!(bone_error(r#"{"name":"body","poly_mesh":{}}"#), Some(GeometryError::MissingPolys));
    assert_eq!(bone_error(r#"{"name":"body","poly_mesh":{"polys":1}}"#), Some(GeometryError::PolysNotArray));
    assert_eq!(bone_error(r#"{"name":"body","poly_mesh":{"polys":[]}}"#), Some(GeometryError::MissingNormals));
    assert_eq!(
        bone_error(r#"{"name":"body","poly_mesh":{"polys":[],"normals":{}}}"#),
        Some(GeometryError::NormalsNotArray)
    );
    assert_eq!(
        bone_error(r#"{"name":"body","poly_mesh":{"polys":[],"normals":[]}}"#),
        Some(GeometryError::MissingUvs)
    );
    assert_eq!(
        bone_error(r#"{"name":"body","poly_mesh":{"polys":[],"normals":[],"uvs":"x"}}"#),
        Some(GeometryError::UvsNotArray)
    );
    assert_eq!(
        bone_error(r#"{"name":"body","poly_mesh":{"polys":[1],"normals":[1],"uvs":[5]}}"#),
        Some(GeometryError::InvalidUvData)
    );
    assert_eq!(
        bone_error(r#"{"name":"body","poly_mesh":{"polys":[1],"normals":[1],"uvs":[[1,null]]}}"#),
        Some(GeometryError::InvalidUvValue)
    );
    assert_eq!(
        bone_error(r#"{"name":"body","poly_mesh":{"normalized_uvs":true,"polys":[1],"normals":[1],"uvs":[[1.5,0]]}}"#),
        Some(GeometryError::UvOutOfBounds)
    );
}

#[test]
fn entry_errors_reach_the_caller() {
    let patch = r#"{"geometry":{"default":"g"}}"#;
    let texture = r#"{"format_version":"1.12.0","minecraft:geometry":[{"description":{"identifier":"g","texture_height":64}}]}"#;
    assert_eq!(
        error_of(convert_skin(&request(texture, patch, ""))),
        GeometryError::TextureWidthNotNumber.message()
    );
    let bones = r#"{"format_version":"1.12.0","minecraft:geometry":[{"description":{"identifier":"g","texture_width":64,"texture_height":64},"bones":{}}]}"#;
    assert_eq!(error_of(convert_skin(&request(bones, patch, ""))), GeometryError::BonesNotArray.message());
}

#[test]
fn animated_frame_errors() {
    let cases = [
        (r#","AnimatedImageData":{}"#, GeometryError::AnimatedDataNotArray),
        (r#","AnimatedImageData":[]"#, GeometryError::NoAnimatedFrames),
        (r#","AnimatedImageData":[{"ImageWidth":1}]"#, GeometryError::FrameWithoutType),
        (r#","AnimatedImageData":[{"Type":"1"}]"#, GeometryError::FrameTypeNotInt),
        (r#","AnimatedImageData":[{"Type":1,"ImageWidth":1}]"#, GeometryError::FrameWithoutSize),
        (r#","AnimatedImageData":[{"Type":1,"ImageWidth":1,"ImageHeight":0.5}]"#, GeometryError::FrameSizeNotInt),
        (r#","AnimatedImageData":[{"Type":1,"ImageWidth":1,"ImageHeight":1}]"#, GeometryError::FrameWithoutImage),
        (r#","AnimatedImageData":[{"Type":1,"ImageWidth":1,"ImageHeight":1,"Image":3}]"#, GeometryError::FrameImageNotString),
        (r#","AnimatedImageData":[{"Type":1,"ImageWidth":1,"ImageHeight":1,"Image":"@@"}]"#, GeometryError::FrameImageNotBase64),
        (r#","AnimatedImageData":[{"Type":1,"ImageWidth":2,"ImageHeight":1,"Image":"AAAAAAAAAAA="}]"#, GeometryError::FaceSizeMismatch),
    ];
    for (frames, expected) in cases.iter() {
        assert_eq!(error_of(convert_skin(&request(FACE_GEOMETRY, FACE_PATCH, frames))), expected.message());
    }
    let no_bones = FACE_GEOMETRY.replace(r#""bones":[{"name":"head"}]"#, r#""bones":[]"#);
    let frame = r#","AnimatedImageData":[{"Type":1,"ImageWidth":1,"ImageHeight":1,"Image":"AAAAAA=="}]"#;
    assert_eq!(
        error_of(convert_skin(&request(&no_bones, FACE_PATCH, frame))),
        GeometryError::FaceWithoutBones.message()
    );
    assert!(matches!(convert_skin(&request(FACE_GEOMETRY, FACE_PATCH, frame)), ConvertResult::Success(..)));
}

#[test]
fn bad_skin_base64_is_invalid_size() {
    let c = doc(r#"{"SkinImageWidth":1,"SkinImageHeight":1,"SkinData":"not base64!","SkinResourcePatch":"","SkinGeometryData":""}"#);
    assert!(matches!(convert_skin(&c), ConvertResult::Invalid(ErrorType::InvalidSize)));
    let big = doc(r#"{"SkinImageWidth":5000,"SkinImageHeight":1,"SkinData":"","SkinResourcePatch":"","SkinGeometryData":""}"#);
    assert!(matches!(convert_skin(&big), ConvertResult::Invalid(ErrorType::InvalidSize)));
}

#[test]
fn every_error_has_a_message() {
    let all = [
        GeometryError::InvalidUtf8,
        GeometryError::InvalidJson,
        GeometryError::MissingFormatVersion,
        GeometryError::UnsupportedFormatVersion,
        GeometryError::TextureTooLarge,
        GeometryError::FaceWithoutBones,
        GeometryError::EncodingFailed,
    ];
    for e in all.iter() {
        assert!(!e.message().is_empty());
    }
}

#[test]
fn chain_needs_two_hand_overs() {
    let start = ChainProgress::start();
    // a self-signed token, then the root-signed one, then the intermediate's
    let p = start.next_link(false).unwrap().next_link(true).unwrap().next_link(true).unwrap();
    assert!(p.is_complete());
    assert!(p.next_link(true).is_none());
    // a failure after a verified token rejects the chain
    assert!(start.next_link(true).unwrap().next_link(false).is_none());
    // only one hand-over is not enough
    assert!(!start.next_link(true).unwrap().is_complete());
    // four tokens are too many
    let three_failed = start.next_link(false).unwrap().next_link(false).unwrap().next_link(false).unwrap();
    assert!(three_failed.next_link(true).is_none());
}
