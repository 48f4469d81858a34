use vstd::prelude::*;
use crate::json_tree::{field, get_field, get_num, get_str, num_of, str_of, JsonNode, UNIT};

verus! {

/// The largest image side, in pixels, that this crate allocates for.
pub const MAX_IMAGE_SIDE: usize = 4096;

/// Why the geometry of a skin could not be converted.
#[derive(Clone, Copy, Debug, PartialEq, Eq, Structural)]
pub enum GeometryError {
    InvalidUtf8,
    InvalidJson,
    MissingFormatVersion,
    UnsupportedFormatVersion,
    TextureWidthNotNumber,
    TextureHeightNotNumber,
    TextureSizeNotPositive,
    TextureTooLarge,
    MissingIdentifier,
    GeometryNotFound,
    NoBones,
    BonesNotArray,
    BoneWithoutName,
    CubesNotArray,
    InvalidCubeSize,
    InvalidCubeSizeValues,
    MissingCubeUv,
    CubeUvNotArray,
    InvalidCubeUv,
    MissingPolys,
    PolysNotArray,
    MissingNormals,
    NormalsNotArray,
    PolysNormalsMismatch,
    MissingUvs,
    UvsNotArray,
    EmptyMesh,
    InvalidUvData,
    InvalidUvLength,
    InvalidUvValue,
    UvOutOfBounds,
    MissingAnimatedData,
    AnimatedDataNotArray,
    NoAnimatedFrames,
    FrameWithoutType,
    FrameTypeNotInt,
    NoFaceFrame,
    FrameWithoutSize,
    FrameSizeNotInt,
    FrameWithoutImage,
    FrameImageNotString,
    FrameImageNotBase64,
    FrameImageWrongLength,
    FaceSizeMismatch,
    FaceWithoutBones,
    EncodingFailed,
}

/// The description of each error.
pub open spec fn error_text(e: GeometryError) -> &'static str {
    match e {
        GeometryError::InvalidUtf8 => "invalid utf-8 data",
        GeometryError::InvalidJson => "invalid json",
        GeometryError::MissingFormatVersion => "geometry data doesn't have a valid format version",
        GeometryError::UnsupportedFormatVersion => "unknown/unsupported geometry format version",
        GeometryError::TextureWidthNotNumber => "geometry entry's texture width is not a number",
        GeometryError::TextureHeightNotNumber => "geometry entry's texture height is not a number",
        GeometryError::TextureSizeNotPositive => "texture width and height needs to be > 0",
        GeometryError::TextureTooLarge => "texture width and height may be at most 4096",
        GeometryError::MissingIdentifier => "geometry entry does not have an identifier",
        GeometryError::GeometryNotFound => "geometry with given identifier wasn't found",
        GeometryError::NoBones => "geometry data doesn't have any bones",
        GeometryError::BonesNotArray => "bones isn't an array",
        GeometryError::BoneWithoutName => "bone doesn't have a name",
        GeometryError::CubesNotArray => "cubes isn't an array",
        GeometryError::InvalidCubeSize => "bone doesn't have a valid size",
        GeometryError::InvalidCubeSizeValues => "failed converting size to texture size",
        GeometryError::MissingCubeUv => "cube doesn't have uv",
        GeometryError::CubeUvNotArray => "cube's uv isn't an array",
        GeometryError::InvalidCubeUv => "failed to get bone offset",
        GeometryError::MissingPolys => "bone doesn't have polys",
        GeometryError::PolysNotArray => "polys field isn't an array",
        GeometryError::MissingNormals => "bone doesn't have normals",
        GeometryError::NormalsNotArray => "normals aren't an array",
        GeometryError::PolysNormalsMismatch => "polys and normals should have the same length",
        GeometryError::MissingUvs => "bone doesn't have uvs",
        GeometryError::UvsNotArray => "uvs aren't an array",
        GeometryError::EmptyMesh => "cannot translate empty geometry",
        GeometryError::InvalidUvData => "invalid uv data",
        GeometryError::InvalidUvLength => "invalid uv entry length",
        GeometryError::InvalidUvValue => "invalid uv entry data",
        GeometryError::UvOutOfBounds => "uvs contains an out of bounds entry",
        GeometryError::MissingAnimatedData => "animated image data has to be present",
        GeometryError::AnimatedDataNotArray => "animated image data has to be an array",
        GeometryError::NoAnimatedFrames => "no animated frames were found",
        GeometryError::FrameWithoutType => "animation frame doesn't have a type",
        GeometryError::FrameTypeNotInt => "animation frame type is not an int",
        GeometryError::NoFaceFrame => "geometry did have an animated face, but the animation frame doesn't",
        GeometryError::FrameWithoutSize => "animated frame doesn't have a predefined width and height",
        GeometryError::FrameSizeNotInt => "animated frame width or height isn't an int",
        GeometryError::FrameWithoutImage => "animated frame doesn't have image data",
        GeometryError::FrameImageNotString => "animated frame image isn't a string",
        GeometryError::FrameImageNotBase64 => "animated frame image is invalid base64",
        GeometryError::FrameImageWrongLength => "animated frame image has an incorrect length",
        GeometryError::FaceSizeMismatch => "the image width and height doesn't match the geometry data width and height",
        GeometryError::FaceWithoutBones => "geometry data doesn't have bones",
        GeometryError::EncodingFailed => "failed to encode the converted image",
    }
}

impl GeometryError {
    /// A description of the error for operators.
    pub fn message(&self) -> (r: &'static str)
        ensures
            r == error_text(*self),
            r@.len() > 0,
    {
        let m = match self {
            GeometryError::InvalidUtf8 => "invalid utf-8 data",
            GeometryError::InvalidJson => "invalid json",
            GeometryError::MissingFormatVersion => "geometry data doesn't have a valid format version",
            GeometryError::UnsupportedFormatVersion => "unknown/unsupported geometry format version",
            GeometryError::TextureWidthNotNumber => "geometry entry's texture width is not a number",
            GeometryError::TextureHeightNotNumber => "geometry entry's texture height is not a number",
            GeometryError::TextureSizeNotPositive => "texture width and height needs to be > 0",
            GeometryError::TextureTooLarge => "texture width and height may be at most 4096",
            GeometryError::MissingIdentifier => "geometry entry does not have an identifier",
            GeometryError::GeometryNotFound => "geometry with given identifier wasn't found",
            GeometryError::NoBones => "geometry data doesn't have any bones",
            GeometryError::BonesNotArray => "bones isn't an array",
            GeometryError::BoneWithoutName => "bone doesn't have a name",
            GeometryError::CubesNotArray => "cubes isn't an array",
            GeometryError::InvalidCubeSize => "bone doesn't have a valid size",
            GeometryError::InvalidCubeSizeValues => "failed converting size to texture size",
            GeometryError::MissingCubeUv => "cube doesn't have uv",
            GeometryError::CubeUvNotArray => "cube's uv isn't an array",
            GeometryError::InvalidCubeUv => "failed to get bone offset",
            GeometryError::MissingPolys => "bone doesn't have polys",
            GeometryError::PolysNotArray => "polys field isn't an array",
            GeometryError::MissingNormals => "bone doesn't have normals",
            GeometryError::NormalsNotArray => "normals aren't an array",
            GeometryError::PolysNormalsMismatch => "polys and normals should have the same length",
            GeometryError::MissingUvs => "bone doesn't have uvs",
            GeometryError::UvsNotArray => "uvs aren't an array",
            GeometryError::EmptyMesh => "cannot translate empty geometry",
            GeometryError::InvalidUvData => "invalid uv data",
            GeometryError::InvalidUvLength => "invalid uv entry length",
            GeometryError::InvalidUvValue => "invalid uv entry data",
            GeometryError::UvOutOfBounds => "uvs contains an out of bounds entry",
            GeometryError::MissingAnimatedData => "animated image data has to be present",
            GeometryError::AnimatedDataNotArray => "animated image data has to be an array",
            GeometryError::NoAnimatedFrames => "no animated frames were found",
            GeometryError::FrameWithoutType => "animation frame doesn't have a type",
            GeometryError::FrameTypeNotInt => "animation frame type is not an int",
            GeometryError::NoFaceFrame => "geometry did have an animated face, but the animation frame doesn't",
            GeometryError::FrameWithoutSize => "animated frame doesn't have a predefined width and height",
            GeometryError::FrameSizeNotInt => "animated frame width or height isn't an int",
            GeometryError::FrameWithoutImage => "animated frame doesn't have image data",
            GeometryError::FrameImageNotString => "animated frame image isn't a string",
            GeometryError::FrameImageNotBase64 => "animated frame image is invalid base64",
            GeometryError::FrameImageWrongLength => "animated frame image has an incorrect length",
            GeometryError::FaceSizeMismatch => "the image width and height doesn't match the geometry data width and height",
            GeometryError::FaceWithoutBones => "geometry data doesn't have bones",
            GeometryError::EncodingFailed => "failed to encode the converted image",
        };
        proof {
            reveal_strlit("invalid utf-8 data");
            reveal_strlit("invalid json");
            reveal_strlit("geometry data doesn't have a valid format version");
            reveal_strlit("unknown/unsupported geometry format version");
            reveal_strlit("geometry entry's texture width is not a number");
            reveal_strlit("geometry entry's texture height is not a number");
            reveal_strlit("texture width and height needs to be > 0");
            reveal_strlit("texture width and height may be at most 4096");
            reveal_strlit("geometry entry does not have an identifier");
            reveal_strlit("geometry with given identifier wasn't found");
            reveal_strlit("geometry data doesn't have any bones");
            reveal_strlit("bones isn't an array");
            reveal_strlit("bone doesn't have a name");
            reveal_strlit("cubes isn't an array");
            reveal_strlit("bone doesn't have a valid size");
            reveal_strlit("failed converting size to texture size");
            reveal_strlit("cube doesn't have uv");
            reveal_strlit("cube's uv isn't an array");
            reveal_strlit("failed to get bone offset");
            reveal_strlit("bone doesn't have polys");
            reveal_strlit("polys field isn't an array");
            reveal_strlit("bone doesn't have normals");
            reveal_strlit("normals aren't an array");
            reveal_strlit("polys and normals should have the same length");
            reveal_strlit("bone doesn't have uvs");
            reveal_strlit("uvs aren't an array");
            reveal_strlit("cannot translate empty geometry");
            reveal_strlit("invalid uv data");
            reveal_strlit("invalid uv entry length");
            reveal_strlit("invalid uv entry data");
            reveal_strlit("uvs contains an out of bounds entry");
            reveal_strlit("animated image data has to be present");
            reveal_strlit("animated image data has to be an array");
            reveal_strlit("no animated frames were found");
            reveal_strlit("animation frame doesn't have a type");
            reveal_strlit("animation frame type is not an int");
            reveal_strlit("geometry did have an animated face, but the animation frame doesn't");
            reveal_strlit("animated frame doesn't have a predefined width and height");
            reveal_strlit("animated frame width or height isn't an int");
            reveal_strlit("animated frame doesn't have image data");
            reveal_strlit("animated frame image isn't a string");
            reveal_strlit("animated frame image is invalid base64");
            reveal_strlit("animated frame image has an incorrect length");
            reveal_strlit("the image width and height doesn't match the geometry data width and height");
            reveal_strlit("geometry data doesn't have bones");
            reveal_strlit("failed to encode the converted image");
        }
        m
    }
}

/// The entry named `key` of `node`, when `node` is present.
pub open spec fn member_of(node: Option<JsonNode>, key: Seq<char>) -> Option<JsonNode> {
    match node {
        Some(n) => field(n, key),
        None => None,
    }
}

/// The pixel size that a geometry entry declares, from its width and height in units of
/// 10^-20: both must be numbers, positive, at least one pixel after truncation and at most
/// `MAX_IMAGE_SIDE`.
pub open spec fn declared_size(width: Option<int>, height: Option<int>) -> Result<(int, int), GeometryError> {
    match (width, height) {
        (None, _) => Err(GeometryError::TextureWidthNotNumber),
        (_, None) => Err(GeometryError::TextureHeightNotNumber),
        (Some(w), Some(h)) => {
            let pw = w / (UNIT as int);
            let ph = h / (UNIT as int);
            if w <= 0 || h <= 0 || pw == 0 || ph == 0 {
                Err(GeometryError::TextureSizeNotPositive)
            } else if pw > MAX_IMAGE_SIDE || ph > MAX_IMAGE_SIDE {
                Err(GeometryError::TextureTooLarge)
            } else {
                Ok((pw, ph))
            }
        },
    }
}

/// Position, at `i` or later, of the first entry of a `minecraft:geometry` list whose
/// `description.identifier` is `name`. Every entry passed over must have a string identifier.
pub open spec fn find_geometry(entries: Seq<JsonNode>, name: Seq<char>, i: int) -> Result<int, GeometryError>
    decreases entries.len() - i,
{
    if i < 0 || i >= entries.len() {
        Err(GeometryError::GeometryNotFound)
    } else {
        match str_of(member_of(field(entries[i], "description"@), "identifier"@)) {
            None => Err(GeometryError::MissingIdentifier),
            Some(id) => if id == name {
                Ok(i)
            } else {
                find_geometry(entries, name, i + 1)
            },
        }
    }
}

/// The geometry entry named `name` of document `doc` in format `format`, with its declared
/// pixel size.
pub open spec fn resolve_entry(format: Seq<char>, doc: JsonNode, name: Seq<char>) -> Result<(JsonNode, int, int), GeometryError> {
    if format == "1.8.0"@ {
        let entry = field(doc, name);
        match declared_size(num_of(member_of(entry, "texturewidth"@)), num_of(member_of(entry, "textureheight"@))) {
            Ok((w, h)) => Ok((entry.unwrap(), w, h)),
            Err(e) => Err(e),
        }
    } else if format == "1.12.0"@ || format == "1.14.0"@ {
        let entries = match field(doc, "minecraft:geometry"@) {
            Some(JsonNode::Array(items)) => items@,
            _ => Seq::empty(),
        };
        match find_geometry(entries, name, 0) {
            Ok(i) => {
                let description = field(entries[i], "description"@);
                match declared_size(
                    num_of(member_of(description, "texture_width"@)),
                    num_of(member_of(description, "texture_height"@)),
                ) {
                    Ok((w, h)) => Ok((entries[i], w, h)),
                    Err(e) => Err(e),
                }
            },
            Err(e) => Err(e),
        }
    } else {
        Err(GeometryError::UnsupportedFormatVersion)
    }
}

/// An optional machine integer as an optional integer.
pub open spec fn widen(v: Option<i128>) -> Option<int> {
    match v {
        Some(x) => Some(x as int),
        None => None,
    }
}

/// Reads a declared size; see `declared_size`.
fn read_declared_size(width: Option<i128>, height: Option<i128>) -> (r: Result<(usize, usize), GeometryError>)
    ensures
        r matches Ok((w, h)) ==> declared_size(widen(width), widen(height)) == Ok::<(int, int), GeometryError>((w as int, h as int)),
        r matches Err(e) ==> declared_size(widen(width), widen(height)) == Err::<(int, int), GeometryError>(e),
{
    match (width, height) {
        (None, _) => Err(GeometryError::TextureWidthNotNumber),
        (_, None) => Err(GeometryError::TextureHeightNotNumber),
        (Some(w), Some(h)) => {
            if w <= 0 || h <= 0 {
                return Err(GeometryError::TextureSizeNotPositive);
            }
            let pw = w / UNIT;
            let ph = h / UNIT;
            if pw == 0 || ph == 0 {
                Err(GeometryError::TextureSizeNotPositive)
            } else if pw > MAX_IMAGE_SIDE as i128 || ph > MAX_IMAGE_SIDE as i128 {
                Err(GeometryError::TextureTooLarge)
            } else {
                Ok((pw as usize, ph as usize))
            }
        },
    }
}

/// Finds the geometry entry named `geometry_name` in `geometry_data`, a document in format
/// `format_version` ("1.8.0", "1.12.0" or "1.14.0"), with the texture size it declares.
pub fn get_correct_entry<'a>(format_version: &str, geometry_data: &'a JsonNode, geometry_name: &str) -> (r: Result<(&'a JsonNode, usize, usize), GeometryError>)
    ensures
        r matches Ok((entry, w, h)) ==> resolve_entry(format_version@, *geometry_data, geometry_name@) == Ok::<(JsonNode, int, int), GeometryError>((*entry, w as int, h as int)),
        r matches Err(e) ==> resolve_entry(format_version@, *geometry_data, geometry_name@) == Err::<(JsonNode, int, int), GeometryError>(e),
{
    let format = format_version.to_owned();
    let legacy = "1.8.0".to_owned();
    let v12 = "1.12.0".to_owned();
    let v14 = "1.14.0".to_owned();
    if format == legacy {
        match get_field(geometry_data, geometry_name) {
            Some(entry) => {
                let (w, h) = read_declared_size(get_num(entry, "texturewidth"), get_num(entry, "textureheight"))?;
                Ok((entry, w, h))
            },
            None => Err(GeometryError::TextureWidthNotNumber),
        }
    } else if format == v12 || format == v14 {
        let entries = match get_field(geometry_data, "minecraft:geometry") {
            Some(JsonNode::Array(items)) => items,
            _ => {
                return Err(GeometryError::GeometryNotFound);
            },
        };
        let mut i: usize = 0;
        while i < entries.len()
            invariant
                i <= entries@.len(),
                find_geometry(entries@, geometry_name@, 0) == find_geometry(entries@, geometry_name@, i as int),
                format_version@ != "1.8.0"@,
                format_version@ == "1.12.0"@ || format_version@ == "1.14.0"@,
                field(*geometry_data, "minecraft:geometry"@) == Some(JsonNode::Array(*entries)),
            decreases entries@.len() - i,
        {
            let entry = &entries[i];
            let identifier = match get_field(entry, "description") {
                Some(description) => get_str(description, "identifier"),
                None => None,
            };
            match identifier {
                None => {
                    return Err(GeometryError::MissingIdentifier);
                },
                Some(id) => {
                    let wanted = geometry_name.to_owned();
                    if *id == wanted {
                        let description = get_field(entry, "description").unwrap();
                        let (w, h) = read_declared_size(
                            get_num(description, "texture_width"),
                            get_num(description, "texture_height"),
                        )?;
                        return Ok((entry, w, h));
                    }
                },
            }
            i = i + 1;
        }
        Err(GeometryError::GeometryNotFound)
    } else {
        Err(GeometryError::UnsupportedFormatVersion)
    }
}

} // verus!
