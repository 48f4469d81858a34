use vstd::prelude::*;
use crate::bones::{after_copy, bone_plan, is_array_node, items_of, rect, translate_bone};
use crate::codec::{base64_decoded, decode_base64, utf8_string};
use crate::common::OffsetAndDimension;
use crate::geometry::{find_geometry, get_correct_entry, member_of, resolve_entry, GeometryError, MAX_IMAGE_SIDE};
use crate::json_tree::{absent, field, get_field, get_str, int_of, is_absent, node_int, parse_json, str_of, JsonNode};
use crate::pixel_cleaner::SKIN_BYTES;
use crate::skin::SkinModel;
use crate::texture::{resampled_image, rows_of, scale_and_fill_texture};
use vstd::utf8::valid_utf8;

verus! {

/// The frame type of an animated face.
pub const TEXTURE_TYPE_FACE: i128 = 1;

/// `n` zero bytes.
pub open spec fn zeros(n: int) -> Seq<u8> {
    Seq::new(n as nat, |i: int| 0u8)
}

/// The image on which a geometry's UVs are defined: the skin itself when it has the declared
/// size `tw`×`th`, otherwise the skin resampled to that size.
pub open spec fn declared_image(skin: Seq<u8>, sw: int, tw: int, th: int) -> Seq<u8> {
    let sh = rows_of(skin.len() as int, sw);
    if sw == tw && sh == th {
        skin
    } else {
        resampled_image(zeros(tw * th * 4), skin, sw, tw, rect(0, 0, sw, sh), rect(0, 0, tw, th))
    }
}

/// Applies the bones from position `i` on, in order, to the atlas `img`, reading from `src`
/// (`w` pixels wide). The model is the first one that a bone reports.
pub open spec fn apply_bones(
    bones: Seq<JsonNode>,
    img: Seq<u8>,
    src: Seq<u8>,
    w: int,
    only_face: bool,
    i: int,
    model: Option<SkinModel>,
) -> Result<(Seq<u8>, Option<SkinModel>), GeometryError>
    decreases bones.len() - i,
{
    if i < 0 || i >= bones.len() {
        Ok((img, model))
    } else {
        match bone_plan(bones[i], only_face, w, rows_of(src.len() as int, w)) {
            Err(e) => Err(e),
            Ok((m, copy)) => apply_bones(
                bones,
                after_copy(img, src, w, copy),
                src,
                w,
                only_face,
                i + 1,
                if model is None { m } else { model },
            ),
        }
    }
}

/// Position of the last frame of type face among the frames from `i` on (or `found`); every
/// frame must have an integer `Type`.
pub open spec fn face_frame(frames: Seq<JsonNode>, i: int, found: Option<int>) -> Result<Option<int>, GeometryError>
    decreases frames.len() - i,
{
    if i < 0 || i >= frames.len() {
        Ok(found)
    } else {
        let t = field(frames[i], "Type"@);
        if t is None {
            Err(GeometryError::FrameWithoutType)
        } else {
            match int_of(t) {
                None => Err(GeometryError::FrameTypeNotInt),
                Some(v) => face_frame(frames, i + 1, if v == TEXTURE_TYPE_FACE { Some(i) } else { found }),
            }
        }
    }
}

/// The pixels and size of an animated face frame. Its width and height must be integers, its
/// image base64, and the image must hold exactly width × height RGBA pixels.
pub open spec fn face_image(frame: JsonNode) -> Result<(Seq<u8>, int, int), GeometryError> {
    let fw = field(frame, "ImageWidth"@);
    let fh = field(frame, "ImageHeight"@);
    let image = field(frame, "Image"@);
    if fw is None || fh is None {
        Err(GeometryError::FrameWithoutSize)
    } else if int_of(fw) is None || int_of(fh) is None {
        Err(GeometryError::FrameSizeNotInt)
    } else if image is None {
        Err(GeometryError::FrameWithoutImage)
    } else if str_of(image) is None {
        Err(GeometryError::FrameImageNotString)
    } else {
        match base64_decoded(str_of(image)->Some_0) {
            None => Err(GeometryError::FrameImageNotBase64),
            Some(data) => {
                let w = int_of(fw)->Some_0;
                let h = int_of(fh)->Some_0;
                if w < 0 || h < 0 || w > MAX_IMAGE_SIDE || h > MAX_IMAGE_SIDE || data.len() != w * h * 4 {
                    Err(GeometryError::FrameImageWrongLength)
                } else {
                    Ok((data, w, h))
                }
            },
        }
    }
}

/// Lays the animated face named `face_name` over the head of atlas `img`: the face frame of
/// the claims' `AnimatedImageData` is read like a skin of its own, and its `hat` and `head`
/// bones are applied.
pub open spec fn overlay_face(doc: JsonNode, format: Seq<char>, claims: JsonNode, face_name: Seq<char>, img: Seq<u8>) -> Result<Seq<u8>, GeometryError> {
    let frames = field(claims, "AnimatedImageData"@);
    if frames is None {
        Err(GeometryError::MissingAnimatedData)
    } else if !is_array_node(frames) {
        Err(GeometryError::AnimatedDataNotArray)
    } else if items_of(frames).len() == 0 {
        Err(GeometryError::NoAnimatedFrames)
    } else {
        match face_frame(items_of(frames), 0, None) {
            Err(e) => Err(e),
            Ok(None) => Err(GeometryError::NoFaceFrame),
            Ok(Some(k)) => match face_image(items_of(frames)[k]) {
                Err(e) => Err(e),
                Ok((data, fw, fh)) => match resolve_entry(format, doc, face_name) {
                    Err(e) => Err(e),
                    Ok((entry, tw, th)) => if tw != fw || th != fh {
                        Err(GeometryError::FaceSizeMismatch)
                    } else {
                        let bones = field(entry, "bones"@);
                        if !is_array_node(bones) || items_of(bones).len() == 0 {
                            Err(GeometryError::FaceWithoutBones)
                        } else {
                            match apply_bones(items_of(bones), img, data, fw, true, 0, None) {
                                Err(e) => Err(e),
                                Ok((out, _)) => Ok(out),
                            }
                        }
                    },
                },
            },
        }
    }
}

/// The 64×64 atlas that geometry document `doc` makes of a skin (`sw` pixels wide), with the
/// arm model its bones report. `patch` is the `geometry` entry of the resource patch: an
/// `animated_face` string there adds the animated face of the claims.
#[verifier::opaque]
pub open spec fn document_conversion(
    doc: JsonNode,
    skin: Seq<u8>,
    sw: int,
    claims: JsonNode,
    patch: JsonNode,
    name: Seq<char>,
) -> Result<(Seq<u8>, Option<SkinModel>), GeometryError> {
    match str_of(field(doc, "format_version"@)) {
        None => Err(GeometryError::MissingFormatVersion),
        Some(format) => match resolve_entry(format, doc, name) {
            Err(e) => Err(e),
            Ok((entry, tw, th)) => {
                let src = declared_image(skin, sw, tw, th);
                let bones = field(entry, "bones"@);
                if is_absent(bones) {
                    Err(GeometryError::NoBones)
                } else if !is_array_node(bones) {
                    Err(GeometryError::BonesNotArray)
                } else {
                    match apply_bones(items_of(bones), zeros(SKIN_BYTES as int), src, tw, false, 0, None) {
                        Err(e) => Err(e),
                        Ok((img, model)) => match str_of(field(patch, "animated_face"@)) {
                            None => Ok((img, model)),
                            Some(face_name) => match overlay_face(doc, format, claims, face_name, img) {
                                Err(e) => Err(e),
                                Ok(out) => Ok((out, model)),
                            },
                        },
                    }
                }
            },
        },
    }
}

/// A buffer of `n` zero bytes.
pub(crate) fn zero_buffer(n: usize) -> (r: Vec<u8>)
    ensures
        r@ == zeros(n as int),
{
    let v = vec![0u8; n];
    assert(v@ =~= zeros(n as int));
    v
}

/// Applies `bones` in order to the 64×64 atlas `new_vec`; see `apply_bones`.
pub fn translate_bones(src: &[u8], w: usize, bones: &Vec<JsonNode>, only_face: bool, new_vec: &mut [u8]) -> (r: Result<Option<SkinModel>, GeometryError>)
    requires
        0 < w <= MAX_IMAGE_SIDE,
        rows_of(src@.len() as int, w as int) <= MAX_IMAGE_SIDE,
        old(new_vec)@.len() == SKIN_BYTES,
    ensures
        final(new_vec)@.len() == SKIN_BYTES,
        r matches Err(e) ==> apply_bones(bones@, old(new_vec)@, src@, w as int, only_face, 0, None)
            == Err::<(Seq<u8>, Option<SkinModel>), GeometryError>(e),
        r matches Ok(m) ==> apply_bones(bones@, old(new_vec)@, src@, w as int, only_face, 0, None)
            == Ok::<(Seq<u8>, Option<SkinModel>), GeometryError>((final(new_vec)@, m)),
{
    let mut model: Option<SkinModel> = None;
    let mut i: usize = 0;
    while i < bones.len()
        invariant
            i <= bones@.len(),
            0 < w <= MAX_IMAGE_SIDE,
            rows_of(src@.len() as int, w as int) <= MAX_IMAGE_SIDE,
            new_vec@.len() == SKIN_BYTES,
            apply_bones(bones@, old(new_vec)@, src@, w as int, only_face, 0, None) == apply_bones(
                bones@,
                new_vec@,
                src@,
                w as int,
                only_face,
                i as int,
                model,
            ),
        decreases bones@.len() - i,
    {
        let m = translate_bone(src, w, &bones[i], only_face, new_vec)?;
        if model.is_none() {
            model = m;
        }
        i = i + 1;
    }
    Ok(model)
}

/// The skin resampled to the declared size `tw`×`th`; see `declared_image`.
fn rescale_to_declared(skin: &[u8], sw: usize, tw: usize, th: usize) -> (r: Vec<u8>)
    requires
        sw > 0,
        0 < tw <= MAX_IMAGE_SIDE,
        0 < th <= MAX_IMAGE_SIDE,
    ensures
        r@ == resampled_image(
            zeros(tw * th * 4),
            skin@,
            sw as int,
            tw as int,
            rect(0, 0, sw as int, rows_of(skin@.len() as int, sw as int)),
            rect(0, 0, tw as int, th as int),
        ),
{
    assert(tw * th * 4 <= MAX_IMAGE_SIDE * MAX_IMAGE_SIDE * 4) by (nonlinear_arith)
        requires tw <= MAX_IMAGE_SIDE, th <= MAX_IMAGE_SIDE;
    let mut out = zero_buffer(tw * th * 4);
    let sh = skin.len() / 4 / sw;
    let source = OffsetAndDimension { x_offset: 0, y_offset: 0, width: sw, height: sh };
    let target = OffsetAndDimension { x_offset: 0, y_offset: 0, width: tw, height: th };
    assert((0 + th) * tw * 4 == tw * th * 4) by (nonlinear_arith);
    scale_and_fill_texture(skin, out.as_mut_slice(), sw, tw, &source, &target);
    out
}

/// Position of the last face frame; see `face_frame`.
fn find_face_frame(frames: &Vec<JsonNode>) -> (r: Result<Option<usize>, GeometryError>)
    ensures
        r matches Err(e) ==> face_frame(frames@, 0, None) == Err::<Option<int>, GeometryError>(e),
        r matches Ok(k) ==> face_frame(frames@, 0, None) == Ok::<Option<int>, GeometryError>(
            match k {
                Some(j) => Some(j as int),
                None => None,
            },
        ) && (k matches Some(j) ==> j < frames@.len()),
{
    let mut found: Option<usize> = None;
    let mut i: usize = 0;
    while i < frames.len()
        invariant
            i <= frames@.len(),
            found matches Some(j) ==> j < i,
            face_frame(frames@, 0, None) == face_frame(
                frames@,
                i as int,
                match found {
                    Some(j) => Some(j as int),
                    None => None,
                },
            ),
        decreases frames@.len() - i,
    {
        let t = get_field(&frames[i], "Type");
        let t = match t {
            Some(t) => t,
            None => {
                return Err(GeometryError::FrameWithoutType);
            },
        };
        match node_int(t) {
            None => {
                return Err(GeometryError::FrameTypeNotInt);
            },
            Some(v) => {
                if v == TEXTURE_TYPE_FACE {
                    found = Some(i);
                }
            },
        }
        i = i + 1;
    }
    Ok(found)
}

/// The pixels and size of an animated face frame; see `face_image`.
fn read_face_frame(frame: &JsonNode) -> (r: Result<(Vec<u8>, usize, usize), GeometryError>)
    ensures
        r matches Err(e) ==> face_image(*frame) == Err::<(Seq<u8>, int, int), GeometryError>(e),
        r matches Ok((data, w, h)) ==> face_image(*frame) == Ok::<(Seq<u8>, int, int), GeometryError>(
            (data@, w as int, h as int),
        ),
{
    let fw = get_field(frame, "ImageWidth");
    let fh = get_field(frame, "ImageHeight");
    let image = get_field(frame, "Image");
    if fw.is_none() || fh.is_none() {
        return Err(GeometryError::FrameWithoutSize);
    }
    let (w, h) = match (node_int(fw.unwrap()), node_int(fh.unwrap())) {
        (Some(w), Some(h)) => (w, h),
        _ => {
            return Err(GeometryError::FrameSizeNotInt);
        },
    };
    let text = match image {
        None => {
            return Err(GeometryError::FrameWithoutImage);
        },
        Some(JsonNode::Str(s)) => s,
        Some(_) => {
            return Err(GeometryError::FrameImageNotString);
        },
    };
    let data = match decode_base64(text.as_str()) {
        Some(d) => d,
        None => {
            return Err(GeometryError::FrameImageNotBase64);
        },
    };
    if w < 0 || h < 0 || w > MAX_IMAGE_SIDE as i128 || h > MAX_IMAGE_SIDE as i128 {
        return Err(GeometryError::FrameImageWrongLength);
    }
    let w = w as usize;
    let h = h as usize;
    assert(w * h * 4 <= MAX_IMAGE_SIDE * MAX_IMAGE_SIDE * 4) by (nonlinear_arith)
        requires w <= MAX_IMAGE_SIDE, h <= MAX_IMAGE_SIDE;
    if data.len() != w * h * 4 {
        return Err(GeometryError::FrameImageWrongLength);
    }
    Ok((data, w, h))
}

/// Lays an animated face over the head of the atlas `new_vec`; see `overlay_face`.
fn overlay_animated_face(
    doc: &JsonNode,
    format: &str,
    claims: &JsonNode,
    face_name: &str,
    new_vec: &mut [u8],
) -> (r: Result<(), GeometryError>)
    requires
        old(new_vec)@.len() == SKIN_BYTES,
    ensures
        final(new_vec)@.len() == SKIN_BYTES,
        r matches Err(e) ==> overlay_face(*doc, format@, *claims, face_name@, old(new_vec)@) == Err::<Seq<u8>, GeometryError>(e),
        r is Ok ==> overlay_face(*doc, format@, *claims, face_name@, old(new_vec)@) == Ok::<Seq<u8>, GeometryError>(final(new_vec)@),
{
    let frames = match get_field(claims, "AnimatedImageData") {
        None => {
            return Err(GeometryError::MissingAnimatedData);
        },
        Some(JsonNode::Array(f)) => f,
        Some(_) => {
            return Err(GeometryError::AnimatedDataNotArray);
        },
    };
    if frames.len() == 0 {
        return Err(GeometryError::NoAnimatedFrames);
    }
    let k = match find_face_frame(frames)? {
        Some(k) => k,
        None => {
            return Err(GeometryError::NoFaceFrame);
        },
    };
    let (face_data, face_width, face_height) = read_face_frame(&frames[k])?;
    let (entry, tex_width, tex_height) = get_correct_entry(format, doc, face_name)?;
    if tex_width != face_width || tex_height != face_height {
        return Err(GeometryError::FaceSizeMismatch);
    }
    let bones = match get_field(entry, "bones") {
        Some(JsonNode::Array(b)) => b,
        _ => {
            return Err(GeometryError::FaceWithoutBones);
        },
    };
    if bones.len() == 0 {
        return Err(GeometryError::FaceWithoutBones);
    }
    proof {
        vstd::arithmetic::div_mod::lemma_div_multiples_vanish((face_height * face_width) as int, 4);
        assert(face_width * face_height * 4 == 4 * (face_height * face_width)) by (nonlinear_arith);
        vstd::arithmetic::div_mod::lemma_div_multiples_vanish(face_height as int, face_width as int);
        assert(face_height * face_width == face_width * face_height) by (nonlinear_arith);
    }
    translate_bones(face_data.as_slice(), face_width, bones, true, new_vec)?;
    Ok(())
}

/// Applies the bones of `entry` to a fresh atlas, reading from `src` (`w` pixels wide, the
/// declared size), and adds the animated face where the resource patch names one.
fn convert_entry(
    src: &[u8],
    w: usize,
    entry: &JsonNode,
    doc: &JsonNode,
    format: &str,
    claims: &JsonNode,
    patch: &JsonNode,
) -> (r: Result<(Vec<u8>, Option<SkinModel>), GeometryError>)
    requires
        0 < w <= MAX_IMAGE_SIDE,
        rows_of(src@.len() as int, w as int) <= MAX_IMAGE_SIDE,
    ensures
        r matches Ok((px, _)) ==> px@.len() == SKIN_BYTES,
        ({
            let bones = field(*entry, "bones"@);
            let expected = if is_absent(bones) {
                Err(GeometryError::NoBones)
            } else if !is_array_node(bones) {
                Err(GeometryError::BonesNotArray)
            } else {
                match apply_bones(items_of(bones), zeros(SKIN_BYTES as int), src@, w as int, false, 0, None) {
                    Err(e) => Err(e),
                    Ok((img, model)) => match str_of(field(*patch, "animated_face"@)) {
                        None => Ok((img, model)),
                        Some(face_name) => match overlay_face(*doc, format@, *claims, face_name, img) {
                            Err(e) => Err(e),
                            Ok(out) => Ok((out, model)),
                        },
                    },
                }
            };
            match r {
                Ok((px, m)) => expected == Ok::<(Seq<u8>, Option<SkinModel>), GeometryError>((px@, m)),
                Err(e) => expected == Err::<(Seq<u8>, Option<SkinModel>), GeometryError>(e),
            }
        }),
{
    let bones = get_field(entry, "bones");
    if absent(bones) {
        return Err(GeometryError::NoBones);
    }
    let bones = match bones {
        Some(JsonNode::Array(b)) => b,
        _ => {
            return Err(GeometryError::BonesNotArray);
        },
    };
    let mut new_vec = zero_buffer(SKIN_BYTES);
    let model = translate_bones(src, w, bones, false, new_vec.as_mut_slice())?;
    let face = get_str(patch, "animated_face");
    if let Some(face_name) = face {
        overlay_animated_face(doc, format, claims, face_name.as_str(), new_vec.as_mut_slice())?;
    }
    Ok((new_vec, model))
}

/// The 64×64 atlas that geometry document `doc` makes of a skin `skin_width` pixels wide,
/// with the arm model its bones report; see `document_conversion`.
pub fn convert_document(
    doc: &JsonNode,
    skin_data: &[u8],
    skin_width: usize,
    client_claims: &JsonNode,
    geometry_patch: &JsonNode,
    geometry_name: &str,
) -> (r: Result<(Vec<u8>, Option<SkinModel>), GeometryError>)
    requires
        0 < skin_width <= MAX_IMAGE_SIDE,
        rows_of(skin_data@.len() as int, skin_width as int) <= MAX_IMAGE_SIDE,
    ensures
        r matches Ok((px, _)) ==> px@.len() == SKIN_BYTES,
        r matches Ok((px, m)) ==> document_conversion(*doc, skin_data@, skin_width as int, *client_claims, *geometry_patch, geometry_name@)
            == Ok::<(Seq<u8>, Option<SkinModel>), GeometryError>((px@, m)),
        r matches Err(e) ==> document_conversion(*doc, skin_data@, skin_width as int, *client_claims, *geometry_patch, geometry_name@)
            == Err::<(Seq<u8>, Option<SkinModel>), GeometryError>(e),
{
    reveal(document_conversion);
    let format = match get_str(doc, "format_version") {
        Some(f) => f.as_str(),
        None => {
            return Err(GeometryError::MissingFormatVersion);
        },
    };
    let (entry, tex_width, tex_height) = get_correct_entry(format, doc, geometry_name)?;
    let skin_height = skin_data.len() / 4 / skin_width;
    if skin_width != tex_width || skin_height != tex_height {
        let rescaled = rescale_to_declared(skin_data, skin_width, tex_width, tex_height);
        proof {
            vstd::arithmetic::div_mod::lemma_div_multiples_vanish((tex_height * tex_width) as int, 4);
            assert(tex_width * tex_height * 4 == 4 * (tex_height * tex_width)) by (nonlinear_arith);
            vstd::arithmetic::div_mod::lemma_div_multiples_vanish(tex_height as int, tex_width as int);
            assert(tex_height * tex_width == tex_width * tex_height) by (nonlinear_arith);
        }
        convert_entry(rescaled.as_slice(), tex_width, entry, doc, format, client_claims, geometry_patch)
    } else {
        convert_entry(skin_data, skin_width, entry, doc, format, client_claims, geometry_patch)
    }
}

/// The conversion by geometry bytes `bytes` that the JSON parser read as `document` (`None`
/// where it rejected them): bytes that are not UTF-8 and text that is not JSON are errors of
/// their own; a document converts as `document_conversion` says.
pub open spec fn geometry_outcome(
    bytes: Seq<u8>,
    document: Option<JsonNode>,
    skin: Seq<u8>,
    sw: int,
    claims: JsonNode,
    patch: JsonNode,
    name: Seq<char>,
) -> Result<(Seq<u8>, Option<SkinModel>), GeometryError> {
    if !valid_utf8(bytes) {
        Err(GeometryError::InvalidUtf8)
    } else {
        match document {
            None => Err(GeometryError::InvalidJson),
            Some(d) => document_conversion(d, skin, sw, claims, patch, name),
        }
    }
}

/// Converts a skin by the geometry in `geometry_data`, given what the JSON parser read from its
/// text (`document`); see `geometry_outcome`.
pub fn convert_geometry_document(
    skin_data: &[u8],
    skin_width: usize,
    client_claims: &JsonNode,
    geometry_data: Vec<u8>,
    document: Option<JsonNode>,
    geometry_patch: &JsonNode,
    geometry_name: &str,
) -> (r: Result<(Vec<u8>, Option<SkinModel>), GeometryError>)
    requires
        0 < skin_width <= MAX_IMAGE_SIDE,
        rows_of(skin_data@.len() as int, skin_width as int) <= MAX_IMAGE_SIDE,
    ensures
        r matches Ok((px, _)) ==> px@.len() == SKIN_BYTES,
        r matches Ok((px, m)) ==> geometry_outcome(geometry_data@, document, skin_data@, skin_width as int, *client_claims, *geometry_patch, geometry_name@)
            == Ok::<(Seq<u8>, Option<SkinModel>), GeometryError>((px@, m)),
        r matches Err(e) ==> geometry_outcome(geometry_data@, document, skin_data@, skin_width as int, *client_claims, *geometry_patch, geometry_name@)
            == Err::<(Seq<u8>, Option<SkinModel>), GeometryError>(e),
{
    if utf8_string(geometry_data).is_none() {
        return Err(GeometryError::InvalidUtf8);
    }
    match document {
        Some(d) => convert_document(&d, skin_data, skin_width, client_claims, geometry_patch, geometry_name),
        None => Err(GeometryError::InvalidJson),
    }
}

/// What the JSON parser reads from geometry bytes: `None` where they are not UTF-8 or not JSON.
pub fn parse_geometry_bytes(geometry_data: &Vec<u8>) -> (r: Option<JsonNode>)
    ensures
        !valid_utf8(geometry_data@) ==> r is None,
{
    match utf8_string(geometry_data.clone()) {
        Some(text) => parse_json(text.as_str()),
        None => None,
    }
}

/// Converts a skin by the geometry document in `geometry_data` (UTF-8 JSON), reading it with
/// the JSON parser; see `convert_geometry_document`, which states the result for what the
/// parser read.
pub fn convert_geometry(
    skin_data: &[u8],
    skin_width: usize,
    client_claims: &JsonNode,
    geometry_data: Vec<u8>,
    geometry_patch: &JsonNode,
    geometry_name: &str,
) -> (r: Result<(Vec<u8>, Option<SkinModel>), GeometryError>)
    requires
        0 < skin_width <= MAX_IMAGE_SIDE,
        rows_of(skin_data@.len() as int, skin_width as int) <= MAX_IMAGE_SIDE,
    ensures
        r matches Ok((px, _)) ==> px@.len() == SKIN_BYTES,
        exists|document: Option<JsonNode>| #[trigger] geometry_outcome(geometry_data@, document, skin_data@, skin_width as int, *client_claims, *geometry_patch, geometry_name@)
            == match r {
                Ok((px, m)) => Ok::<(Seq<u8>, Option<SkinModel>), GeometryError>((px@, m)),
                Err(e) => Err(e),
            },
{
    let document = parse_geometry_bytes(&geometry_data);
    let ghost d = document;
    let r = convert_geometry_document(skin_data, skin_width, client_claims, geometry_data, document, geometry_patch, geometry_name);
    assert(geometry_outcome(geometry_data@, d, skin_data@, skin_width as int, *client_claims, *geometry_patch, geometry_name@)
        == match r {
            Ok((px, m)) => Ok::<(Seq<u8>, Option<SkinModel>), GeometryError>((px@, m)),
            Err(e) => Err(e),
        });
    r
}

/// A geometry document whose `format_version` is none of "1.8.0", "1.12.0" and "1.14.0" is
/// rejected as unsupported, whatever else it holds.
pub proof fn lemma_unsupported_format(
    doc: JsonNode,
    skin: Seq<u8>,
    sw: int,
    claims: JsonNode,
    patch: JsonNode,
    name: Seq<char>,
)
    requires
        str_of(field(doc, "format_version"@)) matches Some(f) && f != "1.8.0"@ && f != "1.12.0"@ && f != "1.14.0"@,
    ensures
        document_conversion(doc, skin, sw, claims, patch, name) == Err::<(Seq<u8>, Option<SkinModel>), GeometryError>(
            GeometryError::UnsupportedFormatVersion,
        ),
{
    reveal(document_conversion);
}

proof fn lemma_no_matching_identifier(entries: Seq<JsonNode>, name: Seq<char>, i: int)
    requires
        0 <= i,
        forall|j: int|
            0 <= j < entries.len() ==> (#[trigger] str_of(member_of(field(entries[j], "description"@), "identifier"@)) matches Some(
                id,
            ) && id != name),
    ensures
        find_geometry(entries, name, i) == Err::<int, GeometryError>(GeometryError::GeometryNotFound),
    decreases entries.len() - i,
{
    if i < entries.len() {
        lemma_no_matching_identifier(entries, name, i + 1);
    }
}

/// In a "1.12.0" or "1.14.0" document whose geometry entries all carry an identifier, none of
/// them the requested name, the geometry is reported as not found (a content error, not an
/// incomplete request).
pub proof fn lemma_unknown_geometry_name(
    doc: JsonNode,
    skin: Seq<u8>,
    sw: int,
    claims: JsonNode,
    patch: JsonNode,
    name: Seq<char>,
)
    requires
        str_of(field(doc, "format_version"@)) matches Some(f) && (f == "1.12.0"@ || f == "1.14.0"@),
        forall|j: int|
            0 <= j < items_of(field(doc, "minecraft:geometry"@)).len() ==> (#[trigger] str_of(
                member_of(field(items_of(field(doc, "minecraft:geometry"@))[j], "description"@), "identifier"@),
            ) matches Some(id) && id != name),
    ensures
        document_conversion(doc, skin, sw, claims, patch, name) == Err::<(Seq<u8>, Option<SkinModel>), GeometryError>(
            GeometryError::GeometryNotFound,
        ),
{
    reveal(document_conversion);
    reveal_strlit("1.8.0");
    reveal_strlit("1.12.0");
    reveal_strlit("1.14.0");
    let entries = items_of(field(doc, "minecraft:geometry"@));
    lemma_no_matching_identifier(entries, name, 0);
    let f = str_of(field(doc, "format_version"@))->Some_0;
    assert("1.12.0"@.len() == 6 && "1.14.0"@.len() == 6 && "1.8.0"@.len() == 5);
    assert(f != "1.8.0"@);
    assert(resolve_entry(f, doc, name) == Err::<(JsonNode, int, int), GeometryError>(GeometryError::GeometryNotFound));
}

} // verus!
