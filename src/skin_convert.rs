use vstd::prelude::*;
use crate::bones::rect;
use crate::codec::{base64_decoded, decode_base64, encode_image, game_png_settings, png_encoded, sha256_of, utf8_string, ImageWithHashes};
use crate::converter::{convert_geometry_document, geometry_outcome, lemma_unknown_geometry_name, lemma_unsupported_format, parse_geometry_bytes, zero_buffer, zeros};
use crate::bones::items_of;
use crate::geometry::{error_text, member_of, GeometryError, MAX_IMAGE_SIDE};
use crate::json_tree::{field, get_field, get_str, int_of, node_int, parse_json, str_of, JsonNode};
use crate::pixel_cleaner::{clear_unused_pixels, is_padding_byte, SKIN_BYTES};
use crate::skin::SkinModel;
use crate::texture::{resampled_image, rows_of, scale_and_fill_texture};
use crate::common::OffsetAndDimension;
use vstd::utf8::valid_utf8;

verus! {

/// Why a conversion request is structurally incomplete.
#[derive(Clone, Copy, Debug, PartialEq, Eq, Structural)]
pub enum ErrorType {
    InvalidSize,
    InvalidGeometry,
}

/// The outcome of a conversion: an incomplete request, a geometry that could not be
/// converted (with a description), or the encoded skin with its hashes and whether it uses
/// the classic arm model.
pub enum ConvertResult {
    Invalid(ErrorType),
    Error(&'static str),
    Success(ImageWithHashes, bool),
}

/// What a conversion request holds once its fields are read.
pub struct SkinInfo {
    /// Whether the skin has a geometry of its own (and is not the base64 of `null`).
    pub needs_convert: bool,
    pub raw_skin_data: Vec<u8>,
    pub skin_width: usize,
    /// The geometry document, decoded from base64 but not yet parsed.
    pub geometry_data: Vec<u8>,
    /// The `geometry` entry of the resource patch.
    pub geometry_patch: JsonNode,
    /// The name of the default geometry.
    pub geometry_name: String,
}

/// The base64 text that stands for "no geometry of its own": `null` and a line break.
pub open spec fn null_geometry() -> Seq<char> {
    "bnVsbAo="@
}

/// The declared width and height of the skin: integers from 0 to `MAX_IMAGE_SIDE`.
pub open spec fn declared_dims(claims: JsonNode) -> Option<(int, int)> {
    match (int_of(field(claims, "SkinImageWidth"@)), int_of(field(claims, "SkinImageHeight"@))) {
        (Some(w), Some(h)) => if 0 <= w <= MAX_IMAGE_SIDE && 0 <= h <= MAX_IMAGE_SIDE {
            Some((w, h))
        } else {
            None
        },
        _ => None,
    }
}

/// The skin's pixels, decoded from the base64 of `SkinData`.
pub open spec fn skin_bytes(claims: JsonNode) -> Option<Seq<u8>> {
    match str_of(field(claims, "SkinData"@)) {
        Some(s) => base64_decoded(s),
        None => None,
    }
}

/// Whether the skin's size is declared and its pixels fill exactly that size.
pub open spec fn size_valid(claims: JsonNode) -> bool {
    &&& declared_dims(claims) is Some
    &&& skin_bytes(claims) is Some
    &&& skin_bytes(claims)->Some_0.len() == declared_dims(claims)->Some_0.0 * declared_dims(claims)->Some_0.1 * 4
}

/// The base64 text of the geometry document.
pub open spec fn geometry_text(claims: JsonNode) -> Option<Seq<char>> {
    str_of(field(claims, "SkinGeometryData"@))
}

/// Whether the resource patch and the geometry are base64 texts, and the patch is UTF-8.
pub open spec fn geometry_fields_readable(claims: JsonNode) -> bool {
    let patch = str_of(field(claims, "SkinResourcePatch"@));
    let geometry = geometry_text(claims);
    &&& patch is Some
    &&& geometry is Some
    &&& base64_decoded(patch->Some_0) is Some
    &&& base64_decoded(geometry->Some_0) is Some
    &&& valid_utf8(base64_decoded(patch->Some_0)->Some_0)
}

/// The arm model that an `ArmSize` claim of "slim" or "steve" states.
pub open spec fn arm_override(claims: JsonNode) -> Option<SkinModel> {
    match str_of(field(claims, "ArmSize"@)) {
        Some(s) => if s == "slim"@ {
            Some(SkinModel::Slim)
        } else if s == "steve"@ {
            Some(SkinModel::Classic)
        } else {
            None
        },
        None => None,
    }
}

/// Whether `s` ends with `suffix`.
pub open spec fn ends_with(s: Seq<char>, suffix: Seq<char>) -> bool {
    suffix.len() <= s.len() && s.subrange(s.len() - suffix.len(), s.len() as int) == suffix
}

/// A skin without geometry of its own: kept where it already has the byte length of a 64×64
/// skin, otherwise resampled as a whole into a fresh 64×64 atlas (left empty for an empty skin).
pub open spec fn passthrough_pixels(raw: Seq<u8>, sw: int) -> Seq<u8> {
    if raw.len() == SKIN_BYTES {
        raw
    } else if sw > 0 && raw.len() > 0 {
        resampled_image(zeros(SKIN_BYTES as int), raw, sw, 64, rect(0, 0, sw, rows_of(raw.len() as int, sw)), rect(0, 0, 64, 64))
    } else {
        zeros(SKIN_BYTES as int)
    }
}

/// A 64×64 skin with its padding pixels made transparent black.
pub open spec fn cleared(pixels: Seq<u8>, is_steve: bool) -> Seq<u8> {
    Seq::new(SKIN_BYTES as nat, |k: int| if is_padding_byte(k, is_steve) { 0u8 } else { pixels[k] })
}

impl SkinInfo {
    /// The sizes stay within what this crate allocates for.
    pub open spec fn wf(&self) -> bool {
        &&& self.skin_width <= MAX_IMAGE_SIDE
        &&& self.skin_width > 0 ==> rows_of(self.raw_skin_data@.len() as int, self.skin_width as int) <= MAX_IMAGE_SIDE
    }
}

/// Relies on `str::ends_with`: whether `s` ends with `suffix`.
#[verifier::external_body]
fn str_ends_with(s: &str, suffix: &str) -> (r: bool)
    ensures
        r == ends_with(s@, suffix@),
{
    s.ends_with(suffix)
}

/// Takes the value of the first entry named `key` out of an object.
fn take_field(node: JsonNode, key: &str) -> (r: Option<JsonNode>)
    ensures
        r == field(node, key@),
{
    match node {
        JsonNode::Object(mut entries) => {
            let ghost all = entries@;
            let wanted = key.to_owned();
            let mut i: usize = 0;
            while i < entries.len()
                invariant
                    i <= entries@.len(),
                    entries@ == all,
                    wanted@ == key@,
                    field(node, key@) == crate::json_tree::entry_from(all, key@, i as int),
                decreases entries@.len() - i,
            {
                if entries[i].0 == wanted {
                    let (_, value) = entries.swap_remove(i);
                    return Some(value);
                }
                i = i + 1;
            }
            None
        },
        _ => None,
    }
}

/// The `geometry` entry of a parsed resource patch, when it is present and not `null`, with
/// the string `default` it names.
pub open spec fn patch_geometry(patch: Option<JsonNode>) -> Option<(JsonNode, Seq<char>)> {
    match patch {
        Some(doc) => match field(doc, "geometry"@) {
            Some(g) => if g is Null {
                None
            } else {
                match str_of(field(g, "default"@)) {
                    Some(name) => Some((g, name)),
                    None => None,
                }
            },
            None => None,
        },
        None => None,
    }
}

/// The bytes of the geometry document, decoded from base64.
pub open spec fn geometry_bytes(claims: JsonNode) -> Seq<u8> {
    base64_decoded(geometry_text(claims)->Some_0)->Some_0
}

/// What reading a request gives, where the JSON parser read its resource patch text as
/// `patch` (`None` where it rejected it): the size must be valid, the patch and geometry
/// fields readable, and the patch must name a default geometry.
pub open spec fn info_outcome(claims: JsonNode, patch: Option<JsonNode>) -> Result<(JsonNode, Seq<char>), ErrorType> {
    if !size_valid(claims) {
        Err(ErrorType::InvalidSize)
    } else if !geometry_fields_readable(claims) || patch_geometry(patch) is None {
        Err(ErrorType::InvalidGeometry)
    } else {
        Ok(patch_geometry(patch)->Some_0)
    }
}

/// Whether `r` is what reading `claims` gives for the parsed patch `patch`; see `info_outcome`.
pub open spec fn info_result(claims: JsonNode, patch: Option<JsonNode>, r: Result<SkinInfo, ErrorType>) -> bool {
    match info_outcome(claims, patch) {
        Err(t) => r matches Err(t2) && t2 == t,
        Ok((g, name)) => r matches Ok(info) && {
            &&& info.wf()
            &&& info.raw_skin_data@ == skin_bytes(claims)->Some_0
            &&& info.skin_width == declared_dims(claims)->Some_0.0
            &&& info.needs_convert == (geometry_text(claims) != Some(null_geometry()))
            &&& info.geometry_data@ == geometry_bytes(claims)
            &&& info.geometry_patch == g
            &&& info.geometry_name@ == name
        },
    }
}

/// What the JSON parser reads from the resource patch of a request: `None` where the field is
/// missing, not base64, not UTF-8 or not JSON.
pub fn parse_patch(client_claims: &JsonNode) -> (r: Option<JsonNode>) {
    let text = get_str(client_claims, "SkinResourcePatch")?;
    let bytes = decode_base64(text.as_str())?;
    let string = utf8_string(bytes)?;
    parse_json(string.as_str())
}

/// Reads a request whose resource patch the JSON parser read as `patch`; see `info_outcome`.
pub fn collect_skin_info_parsed(client_claims: &JsonNode, patch: Option<JsonNode>) -> (r: Result<SkinInfo, ErrorType>)
    ensures
        info_result(*client_claims, patch, r),
{
    let width = match get_field(client_claims, "SkinImageWidth") {
        Some(n) => node_int(n),
        None => None,
    };
    let height = match get_field(client_claims, "SkinImageHeight") {
        Some(n) => node_int(n),
        None => None,
    };
    let (w, h) = match (width, height) {
        (Some(w), Some(h)) => {
            if w < 0 || h < 0 || w > MAX_IMAGE_SIDE as i128 || h > MAX_IMAGE_SIDE as i128 {
                return Err(ErrorType::InvalidSize);
            }
            (w as usize, h as usize)
        },
        _ => {
            return Err(ErrorType::InvalidSize);
        },
    };
    let skin_text = match get_str(client_claims, "SkinData") {
        Some(s) => s,
        None => {
            return Err(ErrorType::InvalidSize);
        },
    };
    let raw_skin_data = match decode_base64(skin_text.as_str()) {
        Some(d) => d,
        None => {
            return Err(ErrorType::InvalidSize);
        },
    };
    assert(w * h * 4 <= MAX_IMAGE_SIDE * MAX_IMAGE_SIDE * 4) by (nonlinear_arith)
        requires w <= MAX_IMAGE_SIDE, h <= MAX_IMAGE_SIDE;
    if raw_skin_data.len() != w * h * 4 {
        return Err(ErrorType::InvalidSize);
    }
    let patch_text = get_str(client_claims, "SkinResourcePatch");
    let geometry_text = get_str(client_claims, "SkinGeometryData");
    let (patch_text, geometry_text) = match (patch_text, geometry_text) {
        (Some(p), Some(g)) => (p, g),
        _ => {
            return Err(ErrorType::InvalidGeometry);
        },
    };
    let needs_convert = !(*geometry_text == "bnVsbAo=".to_owned());
    let (patch_bytes, geometry_data) = match (decode_base64(patch_text.as_str()), decode_base64(geometry_text.as_str())) {
        (Some(p), Some(g)) => (p, g),
        _ => {
            return Err(ErrorType::InvalidGeometry);
        },
    };
    if utf8_string(patch_bytes).is_none() {
        return Err(ErrorType::InvalidGeometry);
    }
    let patch = match patch {
        Some(p) => p,
        None => {
            return Err(ErrorType::InvalidGeometry);
        },
    };
    let geometry_patch = match take_field(patch, "geometry") {
        Some(JsonNode::Null) => {
            return Err(ErrorType::InvalidGeometry);
        },
        Some(g) => g,
        None => {
            return Err(ErrorType::InvalidGeometry);
        },
    };
    let geometry_name = match get_str(&geometry_patch, "default") {
        Some(n) => n.clone(),
        None => {
            return Err(ErrorType::InvalidGeometry);
        },
    };
    proof {
        if w > 0 {
            vstd::arithmetic::div_mod::lemma_div_multiples_vanish((h * w) as int, 4);
            assert(w * h * 4 == 4 * (h * w)) by (nonlinear_arith);
            vstd::arithmetic::div_mod::lemma_div_multiples_vanish(h as int, w as int);
            assert(h * w == w * h) by (nonlinear_arith);
        }
    }
    Ok(SkinInfo { needs_convert, raw_skin_data, skin_width: w, geometry_data, geometry_patch, geometry_name })
}

/// Reads a conversion request: the skin's declared size and pixels, its resource patch (for
/// the default geometry's name) and its geometry document (decoded, not yet parsed). The patch
/// is read with the JSON parser; `collect_skin_info_parsed` states the result for what it read.
pub fn collect_skin_info(client_claims: &JsonNode) -> (r: Result<SkinInfo, ErrorType>)
    ensures
        exists|patch: Option<JsonNode>| #[trigger] info_result(*client_claims, patch, r),
{
    let patch = parse_patch(client_claims);
    let ghost p = patch;
    let r = collect_skin_info_parsed(client_claims, patch);
    assert(info_result(*client_claims, p, r));
    r
}

/// Whether a request converts by its own geometry: it has one, and pixels.
pub open spec fn info_converts(info: SkinInfo) -> bool {
    info.needs_convert && info.skin_width > 0 && info.raw_skin_data@.len() > 0
}

/// The 64×64 skin of a request and whether it uses the classic arm model, where the JSON
/// parser read its geometry text as `document`.
///
/// A skin with a geometry of its own (and pixels) is converted by that geometry (see
/// `geometry_outcome`); its model is classic unless the bones report slim. Any other skin
/// passes through (see `passthrough_pixels`) and is classic unless its geometry name ends with
/// "Slim".
pub fn get_skin_or_convert_parsed(info: SkinInfo, client_claims: &JsonNode, document: Option<JsonNode>) -> (r: Result<(Vec<u8>, bool), GeometryError>)
    requires
        info.wf(),
    ensures
        r matches Ok((px, _)) ==> px@.len() == SKIN_BYTES,
        !info_converts(info) ==> (r matches Ok((px, steve))
            && px@ == passthrough_pixels(info.raw_skin_data@, info.skin_width as int)
            && steve == !ends_with(info.geometry_name@, "Slim"@)),
        info_converts(info) ==> match geometry_outcome(
            info.geometry_data@,
            document,
            info.raw_skin_data@,
            info.skin_width as int,
            *client_claims,
            info.geometry_patch,
            info.geometry_name@,
        ) {
            Ok((px, m)) => r matches Ok((p2, steve)) && p2@ == px && steve == (m != Some(SkinModel::Slim)),
            Err(e) => r matches Err(e2) && e2 == e,
        },
{
    let SkinInfo { needs_convert, raw_skin_data, skin_width, geometry_data, geometry_patch, geometry_name } = info;
    if needs_convert && skin_width > 0 && raw_skin_data.len() > 0 {
        match convert_geometry_document(
            raw_skin_data.as_slice(),
            skin_width,
            client_claims,
            geometry_data,
            document,
            &geometry_patch,
            geometry_name.as_str(),
        ) {
            Err(e) => Err(e),
            Ok((data, model)) => {
                let is_steve = match model {
                    Some(SkinModel::Slim) => false,
                    _ => true,
                };
                Ok((data, is_steve))
            },
        }
    } else {
        let is_steve = !str_ends_with(geometry_name.as_str(), "Slim");
        if raw_skin_data.len() != SKIN_BYTES {
            let mut new_vec = zero_buffer(SKIN_BYTES);
            if skin_width > 0 && raw_skin_data.len() > 0 {
                let source = OffsetAndDimension {
                    x_offset: 0,
                    y_offset: 0,
                    width: skin_width,
                    height: raw_skin_data.len() / 4 / skin_width,
                };
                let target = OffsetAndDimension { x_offset: 0, y_offset: 0, width: 64, height: 64 };
                scale_and_fill_texture(raw_skin_data.as_slice(), new_vec.as_mut_slice(), skin_width, 64, &source, &target);
            }
            Ok((new_vec, is_steve))
        } else {
            Ok((raw_skin_data, is_steve))
        }
    }
}

/// The 64×64 skin of a request and whether it uses the classic arm model, reading its geometry
/// with the JSON parser; `get_skin_or_convert_parsed` states the result for what it read.
pub fn get_skin_or_convert_geometry(info: SkinInfo, client_claims: &JsonNode) -> (r: Result<(Vec<u8>, bool), GeometryError>)
    requires
        info.wf(),
    ensures
        r matches Ok((px, _)) ==> px@.len() == SKIN_BYTES,
        !info_converts(info) ==> (r matches Ok((px, steve))
            && px@ == passthrough_pixels(info.raw_skin_data@, info.skin_width as int)
            && steve == !ends_with(info.geometry_name@, "Slim"@)),
        info_converts(info) ==> exists|document: Option<JsonNode>| match #[trigger] geometry_outcome(
            info.geometry_data@,
            document,
            info.raw_skin_data@,
            info.skin_width as int,
            *client_claims,
            info.geometry_patch,
            info.geometry_name@,
        ) {
            Ok((px, m)) => r matches Ok((p2, steve)) && p2@ == px && steve == (m != Some(SkinModel::Slim)),
            Err(e) => r matches Err(e2) && e2 == e,
        },
{
    let document = if info.needs_convert { parse_geometry_bytes(&info.geometry_data) } else { None };
    let ghost d = document;
    let ghost i = info;
    let r = get_skin_or_convert_parsed(info, client_claims, document);
    proof {
        if info_converts(i) {
            assert(match geometry_outcome(i.geometry_data@, d, i.raw_skin_data@, i.skin_width as int, *client_claims, i.geometry_patch, i.geometry_name@) {
                Ok((px, m)) => r matches Ok((p2, steve)) && p2@ == px && steve == (m != Some(SkinModel::Slim)),
                Err(e) => r matches Err(e2) && e2 == e,
            });
        }
    }
    r
}

/// The skin (before its padding is cleared) and the model that the geometry suggests, for a
/// request whose resource patch and geometry texts the JSON parser read as `patch` and
/// `document`; an `Err(Ok(_))` is an incomplete request, an `Err(Err(_))` a geometry that
/// could not be converted.
pub open spec fn skin_outcome(claims: JsonNode, patch: Option<JsonNode>, document: Option<JsonNode>) -> Result<(Seq<u8>, bool), Result<ErrorType, GeometryError>> {
    match info_outcome(claims, patch) {
        Err(t) => Err(Ok(t)),
        Ok((g, name)) => {
            let skin = skin_bytes(claims)->Some_0;
            let w = declared_dims(claims)->Some_0.0;
            if geometry_text(claims) != Some(null_geometry()) && w > 0 && skin.len() > 0 {
                match geometry_outcome(geometry_bytes(claims), document, skin, w, claims, g, name) {
                    Err(e) => Err(Err(e)),
                    Ok((px, m)) => Ok((px, m != Some(SkinModel::Slim))),
                }
            } else {
                Ok((passthrough_pixels(skin, w), !ends_with(name, "Slim"@)))
            }
        },
    }
}

/// The arm model of a request: an `ArmSize` claim decides over the model `steve` that the
/// skin suggests.
pub open spec fn final_model(claims: JsonNode, steve: bool) -> bool {
    match arm_override(claims) {
        Some(m) => m == SkinModel::Classic,
        None => steve,
    }
}

/// Whether `r` is the conversion of `claims` for the parsed resource patch `patch` and
/// geometry `document`: an incomplete request is `Invalid`, a geometry that cannot be converted
/// an `Error` with its description, and otherwise the skin with its padding cleared for its
/// model is encoded and hashed (an `Error` where the encoder fails).
pub open spec fn request_result(claims: JsonNode, patch: Option<JsonNode>, document: Option<JsonNode>, r: ConvertResult) -> bool {
    match skin_outcome(claims, patch, document) {
        Err(Ok(t)) => r matches ConvertResult::Invalid(t2) && t2 == t,
        Err(Err(e)) => r matches ConvertResult::Error(m) && m == error_text(e),
        Ok((px, steve)) => {
            let c = final_model(claims, steve);
            match png_encoded(cleared(px, c), 64, 64, game_png_settings()) {
                None => r matches ConvertResult::Error(m) && m == error_text(GeometryError::EncodingFailed),
                Some(png) => r matches ConvertResult::Success(img, c2) && c2 == c && img.png@ == png && img.hash@
                    == sha256_of(cleared(px, c)) && img.minecraft_hash@ == sha256_of(png),
            }
        },
    }
}

/// Clears the padding of a 64×64 skin for the given arm model and encodes it.
fn finish_skin(mut raw_data: Vec<u8>, is_classic: bool) -> (r: ConvertResult)
    requires
        raw_data@.len() == SKIN_BYTES,
    ensures
        match png_encoded(cleared(raw_data@, is_classic), 64, 64, game_png_settings()) {
            None => r matches ConvertResult::Error(m) && m == error_text(GeometryError::EncodingFailed),
            Some(png) => r matches ConvertResult::Success(img, c2) && c2 == is_classic && img.png@ == png && img.hash@
                == sha256_of(cleared(raw_data@, is_classic)) && img.minecraft_hash@ == sha256_of(png),
        },
{
    let ghost px = raw_data@;
    clear_unused_pixels(raw_data.as_mut_slice(), is_classic);
    assert(raw_data@ =~= cleared(px, is_classic));
    match encode_image(raw_data.as_slice()) {
        Some(img) => ConvertResult::Success(img, is_classic),
        None => ConvertResult::Error(GeometryError::EncodingFailed.message()),
    }
}

/// Converts a request whose resource patch and geometry texts the JSON parser read as `patch`
/// and `document`; see `request_result`.
pub fn convert_parsed_skin(client_claims: &JsonNode, patch: Option<JsonNode>, document: Option<JsonNode>) -> (r: ConvertResult)
    ensures
        request_result(*client_claims, patch, document, r),
{
    let info = match collect_skin_info_parsed(client_claims, patch) {
        Ok(i) => i,
        Err(t) => {
            return ConvertResult::Invalid(t);
        },
    };
    let arm_model = match get_str(client_claims, "ArmSize") {
        Some(s) => if *s == "slim".to_owned() {
            Some(SkinModel::Slim)
        } else if *s == "steve".to_owned() {
            Some(SkinModel::Classic)
        } else {
            None
        },
        None => None,
    };
    assert(arm_model == arm_override(*client_claims));
    let (raw_data, mut is_classic) = match get_skin_or_convert_parsed(info, client_claims, document) {
        Ok(x) => x,
        Err(e) => {
            return ConvertResult::Error(e.message());
        },
    };
    if let Some(m) = arm_model {
        is_classic = m == SkinModel::Classic;
    }
    finish_skin(raw_data, is_classic)
}

/// What the JSON parser reads from the geometry text of a request: `None` where it is missing,
/// not base64, not UTF-8 or not JSON.
pub fn parse_geometry(client_claims: &JsonNode) -> (r: Option<JsonNode>) {
    let text = get_str(client_claims, "SkinGeometryData")?;
    let bytes = decode_base64(text.as_str())?;
    parse_geometry_bytes(&bytes)
}

/// Converts a skin request (the client claims) into the canonical 64×64 skin, encoded as the
/// game encodes it, with its hashes and arm model. The resource patch and the geometry are read
/// with the JSON parser; `convert_parsed_skin` states the result for what it read.
pub fn convert_skin(client_claims: &JsonNode) -> (r: ConvertResult)
    ensures
        exists|patch: Option<JsonNode>, document: Option<JsonNode>| #[trigger] request_result(
            *client_claims,
            patch,
            document,
            r,
        ),
{
    let patch = parse_patch(client_claims);
    let document = parse_geometry(client_claims);
    let ghost p = patch;
    let ghost d = document;
    let r = convert_parsed_skin(client_claims, patch, document);
    assert(request_result(*client_claims, p, d, r));
    r
}

/// A skin that is already a 64×64 atlas, with every padding pixel of either layout
/// transparent black, comes out of a pass-through byte for byte as it went in, whichever arm
/// model is chosen.
pub proof fn lemma_canonical_passthrough(raw: Seq<u8>, sw: int, is_steve: bool)
    requires
        raw.len() == SKIN_BYTES,
        forall|k: int|
            0 <= k < SKIN_BYTES && (is_padding_byte(k, true) || is_padding_byte(k, false)) ==> #[trigger] raw[k] == 0,
    ensures
        cleared(passthrough_pixels(raw, sw), is_steve) == raw,
{
    assert(cleared(passthrough_pixels(raw, sw), is_steve) =~= raw);
}

/// A request without geometry of its own, whose skin is already a 64×64 atlas with every
/// padding pixel of either layout transparent black, and whose resource patch names a default
/// geometry, yields that skin byte for byte: it is hashed and encoded unchanged.
pub proof fn lemma_canonical_request(claims: JsonNode, patch: Option<JsonNode>, document: Option<JsonNode>)
    requires
        size_valid(claims),
        geometry_fields_readable(claims),
        patch_geometry(patch) is Some,
        geometry_text(claims) == Some(null_geometry()),
        skin_bytes(claims)->Some_0.len() == SKIN_BYTES,
        forall|k: int|
            0 <= k < SKIN_BYTES && (is_padding_byte(k, true) || is_padding_byte(k, false)) ==> #[trigger] skin_bytes(
                claims,
            )->Some_0[k] == 0,
    ensures
        skin_outcome(claims, patch, document) matches Ok((px, steve)) && cleared(px, final_model(claims, steve))
            == skin_bytes(claims)->Some_0,
{
    let skin = skin_bytes(claims)->Some_0;
    let steve = !ends_with(patch_geometry(patch)->Some_0.1, "Slim"@);
    lemma_canonical_passthrough(skin, declared_dims(claims)->Some_0.0, final_model(claims, steve));
}

/// A readable request whose own geometry is a document in an unsupported format version is a
/// geometry error, not an incomplete request.
pub proof fn lemma_unsupported_format_request(claims: JsonNode, patch: Option<JsonNode>, d: JsonNode)
    requires
        info_outcome(claims, patch) is Ok,
        geometry_text(claims) != Some(null_geometry()),
        declared_dims(claims)->Some_0.0 > 0,
        skin_bytes(claims)->Some_0.len() > 0,
        valid_utf8(geometry_bytes(claims)),
        str_of(field(d, "format_version"@)) matches Some(f) && f != "1.8.0"@ && f != "1.12.0"@ && f != "1.14.0"@,
    ensures
        skin_outcome(claims, patch, Some(d)) == Err::<(Seq<u8>, bool), Result<ErrorType, GeometryError>>(
            Err(GeometryError::UnsupportedFormatVersion),
        ),
{
    let (g, name) = info_outcome(claims, patch)->Ok_0;
    lemma_unsupported_format(d, skin_bytes(claims)->Some_0, declared_dims(claims)->Some_0.0, claims, g, name);
}

/// A readable request whose own geometry is a "1.12.0" or "1.14.0" document in which every
/// entry has an identifier, none of them the requested name, is a geometry error, not an
/// incomplete request.
pub proof fn lemma_unknown_geometry_request(claims: JsonNode, patch: Option<JsonNode>, d: JsonNode)
    requires
        info_outcome(claims, patch) is Ok,
        geometry_text(claims) != Some(null_geometry()),
        declared_dims(claims)->Some_0.0 > 0,
        skin_bytes(claims)->Some_0.len() > 0,
        valid_utf8(geometry_bytes(claims)),
        str_of(field(d, "format_version"@)) matches Some(f) && (f == "1.12.0"@ || f == "1.14.0"@),
        forall|j: int|
            0 <= j < items_of(field(d, "minecraft:geometry"@)).len() ==> (#[trigger] str_of(
                member_of(field(items_of(field(d, "minecraft:geometry"@))[j], "description"@), "identifier"@),
            ) matches Some(id) && id != info_outcome(claims, patch)->Ok_0.1),
    ensures
        skin_outcome(claims, patch, Some(d)) == Err::<(Seq<u8>, bool), Result<ErrorType, GeometryError>>(
            Err(GeometryError::GeometryNotFound),
        ),
{
    let (g, name) = info_outcome(claims, patch)->Ok_0;
    lemma_unknown_geometry_name(d, skin_bytes(claims)->Some_0, declared_dims(claims)->Some_0.0, claims, g, name);
}

} // verus!
