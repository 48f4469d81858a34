use vstd::prelude::*;
use crate::common::OffsetAndDimension;
use crate::json_tree::{absent, field, get_field, get_str, is_absent, node_num, num_of, str_of, JsonNode, MAX_UNITS, UNIT};
use crate::geometry::{GeometryError, MAX_IMAGE_SIDE};
use crate::pixel_cleaner::SKIN_BYTES;
use crate::skin::{SkinLayer, SkinModel, SkinPart, SkinSection};
use crate::texture::{atlas_rect, rect_fits, rect_of, resampled_image, rows_of, scale_and_fill_texture, texture_position};

verus! {

/// The body part and layer that a bone name stands for; arm, sleeve, leg and trouser names
/// are accepted in camel case and in lower case.
pub open spec fn section_of(name: Seq<char>) -> Option<(SkinPart, SkinLayer)> {
    if name == "head"@ {
        Some((SkinPart::Head, SkinLayer::Bottom))
    } else if name == "hat"@ {
        Some((SkinPart::Head, SkinLayer::Top))
    } else if name == "leftArm"@ || name == "leftarm"@ {
        Some((SkinPart::ArmLeft, SkinLayer::Bottom))
    } else if name == "leftSleeve"@ || name == "leftsleeve"@ {
        Some((SkinPart::ArmLeft, SkinLayer::Top))
    } else if name == "body"@ {
        Some((SkinPart::Body, SkinLayer::Bottom))
    } else if name == "jacket"@ {
        Some((SkinPart::Body, SkinLayer::Top))
    } else if name == "rightArm"@ || name == "rightarm"@ {
        Some((SkinPart::ArmRight, SkinLayer::Bottom))
    } else if name == "rightSleeve"@ || name == "rightsleeve"@ {
        Some((SkinPart::ArmRight, SkinLayer::Top))
    } else if name == "leftLeg"@ || name == "leftleg"@ {
        Some((SkinPart::LegLeft, SkinLayer::Bottom))
    } else if name == "leftPants"@ || name == "leftpants"@ {
        Some((SkinPart::LegLeft, SkinLayer::Top))
    } else if name == "rightLeg"@ || name == "rightleg"@ {
        Some((SkinPart::LegRight, SkinLayer::Bottom))
    } else if name == "rightPants"@ || name == "rightpants"@ {
        Some((SkinPart::LegRight, SkinLayer::Top))
    } else {
        None
    }
}

/// The atlas rectangle of the section that a bone name stands for.
pub open spec fn bone_position(name: Seq<char>) -> Option<(int, int, int, int)> {
    match section_of(name) {
        Some((part, layer)) => atlas_rect(part, layer),
        None => None,
    }
}

/// Whether a bone name stands for the base layer of either arm.
pub open spec fn is_base_arm(name: Seq<char>) -> bool {
    match section_of(name) {
        Some((part, layer)) => layer == SkinLayer::Bottom && (part == SkinPart::ArmLeft || part == SkinPart::ArmRight),
        None => false,
    }
}

fn name_is(name: &String, literal: &str) -> (r: bool)
    ensures
        r == (name@ == literal@),
{
    *name == literal.to_owned()
}

/// The body part and layer that a bone name stands for; see `section_of`.
pub fn bone_name_to_skin_section(bone_name: &str) -> (r: Option<SkinSection<'static>>)
    ensures
        r is None <==> section_of(bone_name@) is None,
        r matches Some(s) ==> section_of(bone_name@) == Some((*s.0, s.1)),
{
    let n = bone_name.to_owned();
    if name_is(&n, "head") {
        Some(SkinSection(&SkinPart::Head, SkinLayer::Bottom))
    } else if name_is(&n, "hat") {
        Some(SkinSection(&SkinPart::Head, SkinLayer::Top))
    } else if name_is(&n, "leftArm") || name_is(&n, "leftarm") {
        Some(SkinSection(&SkinPart::ArmLeft, SkinLayer::Bottom))
    } else if name_is(&n, "leftSleeve") || name_is(&n, "leftsleeve") {
        Some(SkinSection(&SkinPart::ArmLeft, SkinLayer::Top))
    } else if name_is(&n, "body") {
        Some(SkinSection(&SkinPart::Body, SkinLayer::Bottom))
    } else if name_is(&n, "jacket") {
        Some(SkinSection(&SkinPart::Body, SkinLayer::Top))
    } else if name_is(&n, "rightArm") || name_is(&n, "rightarm") {
        Some(SkinSection(&SkinPart::ArmRight, SkinLayer::Bottom))
    } else if name_is(&n, "rightSleeve") || name_is(&n, "rightsleeve") {
        Some(SkinSection(&SkinPart::ArmRight, SkinLayer::Top))
    } else if name_is(&n, "leftLeg") || name_is(&n, "leftleg") {
        Some(SkinSection(&SkinPart::LegLeft, SkinLayer::Bottom))
    } else if name_is(&n, "leftPants") || name_is(&n, "leftpants") {
        Some(SkinSection(&SkinPart::LegLeft, SkinLayer::Top))
    } else if name_is(&n, "rightLeg") || name_is(&n, "rightleg") {
        Some(SkinSection(&SkinPart::LegRight, SkinLayer::Bottom))
    } else if name_is(&n, "rightPants") || name_is(&n, "rightpants") {
        Some(SkinSection(&SkinPart::LegRight, SkinLayer::Top))
    } else {
        None
    }
}

/// The atlas rectangle for a bone name; see `bone_position`.
pub fn get_texture_position(bone_name: &str) -> (r: Option<OffsetAndDimension>)
    ensures
        r is None <==> bone_position(bone_name@) is None,
        r matches Some(p) ==> bone_position(bone_name@) == Some(rect_of(p)),
{
    match bone_name_to_skin_section(bone_name) {
        Some(section) => texture_position(section),
        None => None,
    }
}

/// Whether a bone name stands for the base layer of either arm; see `is_base_arm`.
pub fn is_bottom_arm(bone_name: &str) -> (r: bool)
    ensures
        r == is_base_arm(bone_name@),
{
    match bone_name_to_skin_section(bone_name) {
        Some(section) => section.1 == SkinLayer::Bottom && (*section.0 == SkinPart::ArmLeft || *section.0
            == SkinPart::ArmRight),
        None => false,
    }
}

/// A pixel count as a machine integer, saturating at `usize::MAX`.
pub open spec fn saturate(n: int) -> int {
    if n > usize::MAX { usize::MAX as int } else { n }
}

/// A number of pixels from a length in units of 10^-20: truncated towards zero, zero for
/// negative lengths, saturating at `usize::MAX`.
pub open spec fn count_of(u: int) -> int {
    if u <= 0 { 0 } else { saturate(u / (UNIT as int)) }
}

/// A number of pixels from a length in units of 10^-20: rounded half away from zero, zero
/// for negative lengths, saturating at `usize::MAX`.
pub open spec fn round_count(u: int) -> int {
    if u <= 0 { 0 } else { saturate((u + (UNIT as int) / 2) / (UNIT as int)) }
}

/// The arm model that a cuboid's width (in units of 10^-20) suggests: a width that rounds
/// up to three pixels is slim, one that rounds up to four is classic.
pub open spec fn cube_model(width: int) -> Option<SkinModel> {
    if 2 * UNIT < width <= 3 * UNIT {
        Some(SkinModel::Slim)
    } else if 3 * UNIT < width <= 4 * UNIT {
        Some(SkinModel::Classic)
    } else {
        None
    }
}

/// A rectangle from four pixel counts.
pub open spec fn rect(x: int, y: int, w: int, h: int) -> OffsetAndDimension {
    OffsetAndDimension { x_offset: x as usize, y_offset: y as usize, width: w as usize, height: h as usize }
}

/// What the first cuboid of a bone yields: the arm model its width suggests, and the source
/// rectangle to copy, which is `None` where its `uv` is an object.
///
/// The rectangle starts at `uv`, is `2 * (depth + width)` wide and `depth + height` high
/// (rounded): the unfolded cuboid.
pub open spec fn cube_plan(cube: JsonNode) -> Result<(Option<SkinModel>, Option<OffsetAndDimension>), GeometryError> {
    let size = field(cube, "size"@);
    if !(size matches Some(JsonNode::Array(s)) && s@.len() == 3) {
        Err(GeometryError::InvalidCubeSize)
    } else {
        let s = size->Some_0->Array_0@;
        match (num_of(Some(s[0])), num_of(Some(s[1])), num_of(Some(s[2]))) {
            (Some(w), Some(h), Some(d)) => {
                let model = cube_model(w);
                let uv = field(cube, "uv"@);
                if is_absent(uv) {
                    Err(GeometryError::MissingCubeUv)
                } else if uv matches Some(JsonNode::Object(_)) {
                    Ok((model, None))
                } else if !(uv matches Some(JsonNode::Array(_))) {
                    Err(GeometryError::CubeUvNotArray)
                } else {
                    let a = uv->Some_0->Array_0@;
                    if a.len() != 2 {
                        Err(GeometryError::InvalidCubeUv)
                    } else {
                        match (num_of(Some(a[0])), num_of(Some(a[1]))) {
                            (Some(x), Some(y)) => Ok(
                                (
                                    model,
                                    Some(rect(count_of(x), count_of(y), count_of(2 * (d + w)), round_count(d + h))),
                                ),
                            ),
                            _ => Err(GeometryError::InvalidCubeUv),
                        }
                    }
                }
            },
            _ => Err(GeometryError::InvalidCubeSizeValues),
        }
    }
}

/// Reads a length as a number of pixels; see `count_of`.
fn to_count(u: i128) -> (r: usize)
    requires
        -4 * MAX_UNITS <= u <= 4 * MAX_UNITS,
    ensures
        r == count_of(u as int),
{
    if u <= 0 {
        0
    } else {
        let n = u / UNIT;
        if n > usize::MAX as i128 { usize::MAX } else { n as usize }
    }
}

/// Reads a length as a rounded number of pixels; see `round_count`.
fn to_rounded_count(u: i128) -> (r: usize)
    requires
        -4 * MAX_UNITS <= u <= 4 * MAX_UNITS,
    ensures
        r == round_count(u as int),
{
    if u <= 0 {
        0
    } else {
        let n = (u + UNIT / 2) / UNIT;
        if n > usize::MAX as i128 { usize::MAX } else { n as usize }
    }
}

/// Which model a cuboid width suggests; see `cube_model`.
fn width_model(width: i128) -> (r: Option<SkinModel>)
    ensures
        r == cube_model(width as int),
{
    if 2 * UNIT < width && width <= 3 * UNIT {
        Some(SkinModel::Slim)
    } else if 3 * UNIT < width && width <= 4 * UNIT {
        Some(SkinModel::Classic)
    } else {
        None
    }
}

/// The image buffer after copying `copy` (source rectangle, target rectangle) of `src`,
/// `sw` pixels wide, into the 64×64 atlas `old`; `old` itself when there is nothing to copy.
pub open spec fn after_copy(old: Seq<u8>, src: Seq<u8>, sw: int, copy: Option<(OffsetAndDimension, OffsetAndDimension)>) -> Seq<u8> {
    match copy {
        Some((source, target)) => resampled_image(old, src, sw, 64, source, target),
        None => old,
    }
}

/// The arm model a bone reports: what its shape suggests, where the bone is an arm's base layer.
pub open spec fn gated_model(name: Seq<char>, model: Option<SkinModel>) -> Option<SkinModel> {
    if is_base_arm(name) { model } else { None }
}

/// Copies the first cuboid of a bone into `position` of the 64×64 atlas `new_vec`; see
/// `cube_plan`. Returns the arm model it suggests where `name` is an arm's base layer.
fn translate_cubed_bone(
    skin_data: &[u8],
    w: usize,
    name: &str,
    position: &OffsetAndDimension,
    cube: &JsonNode,
    new_vec: &mut [u8],
) -> (r: Result<Option<SkinModel>, GeometryError>)
    requires
        w > 0,
        old(new_vec)@.len() == SKIN_BYTES,
        rect_fits(*position, 64, SKIN_BYTES as int),
    ensures
        r matches Err(e) ==> cube_plan(*cube) == Err::<(Option<SkinModel>, Option<OffsetAndDimension>), GeometryError>(e)
            && final(new_vec)@ == old(new_vec)@,
        r matches Ok(m) ==> cube_plan(*cube) is Ok && m == gated_model(name@, cube_plan(*cube)->Ok_0.0)
            && final(new_vec)@ == after_copy(
                old(new_vec)@,
                skin_data@,
                w as int,
                match cube_plan(*cube)->Ok_0.1 {
                    Some(source) => Some((source, *position)),
                    None => None,
                },
            ),
{
    let size = match get_field(cube, "size") {
        Some(JsonNode::Array(s)) => {
            if s.len() != 3 {
                return Err(GeometryError::InvalidCubeSize);
            }
            s
        },
        _ => {
            return Err(GeometryError::InvalidCubeSize);
        },
    };
    let (width, height, depth) = match (node_num(&size[0]), node_num(&size[1]), node_num(&size[2])) {
        (Some(a), Some(b), Some(c)) => (a, b, c),
        _ => {
            return Err(GeometryError::InvalidCubeSizeValues);
        },
    };
    let model = width_model(width);
    let uv = get_field(cube, "uv");
    if absent(uv) {
        return Err(GeometryError::MissingCubeUv);
    }
    let result = if is_bottom_arm(name) { model } else { None };
    let uv = match uv {
        Some(JsonNode::Object(_)) => {
            return Ok(result);
        },
        Some(JsonNode::Array(a)) => a,
        _ => {
            return Err(GeometryError::CubeUvNotArray);
        },
    };
    if uv.len() != 2 {
        return Err(GeometryError::InvalidCubeUv);
    }
    let (x, y) = match (node_num(&uv[0]), node_num(&uv[1])) {
        (Some(x), Some(y)) => (x, y),
        _ => {
            return Err(GeometryError::InvalidCubeUv);
        },
    };
    let source = OffsetAndDimension {
        x_offset: to_count(x),
        y_offset: to_count(y),
        width: to_count(2 * (depth + width)),
        height: to_rounded_count(depth + height),
    };
    scale_and_fill_texture(skin_data, new_vec, w, 64, &source, position);
    Ok(result)
}

/// A UV entry of a mesh, in units of 10^-20: an array of exactly two numbers.
pub open spec fn uv_pair(node: JsonNode) -> Result<(int, int), GeometryError> {
    match node {
        JsonNode::Array(a) => if a@.len() != 2 {
            Err(GeometryError::InvalidUvLength)
        } else {
            match (num_of(Some(a@[0])), num_of(Some(a@[1]))) {
                (Some(u), Some(v)) => Ok((u, v)),
                _ => Err(GeometryError::InvalidUvValue),
            }
        },
        _ => Err(GeometryError::InvalidUvData),
    }
}

/// A UV point on a source image `w`×`h`: scaled by the image size where the mesh's UVs are
/// normalized.
pub open spec fn place_uv(p: (int, int), normalized: bool, w: int, h: int) -> (int, int) {
    if normalized { (p.0 * w, p.1 * h) } else { p }
}

/// Whether a placed UV point lies in `[0, w] × [0, h]` (in units of 10^-20).
pub open spec fn uv_in_image(q: (int, int), w: int, h: int) -> bool {
    0 <= q.0 <= w * UNIT && 0 <= q.1 <= h * UNIT
}

/// The placed UV points of `uvs` from position `i` on. The first entry that is malformed or
/// lies outside the image gives the error.
pub open spec fn placed_uvs(uvs: Seq<JsonNode>, normalized: bool, w: int, h: int, i: int) -> Result<Seq<(int, int)>, GeometryError>
    decreases uvs.len() - i,
{
    if i < 0 || i >= uvs.len() {
        Ok(Seq::empty())
    } else {
        match uv_pair(uvs[i]) {
            Err(e) => Err(e),
            Ok(p) => {
                let q = place_uv(p, normalized, w, h);
                if !uv_in_image(q, w, h) {
                    Err(GeometryError::UvOutOfBounds)
                } else {
                    match placed_uvs(uvs, normalized, w, h, i + 1) {
                        Ok(rest) => Ok(seq![q] + rest),
                        Err(e) => Err(e),
                    }
                }
            },
        }
    }
}

/// The smallest first coordinate of `points`, or `init` if smaller.
pub open spec fn min_u(points: Seq<(int, int)>, init: int) -> int
    decreases points.len(),
{
    if points.len() == 0 { init } else { min_of(min_u(points.drop_last(), init), points.last().0) }
}

/// The largest first coordinate of `points`, or `init` if larger.
pub open spec fn max_u(points: Seq<(int, int)>, init: int) -> int
    decreases points.len(),
{
    if points.len() == 0 { init } else { max_of(max_u(points.drop_last(), init), points.last().0) }
}

/// The smallest second coordinate of `points`, or `init` if smaller.
pub open spec fn min_v(points: Seq<(int, int)>, init: int) -> int
    decreases points.len(),
{
    if points.len() == 0 { init } else { min_of(min_v(points.drop_last(), init), points.last().1) }
}

/// The largest second coordinate of `points`, or `init` if larger.
pub open spec fn max_v(points: Seq<(int, int)>, init: int) -> int
    decreases points.len(),
{
    if points.len() == 0 { init } else { max_of(max_v(points.drop_last(), init), points.last().1) }
}

pub open spec fn min_of(a: int, b: int) -> int {
    if a <= b { a } else { b }
}

pub open spec fn max_of(a: int, b: int) -> int {
    if a >= b { a } else { b }
}

/// The source rectangle of a mesh: the bounding box of its UV points, with the V axis turned
/// so that rows count from the top of the `w`×`h` image.
pub open spec fn mesh_rect(points: Seq<(int, int)>, w: int, h: int) -> OffsetAndDimension {
    let lu = min_u(points, w * UNIT);
    let hu = max_u(points, 0);
    let lv = min_v(points, h * UNIT);
    let hv = max_v(points, 0);
    rect(count_of(lu), count_of(h * UNIT - hv), count_of(hu - lu), count_of(hv - lv))
}

/// The arm model that a mesh's source width suggests: 18 pixels is slim, 20 classic.
pub open spec fn mesh_model(width: int) -> Option<SkinModel> {
    if width == 18 {
        Some(SkinModel::Slim)
    } else if width == 20 {
        Some(SkinModel::Classic)
    } else {
        None
    }
}

/// The elements of an array entry.
pub open spec fn items_of(node: Option<JsonNode>) -> Seq<JsonNode> {
    match node {
        Some(JsonNode::Array(a)) => a@,
        _ => Seq::empty(),
    }
}

/// Whether an entry is an array.
pub open spec fn is_array_node(node: Option<JsonNode>) -> bool {
    node matches Some(JsonNode::Array(_))
}

/// What a polygon mesh yields on a `w`×`h` source image: the arm model its width suggests and
/// its source rectangle (see `mesh_rect`).
pub open spec fn poly_plan(mesh: JsonNode, w: int, h: int) -> Result<(Option<SkinModel>, OffsetAndDimension), GeometryError> {
    let normalized = match field(mesh, "normalized_uvs"@) {
        Some(JsonNode::Bool(b)) => b,
        _ => false,
    };
    let polys = field(mesh, "polys"@);
    let normals = field(mesh, "normals"@);
    let uvs = field(mesh, "uvs"@);
    if is_absent(polys) {
        Err(GeometryError::MissingPolys)
    } else if !is_array_node(polys) {
        Err(GeometryError::PolysNotArray)
    } else if is_absent(normals) {
        Err(GeometryError::MissingNormals)
    } else if !is_array_node(normals) {
        Err(GeometryError::NormalsNotArray)
    } else if items_of(polys).len() != items_of(normals).len() {
        Err(GeometryError::PolysNormalsMismatch)
    } else if is_absent(uvs) {
        Err(GeometryError::MissingUvs)
    } else if !is_array_node(uvs) {
        Err(GeometryError::UvsNotArray)
    } else if items_of(polys).len() == 0 || items_of(uvs).len() == 0 {
        Err(GeometryError::EmptyMesh)
    } else {
        match placed_uvs(items_of(uvs), normalized, w, h, 0) {
            Err(e) => Err(e),
            Ok(points) => {
                let r = mesh_rect(points, w, h);
                Ok((mesh_model(r.width as int), r))
            },
        }
    }
}

/// Reads and places one UV entry; see `uv_pair`, `place_uv` and `uv_in_image`.
fn read_uv(node: &JsonNode, normalized: bool, w: usize, h: usize) -> (r: Result<(i128, i128), GeometryError>)
    requires
        0 < w <= MAX_IMAGE_SIDE,
        h <= MAX_IMAGE_SIDE,
    ensures
        r matches Ok(q) ==> uv_pair(*node) matches Ok(p) && place_uv(p, normalized, w as int, h as int) == (
        q.0 as int, q.1 as int) && uv_in_image((q.0 as int, q.1 as int), w as int, h as int),
        r matches Err(e) ==> match uv_pair(*node) {
            Err(pe) => pe == e,
            Ok(p) => e == GeometryError::UvOutOfBounds && !uv_in_image(place_uv(p, normalized, w as int, h as int), w as int, h as int),
        },
{
    let (u, v) = match node {
        JsonNode::Array(a) => {
            if a.len() != 2 {
                return Err(GeometryError::InvalidUvLength);
            }
            match (node_num(&a[0]), node_num(&a[1])) {
                (Some(u), Some(v)) => (u, v),
                _ => {
                    return Err(GeometryError::InvalidUvValue);
                },
            }
        },
        _ => {
            return Err(GeometryError::InvalidUvData);
        },
    };
    let wu: i128 = w as i128 * UNIT;
    let hu: i128 = h as i128 * UNIT;
    let (qu, qv) = if normalized {
        if u < 0 || u > UNIT || (h > 0 && (v < 0 || v > UNIT)) {
            proof {
                if u < 0 {
                    assert(u * w < 0) by (nonlinear_arith) requires u < 0, w > 0;
                } else if u > UNIT {
                    assert(u * w > w * UNIT) by (nonlinear_arith) requires u > UNIT, w > 0;
                } else if v < 0 {
                    assert(v * h < 0) by (nonlinear_arith) requires v < 0, h > 0;
                } else {
                    assert(v * h > h * UNIT) by (nonlinear_arith) requires v > UNIT, h > 0;
                }
            }
            return Err(GeometryError::UvOutOfBounds);
        }
        assert(u * w <= UNIT * MAX_IMAGE_SIDE) by (nonlinear_arith)
            requires 0 <= u <= UNIT, w <= MAX_IMAGE_SIDE;
        let qv: i128 = if h == 0 {
            0
        } else {
            assert(v * h <= UNIT * MAX_IMAGE_SIDE) by (nonlinear_arith)
                requires 0 <= v <= UNIT, h <= MAX_IMAGE_SIDE;
            v * h as i128
        };
        (u * w as i128, qv)
    } else {
        (u, v)
    };
    if qu < 0 || qv < 0 || qu > wu || qv > hu {
        return Err(GeometryError::UvOutOfBounds);
    }
    Ok((qu, qv))
}

/// Copies the bounding box of a polygon mesh's UVs into `position` of the 64×64 atlas
/// `new_vec`; see `poly_plan`. Returns the arm model it suggests where `name` is an arm's
/// base layer. Mirrored UVs are not supported.
fn translate_poly_bone(
    skin_data: &[u8],
    w: usize,
    name: &str,
    position: &OffsetAndDimension,
    poly_mesh: &JsonNode,
    new_vec: &mut [u8],
) -> (r: Result<Option<SkinModel>, GeometryError>)
    requires
        0 < w <= MAX_IMAGE_SIDE,
        rows_of(skin_data@.len() as int, w as int) <= MAX_IMAGE_SIDE,
        old(new_vec)@.len() == SKIN_BYTES,
        rect_fits(*position, 64, SKIN_BYTES as int),
    ensures
        r matches Err(e) ==> poly_plan(*poly_mesh, w as int, rows_of(skin_data@.len() as int, w as int))
            == Err::<(Option<SkinModel>, OffsetAndDimension), GeometryError>(e) && final(new_vec)@ == old(new_vec)@,
        r matches Ok(m) ==> poly_plan(*poly_mesh, w as int, rows_of(skin_data@.len() as int, w as int)) is Ok
            && m == gated_model(name@, poly_plan(*poly_mesh, w as int, rows_of(skin_data@.len() as int, w as int))->Ok_0.0)
            && final(new_vec)@ == resampled_image(
                old(new_vec)@,
                skin_data@,
                w as int,
                64,
                poly_plan(*poly_mesh, w as int, rows_of(skin_data@.len() as int, w as int))->Ok_0.1,
                *position,
            ),
{
    let h = skin_data.len() / 4 / w;
    let ghost gh = h as int;
    let normalized = match get_field(poly_mesh, "normalized_uvs") {
        Some(JsonNode::Bool(b)) => *b,
        _ => false,
    };
    let polys = get_field(poly_mesh, "polys");
    if absent(polys) {
        return Err(GeometryError::MissingPolys);
    }
    let polys = match polys {
        Some(JsonNode::Array(p)) => p,
        _ => {
            return Err(GeometryError::PolysNotArray);
        },
    };
    let normals = get_field(poly_mesh, "normals");
    if absent(normals) {
        return Err(GeometryError::MissingNormals);
    }
    let normals = match normals {
        Some(JsonNode::Array(n)) => n,
        _ => {
            return Err(GeometryError::NormalsNotArray);
        },
    };
    if polys.len() != normals.len() {
        return Err(GeometryError::PolysNormalsMismatch);
    }
    let uvs = get_field(poly_mesh, "uvs");
    if absent(uvs) {
        return Err(GeometryError::MissingUvs);
    }
    let uvs = match uvs {
        Some(JsonNode::Array(u)) => u,
        _ => {
            return Err(GeometryError::UvsNotArray);
        },
    };
    if polys.len() == 0 || uvs.len() == 0 {
        return Err(GeometryError::EmptyMesh);
    }
    let ghost items = uvs@;
    let ghost gw = w as int;
    let mut lowest_u: i128 = w as i128 * UNIT;
    let mut highest_u: i128 = 0;
    let mut lowest_v: i128 = h as i128 * UNIT;
    let mut highest_v: i128 = 0;
    let ghost mut points: Seq<(int, int)> = Seq::empty();
    let ghost plan = poly_plan(*poly_mesh, gw, gh);
    assert(plan == match placed_uvs(items, normalized, gw, gh, 0) {
        Err(e) => Err(e),
        Ok(pts) => Ok((mesh_model(mesh_rect(pts, gw, gh).width as int), mesh_rect(pts, gw, gh))),
    });
    let mut i: usize = 0;
    while i < uvs.len()
        invariant
            i <= items.len(),
            items == uvs@,
            0 < w <= MAX_IMAGE_SIDE,
            h <= MAX_IMAGE_SIDE,
            gw == w,
            gh == h,
            plan == poly_plan(*poly_mesh, gw, gh),
            gh == rows_of(skin_data@.len() as int, w as int),
            new_vec@ == old(new_vec)@,
            plan == match placed_uvs(items, normalized, gw, gh, 0) {
                Err(e) => Err(e),
                Ok(pts) => Ok((mesh_model(mesh_rect(pts, gw, gh).width as int), mesh_rect(pts, gw, gh))),
            },
            points.len() == i,
            forall|j: int| 0 <= j < i ==> uv_in_image(#[trigger] points[j], gw, gh),
            placed_uvs(items, normalized, gw, gh, 0) == match placed_uvs(items, normalized, gw, gh, i as int) {
                Ok(rest) => Ok(points + rest),
                Err(e) => Err::<Seq<(int, int)>, GeometryError>(e),
            },
            lowest_u == min_u(points, gw * UNIT),
            highest_u == max_u(points, 0),
            lowest_v == min_v(points, gh * UNIT),
            highest_v == max_v(points, 0),
            0 <= lowest_u <= gw * UNIT,
            0 <= highest_u <= gw * UNIT,
            0 <= lowest_v <= gh * UNIT,
            0 <= highest_v <= gh * UNIT,
        decreases items.len() - i,
    {
        let (u, v) = match read_uv(&uvs[i], normalized, w, h) {
            Ok(q) => q,
            Err(e) => {
                proof {
                    assert(placed_uvs(items, normalized, gw, gh, i as int) == Err::<Seq<(int, int)>, GeometryError>(e));
                }
                return Err(e);
            },
        };
        proof {
            let q = (u as int, v as int);
            let rest = placed_uvs(items, normalized, gw, gh, i + 1);
            if let Ok(r) = rest {
                assert(points + (seq![q] + r) =~= points.push(q) + r);
            }
            assert(points.push(q).drop_last() =~= points);
        }
        if u < lowest_u {
            lowest_u = u;
        }
        if u > highest_u {
            highest_u = u;
        }
        if v < lowest_v {
            lowest_v = v;
        }
        if v > highest_v {
            highest_v = v;
        }
        proof {
            points = points.push((u as int, v as int));
        }
        i = i + 1;
    }
    proof {
        assert(placed_uvs(items, normalized, gw, gh, i as int) == Ok::<Seq<(int, int)>, GeometryError>(Seq::empty()));
        assert(points + Seq::<(int, int)>::empty() =~= points);
    }
    let source = OffsetAndDimension {
        x_offset: to_count(lowest_u),
        y_offset: to_count(h as i128 * UNIT - highest_v),
        width: to_count(highest_u - lowest_u),
        height: to_count(highest_v - lowest_v),
    };
    scale_and_fill_texture(skin_data, new_vec, w, 64, &source, position);
    let model = if source.width == 18 {
        Some(SkinModel::Slim)
    } else if source.width == 20 {
        Some(SkinModel::Classic)
    } else {
        None
    };
    if model.is_some() && is_bottom_arm(name) {
        Ok(model)
    } else {
        Ok(None)
    }
}

/// What a bone does to the atlas, reading from a `w`×`h` source image: the arm model it
/// reports and the copy (source rectangle, atlas rectangle) it makes.
///
/// Bones without a name are an error. In face mode only `hat` and `head` are used. Bones
/// without an atlas position, with an empty cuboid list, or with neither cuboids nor a mesh
/// are skipped. Of a cuboid list only the first cuboid counts.
pub open spec fn bone_plan(bone: JsonNode, only_face: bool, w: int, h: int) -> Result<(Option<SkinModel>, Option<(OffsetAndDimension, OffsetAndDimension)>), GeometryError> {
    match str_of(field(bone, "name"@)) {
        None => Err(GeometryError::BoneWithoutName),
        Some(name) => if only_face && name != "hat"@ && name != "head"@ {
            Ok((None, None))
        } else {
            match bone_position(name) {
                None => Ok((None, None)),
                Some(p) => {
                    let target = rect(p.0, p.1, p.2, p.3);
                    let cubes = field(bone, "cubes"@);
                    let mesh = field(bone, "poly_mesh"@);
                    if !is_absent(cubes) {
                        if !is_array_node(cubes) {
                            Err(GeometryError::CubesNotArray)
                        } else if items_of(cubes).len() == 0 {
                            Ok((None, None))
                        } else {
                            match cube_plan(items_of(cubes)[0]) {
                                Err(e) => Err(e),
                                Ok((m, source)) => Ok(
                                    (
                                        gated_model(name, m),
                                        match source {
                                            Some(s) => Some((s, target)),
                                            None => None,
                                        },
                                    ),
                                ),
                            }
                        }
                    } else if !is_absent(mesh) {
                        match poly_plan(mesh->Some_0, w, h) {
                            Err(e) => Err(e),
                            Ok((m, s)) => Ok((gated_model(name, m), Some((s, target)))),
                        }
                    } else {
                        Ok((None, None))
                    }
                },
            }
        },
    }
}

proof fn lemma_atlas_fits(name: Seq<char>)
    requires
        bone_position(name) is Some,
    ensures
        ({
            let p = bone_position(name)->Some_0;
            &&& 0 <= p.0 && 0 <= p.1 && 0 <= p.2 && 0 <= p.3
            &&& rect_fits(rect(p.0, p.1, p.2, p.3), 64, SKIN_BYTES as int)
        }),
{
}

/// Copies one bone's texture from `skin_data` (`w` pixels wide) into the 64×64 atlas
/// `new_vec`; see `bone_plan`. Returns the arm model the bone reports.
pub fn translate_bone(skin_data: &[u8], w: usize, bone: &JsonNode, only_face: bool, new_vec: &mut [u8]) -> (r: Result<Option<SkinModel>, GeometryError>)
    requires
        0 < w <= MAX_IMAGE_SIDE,
        rows_of(skin_data@.len() as int, w as int) <= MAX_IMAGE_SIDE,
        old(new_vec)@.len() == SKIN_BYTES,
    ensures
        final(new_vec)@.len() == SKIN_BYTES,
        r matches Err(e) ==> bone_plan(*bone, only_face, w as int, rows_of(skin_data@.len() as int, w as int))
            == Err::<(Option<SkinModel>, Option<(OffsetAndDimension, OffsetAndDimension)>), GeometryError>(e)
            && final(new_vec)@ == old(new_vec)@,
        r matches Ok(m) ==> bone_plan(*bone, only_face, w as int, rows_of(skin_data@.len() as int, w as int)) matches Ok(
            plan,
        ) && plan.0 == m && final(new_vec)@ == after_copy(old(new_vec)@, skin_data@, w as int, plan.1),
{
    let name = match get_str(bone, "name") {
        Some(n) => n.as_str(),
        None => {
            return Err(GeometryError::BoneWithoutName);
        },
    };
    if only_face {
        let n = name.to_owned();
        if !(n == "hat".to_owned()) && !(n == "head".to_owned()) {
            return Ok(None);
        }
    }
    let position = match get_texture_position(name) {
        Some(p) => p,
        None => {
            return Ok(None);
        },
    };
    proof {
        lemma_atlas_fits(name@);
    }
    let cubes = get_field(bone, "cubes");
    if !absent(cubes) {
        let cubes = match cubes {
            Some(JsonNode::Array(c)) => c,
            _ => {
                return Err(GeometryError::CubesNotArray);
            },
        };
        if cubes.len() == 0 {
            return Ok(None);
        }
        return translate_cubed_bone(skin_data, w, name, &position, &cubes[0], new_vec);
    }
    let poly_mesh = get_field(bone, "poly_mesh");
    if !absent(poly_mesh) {
        return translate_poly_bone(skin_data, w, name, &position, poly_mesh.unwrap(), new_vec);
    }
    Ok(None)
}

/// Normalized UVs behave exactly like the same UVs multiplied by the image size beforehand
/// and not normalized: the same points (or the same error) come out, hence the same source
/// rectangle and arm model.
pub proof fn lemma_normalized_uvs(normalized: Seq<JsonNode>, premultiplied: Seq<JsonNode>, w: int, h: int, i: int)
    requires
        normalized.len() == premultiplied.len(),
        forall|j: int|
            0 <= j < normalized.len() ==> (#[trigger] uv_pair(normalized[j]) matches Ok(p) && uv_pair(premultiplied[j]) == Ok::<
                (int, int),
                GeometryError,
            >((p.0 * w, p.1 * h))),
    ensures
        placed_uvs(normalized, true, w, h, i) == placed_uvs(premultiplied, false, w, h, i),
    decreases normalized.len() - i,
{
    if 0 <= i < normalized.len() {
        lemma_normalized_uvs(normalized, premultiplied, w, h, i + 1);
        assert(uv_pair(normalized[i]) is Ok);
    }
}

/// Two meshes that differ only in that the first has `normalized_uvs: true` and the second
/// holds the same UVs multiplied by the image size (and is not normalized) yield the same
/// source rectangle and arm model, or the same error.
pub proof fn lemma_normalized_mesh(normalized: JsonNode, premultiplied: JsonNode, w: int, h: int)
    requires
        field(normalized, "normalized_uvs"@) == Some(JsonNode::Bool(true)),
        !(field(premultiplied, "normalized_uvs"@) matches Some(JsonNode::Bool(true))),
        field(normalized, "polys"@) == field(premultiplied, "polys"@),
        field(normalized, "normals"@) == field(premultiplied, "normals"@),
        is_array_node(field(normalized, "uvs"@)),
        is_array_node(field(premultiplied, "uvs"@)),
        items_of(field(normalized, "uvs"@)).len() == items_of(field(premultiplied, "uvs"@)).len(),
        forall|j: int|
            0 <= j < items_of(field(normalized, "uvs"@)).len() ==> (#[trigger] uv_pair(
                items_of(field(normalized, "uvs"@))[j],
            ) matches Ok(p) && uv_pair(items_of(field(premultiplied, "uvs"@))[j]) == Ok::<(int, int), GeometryError>(
                (p.0 * w, p.1 * h),
            )),
    ensures
        poly_plan(normalized, w, h) == poly_plan(premultiplied, w, h),
{
    lemma_normalized_uvs(items_of(field(normalized, "uvs"@)), items_of(field(premultiplied, "uvs"@)), w, h, 0);
}

} // verus!
