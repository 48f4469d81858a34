use vstd::prelude::*;
use vstd::utf8::{decode_utf8, valid_utf8};

verus! {

/// What a base64 text (standard alphabet, padded) decodes to, or `None` where it is not
/// base64.
pub uninterp spec fn base64_decoded(text: Seq<char>) -> Option<Seq<u8>>;

/// The SHA-256 digest of some bytes.
pub uninterp spec fn sha256_of(bytes: Seq<u8>) -> Seq<u8>;

/// The PNG file that the PNG encoder makes of RGBA pixels with the given settings, or `None`
/// where it fails.
pub uninterp spec fn png_encoded(pixels: Seq<u8>, width: int, height: int, settings: PngSettings) -> Option<Seq<u8>>;

/// The scanline filter strategy of the PNG encoder.
#[derive(Clone, Copy, Debug, PartialEq, Eq, Structural)]
pub enum PngFilter {
    Zero,
    MinSum,
    Entropy,
    BruteForce,
}

/// Settings of the PNG encoder.
#[derive(Clone, Copy, Debug, PartialEq, Eq, Structural)]
pub struct PngSettings {
    pub auto_convert: bool,
    pub interlace_method: u8,
    pub compression_level: u8,
    pub filter: PngFilter,
}

/// An encoded skin with two SHA-256 digests: `minecraft_hash` of the PNG file (the key the
/// game itself uses) and `hash` of the raw pixels.
pub struct ImageWithHashes {
    pub png: Vec<u8>,
    pub minecraft_hash: Vec<u8>,
    pub hash: Vec<u8>,
}

/// Relies on `base64::decode`: the bytes that `text` encodes, or `None` where it is not base64.
#[verifier::external_body]
pub(crate) fn decode_base64(text: &str) -> (r: Option<Vec<u8>>)
    ensures
        r is None <==> base64_decoded(text@) is None,
        r matches Some(b) ==> base64_decoded(text@) == Some(b@),
{
    base64::decode(text).ok()
}

/// Relies on `String::from_utf8`: the text that `bytes` encodes, where they are valid UTF-8.
#[verifier::external_body]
pub(crate) fn utf8_string(bytes: Vec<u8>) -> (r: Option<String>)
    ensures
        r is Some <==> valid_utf8(bytes@),
        r matches Some(s) ==> s@ == decode_utf8(bytes@),
{
    String::from_utf8(bytes).ok()
}

/// Relies on `sha2::Sha256::digest`: the 32-byte SHA-256 digest of `bytes`.
#[verifier::external_body]
fn sha256(bytes: &[u8]) -> (r: Vec<u8>)
    ensures
        r@ == sha256_of(bytes@),
        r@.len() == 32,
{
    <sha2::Sha256 as sha2::Digest>::digest(bytes).to_vec()
}

/// Relies on `lodepng::Encoder`: encodes RGBA pixels with the given settings.
#[verifier::external_body]
fn encode_png(pixels: &[u8], width: usize, height: usize, settings: &PngSettings) -> (r: Option<Vec<u8>>)
    requires
        pixels@.len() == width * height * 4,
    ensures
        r is None <==> png_encoded(pixels@, width as int, height as int, *settings) is None,
        r matches Some(p) ==> png_encoded(pixels@, width as int, height as int, *settings) == Some(p@),
{
    let mut encoder = lodepng::Encoder::new();
    encoder.set_auto_convert(settings.auto_convert);
    encoder.info_png_mut().interlace_method = settings.interlace_method;
    encoder.settings_mut().set_level(settings.compression_level);
    encoder.settings_mut().filter_strategy = match settings.filter {
        PngFilter::Zero => lodepng::FilterStrategy::ZERO,
        PngFilter::MinSum => lodepng::FilterStrategy::MINSUM,
        PngFilter::Entropy => lodepng::FilterStrategy::ENTROPY,
        PngFilter::BruteForce => lodepng::FilterStrategy::BRUTE_FORCE,
    };
    encoder.encode(pixels, width, height).ok()
}

/// The encoder settings that reproduce the game's own PNG files byte for byte: no colour
/// conversion, no interlacing, compression level 4, no scanline filters.
pub open spec fn game_png_settings() -> PngSettings {
    PngSettings { auto_convert: false, interlace_method: 0, compression_level: 4, filter: PngFilter::Zero }
}

/// The settings of `game_png_settings`.
pub fn game_settings() -> (r: PngSettings)
    ensures
        r == game_png_settings(),
{
    PngSettings { auto_convert: false, interlace_method: 0, compression_level: 4, filter: PngFilter::Zero }
}

/// Encodes RGBA pixels as the game does, and hashes the PNG file and the pixels; `None` where
/// the buffer does not hold exactly `width` × `height` pixels or the encoder fails.
pub fn encode_custom_image(raw_data: &[u8], width: usize, height: usize) -> (r: Option<ImageWithHashes>)
    ensures
        raw_data@.len() != width * height * 4 ==> r is None,
        raw_data@.len() == width * height * 4 ==> (r is None <==> png_encoded(raw_data@, width as int, height as int, game_png_settings()) is None),
        r matches Some(img) ==> png_encoded(raw_data@, width as int, height as int, game_png_settings()) == Some(img.png@)
            && img.minecraft_hash@ == sha256_of(img.png@) && img.hash@ == sha256_of(raw_data@),
{
    let n = raw_data.len() as u128;
    assert((width as u128) * (height as u128) < 0x1_0000_0000_0000_0000_0000_0000_0000_0000) by (nonlinear_arith)
        requires width <= usize::MAX, height <= usize::MAX, usize::MAX < 0x1_0000_0000_0000_0000;
    let area: u128 = (width as u128) * (height as u128);
    if area > n || area * 4 != n {
        return None;
    }
    let settings = game_settings();
    let png = encode_png(raw_data, width, height, &settings)?;
    let minecraft_hash = sha256(png.as_slice());
    let hash = sha256(raw_data);
    Some(ImageWithHashes { png, minecraft_hash, hash })
}

/// Encodes a 64×64 skin; see `encode_custom_image`.
pub fn encode_image(raw_data: &[u8]) -> (r: Option<ImageWithHashes>)
    ensures
        raw_data@.len() != 16384 ==> r is None,
        raw_data@.len() == 16384 ==> (r is None <==> png_encoded(raw_data@, 64, 64, game_png_settings()) is None),
        r matches Some(img) ==> png_encoded(raw_data@, 64, 64, game_png_settings()) == Some(img.png@)
            && img.minecraft_hash@ == sha256_of(img.png@) && img.hash@ == sha256_of(raw_data@),
{
    encode_custom_image(raw_data, 64, 64)
}

} // verus!
