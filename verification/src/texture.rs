//! Decoding texture files into images, by the format their extension names.

use bevy::asset::RenderAssetUsages;
use bevy::image::{CompressedImageFormats, Image, ImageSampler, ImageType};
use vstd::prelude::*;

use crate::error::{PmxError, PmxIoErrorKind};
use crate::paths::path_extension;
use crate::source::{PmxSourceLocation, location_path};
use crate::source::LocationView;
use crate::strings::{ascii_lower, chars_of, string_from_chars, to_ascii_lower};

verus! {

#[verifier::external_type_specification]
#[verifier::external_body]
pub struct ExImage(Image);

/// Whether the image decoder reads `bytes` as an image in the format that the (lowercase) file
/// extension `extension` names.
pub uninterp spec fn image_decodes(bytes: Seq<u8>, extension: Seq<char>) -> bool;

/// `Image::from_buffer` with the format named by the extension, every compressed format
/// allowed, sRGB colour, the default sampler and the default asset usage: the decoded image,
/// or `None` when the bytes do not decode in that format or the extension names none.
#[verifier::external_body]
fn decode_image(bytes: &[u8], extension: &str) -> (r: Option<Image>)
    ensures
        r is Some <==> image_decodes(bytes@, extension@),
{
    Image::from_buffer(
        bytes,
        ImageType::Extension(extension),
        CompressedImageFormats::all(),
        true,
        ImageSampler::Default,
        RenderAssetUsages::default(),
    ).ok()
}

/// The characters with ASCII letters lowercased.
pub open spec fn ascii_lowercase(s: Seq<char>) -> Seq<char> {
    s.map_values(|c: char| ascii_lower(c))
}

/// The lowercase extension of a location's path, which names a texture's file format.
pub open spec fn texture_extension(location: LocationView) -> Option<Seq<char>> {
    match path_extension(location_path(location)) {
        Some(e) => Some(ascii_lowercase(e)),
        None => None,
    }
}

fn lowercase_ascii(s: &str) -> (r: String)
    ensures
        r@ == ascii_lowercase(s@),
{
    let cs = chars_of(s);
    let mut out: Vec<char> = Vec::new();
    let mut i: usize = 0;
    while i < cs.len()
        invariant
            cs@ == s@,
            i <= cs@.len(),
            out@ == ascii_lowercase(s@).take(i as int),
        decreases cs@.len() - i,
    {
        out.push(to_ascii_lower(cs[i]));
        assert(ascii_lowercase(s@).take(i + 1) =~= ascii_lowercase(s@).take(i as int).push(ascii_lower(cs@[i as int])));
        i = i + 1;
    }
    assert(ascii_lowercase(s@).take(cs@.len() as int) =~= ascii_lowercase(s@));
    string_from_chars(out.as_slice())
}

/// Decodes the bytes of the texture at `location`, in the format its lowercase extension names.
///
/// Fails with `InvalidInput` when the location has no extension, and with `InvalidData` when the
/// bytes do not decode in that format.
pub fn decode_texture(location: &PmxSourceLocation, bytes: &[u8]) -> (r: Result<Image, PmxError>)
    ensures
        match texture_extension(location@) {
            None => r matches Err(e) && e == PmxError::Io(PmxIoErrorKind::InvalidInput),
            Some(x) => (r is Ok <==> image_decodes(bytes@, x))
                && (r matches Err(e) ==> e == PmxError::Io(PmxIoErrorKind::InvalidData)),
        },
{
    let extension = match location.extension() {
        Some(e) => e,
        None => return Err(PmxError::Io(PmxIoErrorKind::InvalidInput)),
    };
    let extension = lowercase_ascii(extension.as_str());
    match decode_image(bytes, extension.as_str()) {
        Some(image) => Ok(image),
        None => Err(PmxError::Io(PmxIoErrorKind::InvalidData)),
    }
}

} // verus!
