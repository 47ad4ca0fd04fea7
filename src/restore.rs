//! Turning the bytes of a restored entry back into the file it stands for:
//! images are decoded and saved in the format their name announces, text is
//! decoded as UTF-8 with replacement of invalid sequences.

use vstd::prelude::*;
use vstd::string::*;
use vstd::utf8::*;
use crate::naming::same_text;
use crate::envelope::{recover_extension, recovered_extension, restore_path, restored_path};

verus! {

#[verifier::external_type_specification]
#[verifier::external_body]
pub struct ExDynamicImage(image::DynamicImage);

#[verifier::external_type_specification]
#[verifier::external_body]
pub struct ExImageError(image::ImageError);

/// Why the bytes of an entry cannot be turned back into its original file.
#[derive(Clone, Copy, Debug, PartialEq, Eq, Structural)]
pub enum ConversionError {
    /// The bytes are no image that the decoder reads.
    InvalidImageData,
    /// The name announces no image format that is known here.
    UnsupportedImageFormat,
    /// The name announces no text format that is known here.
    UnsupportedTextFormat,
}

/// Image formats that an envelope's name can announce.
#[derive(Clone, Copy, Debug, PartialEq, Eq, Structural)]
pub enum PictureFormat {
    Png,
    Jpeg,
    Gif,
    WebP,
    Tiff,
    Bmp,
    Ico,
}

/// Whether `bytes` begin with the signature of a built-in image format and
/// decode as that format.
pub uninterp spec fn decodes_as_image(bytes: Seq<u8>) -> bool;

/// The text that lossy UTF-8 decoding makes of `bytes`.
pub uninterp spec fn lossy_utf8(bytes: Seq<u8>) -> Seq<char>;

/// Relies on `image::guess_format`, which picks a built-in format from the
/// leading bytes, and `image::load_from_memory_with_format`, which decodes
/// as that format. With a built-in format neither reads the crate's
/// registered hooks, so whether they succeed depends on the bytes alone.
#[verifier::external_body]
fn decode_image(bytes: &[u8]) -> (r: Result<image::DynamicImage, image::ImageError>)
    ensures
        r is Ok == decodes_as_image(bytes@),
{
    match image::guess_format(bytes) {
        Ok(format) => image::load_from_memory_with_format(bytes, format),
        Err(e) => Err(e),
    }
}

/// Relies on `String::from_utf8_lossy`: valid UTF-8 is decoded as it is,
/// and each invalid sequence becomes U+FFFD.
#[verifier::external_body]
fn decode_text(bytes: &[u8]) -> (r: String)
    ensures
        r@ == lossy_utf8(bytes@),
        valid_utf8(bytes@) ==> r@ == decode_utf8(bytes@),
{
    String::from_utf8_lossy(bytes).into_owned()
}

/// Checks that `bytes` decode as an image.
pub fn check_image(bytes: &[u8]) -> (r: Result<(), ConversionError>)
    ensures
        decodes_as_image(bytes@) ==> r is Ok,
        !decodes_as_image(bytes@) ==> r == Err::<(), ConversionError>(ConversionError::InvalidImageData),
{
    match decode_image(bytes) {
        Ok(_) => Ok(()),
        Err(_) => Err(ConversionError::InvalidImageData),
    }
}

/// The image format that extension `ext` announces.
pub open spec fn image_format_of_extension(ext: Seq<char>) -> Option<PictureFormat> {
    if ext == "png"@ || ext == "Png"@ {
        Some(PictureFormat::Png)
    } else if ext == "jpg"@ || ext == "jpeg"@ || ext == "Jpg"@ || ext == "Jpeg"@ {
        Some(PictureFormat::Jpeg)
    } else if ext == "gif"@ || ext == "Gif"@ {
        Some(PictureFormat::Gif)
    } else if ext == "webp"@ || ext == "Webp"@ {
        Some(PictureFormat::WebP)
    } else if ext == "tiff"@ || ext == "tif"@ || ext == "Tiff"@ || ext == "Tif"@ {
        Some(PictureFormat::Tiff)
    } else if ext == "bmp"@ || ext == "Bmp"@ {
        Some(PictureFormat::Bmp)
    } else if ext == "ico"@ || ext == "Ico"@ {
        Some(PictureFormat::Ico)
    } else {
        None
    }
}

/// The image format that the entry `s` announces.
pub open spec fn image_format_of_entry(s: Seq<char>) -> Option<PictureFormat> {
    match recovered_extension(s) {
        Some(e) => image_format_of_extension(e),
        None => None,
    }
}

/// The format a restored image is saved in: JPEG stays JPEG, every other
/// format becomes PNG.
pub open spec fn saved_format(f: PictureFormat) -> PictureFormat {
    match f {
        PictureFormat::Jpeg => PictureFormat::Jpeg,
        _ => PictureFormat::Png,
    }
}

/// Extension of a restored image saved in format `f`.
pub open spec fn saved_extension(f: PictureFormat) -> Seq<char> {
    match f {
        PictureFormat::Jpeg => "jpg"@,
        _ => "png"@,
    }
}

/// The text format (its extension) that extension `ext` announces.
pub open spec fn text_format_of_extension(ext: Seq<char>) -> Option<Seq<char>> {
    if ext == "json"@ || ext == "Json"@ {
        Some("json"@)
    } else if ext == "txt"@ || ext == "Txt"@ {
        Some("txt"@)
    } else {
        None
    }
}

/// The text format that the entry `s` announces.
pub open spec fn text_format_of_entry(s: Seq<char>) -> Option<Seq<char>> {
    match recovered_extension(s) {
        Some(e) => text_format_of_extension(e),
        None => None,
    }
}

/// An image ready to be saved.
pub struct RestoredImage {
    /// Where it goes, relative to the output folder.
    pub path: String,
    /// The format to save it in: PNG or JPEG.
    pub format: PictureFormat,
    pub image: image::DynamicImage,
}

/// A text file ready to be written.
pub struct RestoredText {
    /// Where it goes, relative to the output folder.
    pub path: String,
    pub contents: Vec<u8>,
}

/// The image format that the name of `binary_path` announces.
pub fn determine_image_format(binary_path: &str) -> (r: Result<PictureFormat, ConversionError>)
    ensures
        match image_format_of_entry(binary_path@) {
            Some(f) => r == Ok::<PictureFormat, ConversionError>(f),
            None => r == Err::<PictureFormat, ConversionError>(ConversionError::UnsupportedImageFormat),
        },
{
    let ext = match recover_extension(binary_path) {
        Some(e) => e,
        None => return Err(ConversionError::UnsupportedImageFormat),
    };
    if same_text(ext, "png") || same_text(ext, "Png") {
        Ok(PictureFormat::Png)
    } else if same_text(ext, "jpg") || same_text(ext, "jpeg") || same_text(ext, "Jpg")
        || same_text(ext, "Jpeg") {
        Ok(PictureFormat::Jpeg)
    } else if same_text(ext, "gif") || same_text(ext, "Gif") {
        Ok(PictureFormat::Gif)
    } else if same_text(ext, "webp") || same_text(ext, "Webp") {
        Ok(PictureFormat::WebP)
    } else if same_text(ext, "tiff") || same_text(ext, "tif") || same_text(ext, "Tiff")
        || same_text(ext, "Tif") {
        Ok(PictureFormat::Tiff)
    } else if same_text(ext, "bmp") || same_text(ext, "Bmp") {
        Ok(PictureFormat::Bmp)
    } else if same_text(ext, "ico") || same_text(ext, "Ico") {
        Ok(PictureFormat::Ico)
    } else {
        Err(ConversionError::UnsupportedImageFormat)
    }
}

/// The text format (`json` or `txt`) that the name of `binary_path` announces.
pub fn determine_text_format(binary_path: &str) -> (r: Result<String, ConversionError>)
    ensures
        match text_format_of_entry(binary_path@) {
            Some(f) => (r matches Ok(s) && s@ == f),
            None => r == Err::<String, ConversionError>(ConversionError::UnsupportedTextFormat),
        },
{
    let ext = match recover_extension(binary_path) {
        Some(e) => e,
        None => return Err(ConversionError::UnsupportedTextFormat),
    };
    if same_text(ext, "json") || same_text(ext, "Json") {
        Ok(String::from_str("json"))
    } else if same_text(ext, "txt") || same_text(ext, "Txt") {
        Ok(String::from_str("txt"))
    } else {
        Err(ConversionError::UnsupportedTextFormat)
    }
}

/// Turns the bytes of the entry `binary_path` back into an image: the bytes
/// must decode, and the name must announce an image format; the image is
/// then saved as JPEG when that format is JPEG and as PNG otherwise, under
/// the original path with the matching extension.
pub fn convert_binary_to_image(binary_path: &str, bytes: &[u8]) -> (r: Result<RestoredImage, ConversionError>)
    ensures
        !decodes_as_image(bytes@) ==> (r matches Err(e) && e == ConversionError::InvalidImageData),
        decodes_as_image(bytes@) ==> match image_format_of_entry(binary_path@) {
            None => (r matches Err(e) && e == ConversionError::UnsupportedImageFormat),
            Some(f) => (r matches Ok(img) && img.format == saved_format(f)
                && img.path@ == restored_path(binary_path@, saved_extension(f))),
        },
{
    let image = match decode_image(bytes) {
        Ok(image) => image,
        Err(_) => return Err(ConversionError::InvalidImageData),
    };
    let format = determine_image_format(binary_path)?;
    let (format, ext) = match format {
        PictureFormat::Jpeg => (PictureFormat::Jpeg, "jpg"),
        _ => (PictureFormat::Png, "png"),
    };
    proof {
        reveal_strlit("jpg");
        reveal_strlit("png");
    }
    let path = restore_path(binary_path, ext);
    Ok(RestoredImage { path, format, image })
}

/// Turns the bytes of the entry `binary_path` back into a text file: the
/// name must announce `json` or `txt`; the contents are the bytes decoded as
/// UTF-8, invalid sequences replaced, and encoded again, so that valid UTF-8
/// comes back unchanged.
pub fn convert_binary_to_text(binary_path: &str, bytes: &[u8]) -> (r: Result<RestoredText, ConversionError>)
    ensures
        match text_format_of_entry(binary_path@) {
            None => (r matches Err(e) && e == ConversionError::UnsupportedTextFormat),
            Some(f) => (r matches Ok(t) && t.path@ == restored_path(binary_path@, f)
                && t.contents@ == encode_utf8(lossy_utf8(bytes@))
                && (valid_utf8(bytes@) ==> t.contents@ == bytes@)),
        },
{
    let text = decode_text(bytes);
    let format = determine_text_format(binary_path)?;
    let path = restore_path(binary_path, format.as_str());
    let contents = text.as_str().as_bytes_vec();
    proof {
        if valid_utf8(bytes@) {
            decode_utf8_encode_utf8(bytes@);
        }
    }
    Ok(RestoredText { path, contents })
}

} // verus!
