use std::io::Cursor;
use zip_packer::restore::{
    convert_binary_to_image, convert_binary_to_text, determine_image_format,
    determine_text_format, ConversionError, PictureFormat,
};

fn png_bytes() -> Vec<u8> {
    let img = image::DynamicImage::ImageRgb8(image::RgbImage::new(3, 2));
    let mut out = Cursor::new(Vec::new());
    img.write_to(&mut out, image::ImageFormat::Png).unwrap();
    out.into_inner()
}

#[test]
fn valid_png_envelope_is_restored() {
    let restored = convert_binary_to_image("photo.png.bin", &png_bytes()).unwrap();
    assert_eq!(restored.path, "photo.png");
    assert_eq!(restored.format, PictureFormat::Png);
    assert_eq!(restored.image.width(), 3);
    assert_eq!(restored.image.height(), 2);
}

#[test]
fn jpeg_named_envelope_is_saved_as_jpg() {
    let restored = convert_binary_to_image("shot.jpeg.bin", &png_bytes()).unwrap();
    assert_eq!(restored.path, "shot.jpg");
    assert_eq!(restored.format, PictureFormat::Jpeg);
}

#[test]
fn other_image_formats_are_saved_as_png() {
    let restored = convert_binary_to_image("anim.gif.bin", &png_bytes()).unwrap();
    assert_eq!(restored.path, "anim.png");
    assert_eq!(restored.format, PictureFormat::Png);
}

#[test]
fn invalid_image_bytes_are_refused() {
    let r = convert_binary_to_image("broken.png.bin", b"not an image at all");
    assert_eq!(r.err(), Some(ConversionError::InvalidImageData));
}

#[test]
fn unknown_image_name_is_refused() {
    let r = convert_binary_to_image("photo.xyz.bin", &png_bytes());
    assert_eq!(r.err(), Some(ConversionError::UnsupportedImageFormat));
}

#[test]
fn image_formats_by_name() {
    assert_eq!(determine_image_format("a.Png.bin"), Ok(PictureFormat::Png));
    assert_eq!(determine_image_format("a.tif.bin"), Ok(PictureFormat::Tiff));
    assert_eq!(determine_image_format("a.webp"), Ok(PictureFormat::WebP));
    assert_eq!(determine_image_format("a.ico.bin"), Ok(PictureFormat::Ico));
    assert_eq!(determine_image_format("a.bmp.bin"), Ok(PictureFormat::Bmp));
    assert_eq!(determine_image_format("a.bin"), Err(ConversionError::UnsupportedImageFormat));
}

#[test]
fn text_formats_by_name() {
    assert_eq!(determine_text_format("a.json.bin"), Ok("json".to_string()));
    assert_eq!(determine_text_format("a.Txt.bin"), Ok("txt".to_string()));
    assert_eq!(determine_text_format("a.md.bin"), Err(ConversionError::UnsupportedTextFormat));
}

#[test]
fn text_envelope_round_trips() {
    let contents = "héllo\nwörld".as_bytes().to_vec();
    let restored = convert_binary_to_text("report.txt.bin", &contents).unwrap();
    assert_eq!(restored.path, "report.txt");
    assert_eq!(restored.contents, contents);
}

#[test]
fn invalid_utf8_is_replaced() {
    let restored = convert_binary_to_text("data.json.bin", &[b'a', 0xff, b'b']).unwrap();
    assert_eq!(restored.path, "data.json");
    assert_eq!(restored.contents, "a\u{fffd}b".as_bytes().to_vec());
}

#[test]
fn empty_text_stays_empty() {
    let restored = convert_binary_to_text("empty.txt.bin", &[]).unwrap();
    assert_eq!(restored.contents, Vec::<u8>::new());
}

#[test]
fn unknown_text_name_is_refused() {
    let r = convert_binary_to_text("notes.md.bin", b"x");
    assert_eq!(r.err(), Some(ConversionError::UnsupportedTextFormat));
}

#[test]
fn leading_dot_envelopes_are_restored() {
    assert_eq!(determine_image_format(".png.bin"), Ok(PictureFormat::Png));
    let png = convert_binary_to_image(".png.bin", &png_bytes()).unwrap();
    assert_eq!(png.path, ".png");
    let gif = convert_binary_to_image(".gif.bin", &png_bytes()).unwrap();
    assert_eq!(gif.path, ".png");
    assert_eq!(gif.format, PictureFormat::Png);
    let text = convert_binary_to_text(".txt.bin", b"plain").unwrap();
    assert_eq!(text.path, ".txt");
    assert_eq!(text.contents, b"plain".to_vec());
}
