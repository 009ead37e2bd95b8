//! Image helpers: format detection, header parsing, signed image
//! messages, block art, and the stubbed terminal image support.

use openwire::crypto::Identity;
use openwire::media::{generate_ascii_art, ImageFormat, ImageMessage};
use openwire::image_support;

#[test]
fn test_image_format_detection() {
    assert_eq!(ImageFormat::from_extension("png"), Some(ImageFormat::Png));
    assert_eq!(ImageFormat::from_extension("jpg"), Some(ImageFormat::Jpeg));
    assert_eq!(ImageFormat::from_extension("gif"), Some(ImageFormat::Gif));
    assert_eq!(ImageFormat::from_extension("unknown"), None);
}

#[test]
fn test_mime_types() {
    assert_eq!(ImageFormat::Png.mime_type(), "image/png");
    assert_eq!(ImageFormat::Jpeg.mime_type(), "image/jpeg");
}

#[test]
fn test_ascii_art_generation() {
    let art = generate_ascii_art(100, 100, &[]);
    assert!(art.contains('\u{250c}'));
    assert!(art.contains('\u{2514}'));
}

#[test]
fn test_format_detection_is_case_insensitive() {
    assert_eq!(ImageFormat::from_extension("PNG"), Some(ImageFormat::Png));
    assert_eq!(ImageFormat::from_extension("JpEg"), Some(ImageFormat::Jpeg));
    assert_eq!(ImageFormat::from_extension("WEBP"), Some(ImageFormat::WebP));
    assert_eq!(ImageFormat::from_extension("bMp"), Some(ImageFormat::Bmp));
    assert_eq!(ImageFormat::from_extension(""), None);
}

#[test]
fn test_png_dimensions_from_header() {
    // A PNG header with IHDR width 640, height 480 at the fixed offsets.
    let mut data = vec![0u8; 24];
    data[16..20].copy_from_slice(&640u32.to_be_bytes());
    data[20..24].copy_from_slice(&480u32.to_be_bytes());
    let identity = Identity::generate().unwrap();
    let msg = ImageMessage::new(&identity, "a.png".to_string(), ImageFormat::Png, data).unwrap();
    assert_eq!((msg.meta.width, msg.meta.height), (640, 480));
}

#[test]
fn test_gif_dimensions_from_header() {
    // GIF dimensions are little-endian at bytes 6-9.
    let mut data = vec![0u8; 10];
    data[6..8].copy_from_slice(&320u16.to_le_bytes());
    data[8..10].copy_from_slice(&200u16.to_le_bytes());
    let identity = Identity::generate().unwrap();
    let msg = ImageMessage::new(&identity, "a.gif".to_string(), ImageFormat::Gif, data).unwrap();
    assert_eq!((msg.meta.width, msg.meta.height), (320, 200));
}

#[test]
fn test_image_message_sign_verify_and_wire() {
    let identity = Identity::generate().unwrap();
    let data = vec![1u8, 2, 3, 4, 5];
    let msg = ImageMessage::new(&identity, "pic.bmp".to_string(), ImageFormat::Bmp, data).unwrap();
    assert!(msg.verify().is_ok());
    assert_eq!(msg.meta.size, 5);

    let bytes = msg.to_bytes().unwrap();
    let decoded = ImageMessage::from_bytes(&bytes).unwrap();
    assert_eq!(decoded.meta.filename, msg.meta.filename);
    assert_eq!(decoded.meta.format, msg.meta.format);
    assert_eq!(decoded.data, msg.data);
    assert!(decoded.verify().is_ok());

    let mut tampered = decoded.clone();
    tampered.data[0] ^= 1;
    assert!(tampered.verify().is_err());
}

#[test]
fn test_image_support_stubs_report_unavailable() {
    assert!(image_support::load_image(&[1, 2, 3]).is_err());
    assert!(image_support::get_dimensions(&[1, 2, 3]).is_err());
    assert!(image_support::create_picker().is_err());
    assert!(!image_support::supports_images());
}
