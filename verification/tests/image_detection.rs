use rocy::domain::image::detect_image_type;

#[test]
fn detects_jpeg() {
    assert_eq!(detect_image_type(&[0xFF, 0xD8, 0xFF, 0xE0]), Some("image/jpeg"));
}

#[test]
fn detects_png() {
    let png = [0x89u8, b'P', b'N', b'G', 0x0D, 0x0A, 0x1A, 0x0A, 0, 0];
    assert_eq!(detect_image_type(&png), Some("image/png"));
}

#[test]
fn detects_gif_both_versions() {
    assert_eq!(detect_image_type(b"GIF87a...."), Some("image/gif"));
    assert_eq!(detect_image_type(b"GIF89a"), Some("image/gif"));
}

#[test]
fn detects_webp() {
    assert_eq!(detect_image_type(b"RIFF\x00\x00\x00\x00WEBPVP8 "), Some("image/webp"));
    assert_eq!(detect_image_type(b"RIFF\x00\x00\x00\x00WEBP"), Some("image/webp"));
}

#[test]
fn rejects_short_or_unknown_data() {
    assert_eq!(detect_image_type(&[]), None);
    assert_eq!(detect_image_type(&[0xFF, 0xD8]), None);
    assert_eq!(detect_image_type(b"GIF88a"), None);
    assert_eq!(detect_image_type(b"RIFF\x00\x00\x00\x00WEBX"), None);
    assert_eq!(detect_image_type(b"RIFF\x00\x00\x00\x00WEB"), None);
    assert_eq!(detect_image_type(b"hello world!"), None);
}
