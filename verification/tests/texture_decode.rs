use hydra::texture::{DecodedImage, TextureError};

#[test]
fn decode_ppm_pixels() {
    let mut bytes: Vec<u8> = b"P6\n2 1\n255\n".to_vec();
    bytes.extend_from_slice(&[10, 20, 30, 40, 50, 60]);
    let img = DecodedImage::from_bytes(&bytes).unwrap();
    assert_eq!(img.width, 2);
    assert_eq!(img.height, 1);
    assert_eq!(img.rgba, vec![10, 20, 30, 255, 40, 50, 60, 255]);
    assert_eq!(img.bytes_per_row(), 8);
    assert_eq!(img.rows_per_image(), 1);
}

#[test]
fn decode_tall_ppm() {
    let mut bytes: Vec<u8> = b"P6\n1 3\n255\n".to_vec();
    bytes.extend_from_slice(&[1, 2, 3, 4, 5, 6, 7, 8, 9]);
    let img = DecodedImage::from_bytes(&bytes).unwrap();
    assert_eq!(img.width, 1);
    assert_eq!(img.height, 3);
    assert_eq!(img.rgba.len(), 12);
    assert_eq!(img.bytes_per_row(), 4);
    assert_eq!(img.rows_per_image(), 3);
    assert_eq!(&img.rgba[4..8], &[4, 5, 6, 255]);
}

#[test]
fn decode_garbage_fails() {
    let r = DecodedImage::from_bytes(b"not an image at all");
    assert_eq!(r.err(), Some(TextureError::DecodeFailed));
}
