use image_tools::buffer::ColorModel;
use image_tools::decode::{decode, decoded};
use image_tools::error::{Error, ErrorKind};
use image_tools::format::{detect_format, ContainerFormat, MIN_PREFIX_LEN};

fn png_prefix() -> Vec<u8> {
    vec![0x89, 0x50, 0x4E, 0x47, 0x0D, 0x0A, 0x1A, 0x0A, 0, 0, 0, 13]
}

#[test]
fn detects_png_signature() {
    assert_eq!(detect_format(&png_prefix()), Ok(ContainerFormat::Png));
}

#[test]
fn detects_jpeg_signature() {
    let bytes = [0xFF, 0xD8, 0xFF, 0xE0, 0, 16, 0x4A, 0x46, 0x49, 0x46];
    assert_eq!(detect_format(&bytes), Ok(ContainerFormat::Jpeg));
}

#[test]
fn detects_webp_signature_whatever_the_chunk_size() {
    let mut bytes = b"RIFF".to_vec();
    bytes.extend_from_slice(&[0x12, 0x34, 0x56, 0x78]);
    bytes.extend_from_slice(b"WEBPVP8 ");
    assert_eq!(detect_format(&bytes), Ok(ContainerFormat::WebP));
}

#[test]
fn riff_of_another_form_is_not_webp() {
    let mut bytes = b"RIFF".to_vec();
    bytes.extend_from_slice(&[0, 0, 0, 0]);
    bytes.extend_from_slice(b"WAVEfmt ");
    let outcome = detect_format(&bytes);
    assert_eq!(outcome.unwrap_err().kind(), ErrorKind::UnrecognizedFormat);
}

#[test]
fn webp_needs_its_whole_signature() {
    // Ten bytes are enough to ask, but the form type ends at byte twelve.
    let bytes = b"RIFF\0\0\0\0WE".to_vec();
    assert_eq!(bytes.len(), MIN_PREFIX_LEN);
    assert_eq!(detect_format(&bytes).unwrap_err().kind(), ErrorKind::UnrecognizedFormat);
}

#[test]
fn ten_zero_bytes_are_unrecognized() {
    let outcome = detect_format(&[0u8; 10]);
    assert!(matches!(outcome, Err(Error::UnrecognizedFormat(_))));
}

#[test]
fn other_known_containers_are_unrecognized() {
    let gif = b"GIF89a\x01\x00\x01\x00\x00".to_vec();
    assert_eq!(detect_format(&gif).unwrap_err().kind(), ErrorKind::UnrecognizedFormat);
    let bmp = b"BM\0\0\0\0\0\0\0\0\0\0".to_vec();
    assert_eq!(detect_format(&bmp).unwrap_err().kind(), ErrorKind::UnrecognizedFormat);
}

#[test]
fn short_prefix_is_unrecognized() {
    let bytes = [0xFF, 0xD8, 0xFF, 0xE0];
    assert_eq!(detect_format(&bytes).unwrap_err().kind(), ErrorKind::UnrecognizedFormat);
    assert_eq!(detect_format(&[]).unwrap_err().kind(), ErrorKind::UnrecognizedFormat);
    assert_eq!(detect_format(&png_prefix()[..9]).unwrap_err().kind(), ErrorKind::UnrecognizedFormat);
    assert!(detect_format(&png_prefix()[..10]).is_ok());
}

#[test]
fn detection_leaves_the_input_readable() {
    let bytes = png_prefix();
    let before = bytes.clone();
    let _ = detect_format(&bytes);
    assert_eq!(bytes, before);
}

#[test]
fn malformed_payload_fails_to_decode() {
    for format in [ContainerFormat::Jpeg, ContainerFormat::Png, ContainerFormat::WebP] {
        for model in [ColorModel::Rgb8, ColorModel::Rgba8] {
            let outcome = decode(&[0u8; 10], format, model);
            let error = outcome.unwrap_err();
            assert_eq!(error.kind(), ErrorKind::Decode);
            assert!(!error.message().is_empty());
        }
    }
}

#[test]
fn truncated_png_fails_to_decode() {
    let outcome = decode(&png_prefix(), ContainerFormat::Png, ColorModel::Rgba8);
    assert_eq!(outcome.unwrap_err().kind(), ErrorKind::Decode);
}

#[test]
fn unknown_container_is_not_decoded() {
    let outcome = decode(&png_prefix(), ContainerFormat::Unknown, ColorModel::Rgb8);
    assert_eq!(outcome.unwrap_err().kind(), ErrorKind::UnrecognizedFormat);
}

#[test]
fn decoder_message_is_carried_over() {
    let outcome = decoded(Err("bad chunk".to_string()), ColorModel::Rgb8);
    assert_eq!(outcome.unwrap_err(), Error::Decode("bad chunk".to_string()));
}

#[test]
fn consistent_parts_become_a_buffer() {
    let buffer = decoded(Ok((2, 1, vec![1, 2, 3, 4, 5, 6])), ColorModel::Rgb8).unwrap();
    assert_eq!((buffer.width(), buffer.height()), (2, 1));
    assert_eq!(buffer.model(), ColorModel::Rgb8);
    assert_eq!(buffer.samples(), &[1, 2, 3, 4, 5, 6]);
}

#[test]
fn inconsistent_parts_fail_to_decode() {
    let outcome = decoded(Ok((2, 1, vec![1, 2, 3, 4, 5, 6])), ColorModel::Rgba8);
    assert_eq!(outcome.unwrap_err().kind(), ErrorKind::Decode);
}

#[test]
fn every_error_reports_its_kind_and_message() {
    let cases = [
        (Error::UnrecognizedFormat("a".to_string()), ErrorKind::UnrecognizedFormat, "a"),
        (Error::Decode("b".to_string()), ErrorKind::Decode, "b"),
        (Error::Transform("c".to_string()), ErrorKind::Transform, "c"),
        (Error::Encode("d".to_string()), ErrorKind::Encode, "d"),
        (Error::Io("e".to_string()), ErrorKind::Io, "e"),
    ];
    for (error, kind, message) in cases {
        assert_eq!(error.kind(), kind);
        assert_eq!(error.message(), message);
    }
}
