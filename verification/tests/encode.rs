use image_tools::buffer::{ColorModel, PixelBuffer};
use image_tools::decode::decode;
use image_tools::encode::{
    encode, encoded, webp_config, webp_reported, ContentHint, EncodePolicy, WebpSettings,
    DEFAULT_QUALITY, HEADER_LEN,
};
use image_tools::error::{Error, ErrorKind};
use image_tools::format::{detect_format, ContainerFormat};

fn chessboard(width: u32, height: u32, model: ColorModel) -> PixelBuffer {
    let mut samples = Vec::new();
    for y in 0..height {
        for x in 0..width {
            let v = if (x / 4 + y / 4) % 2 == 0 { 230 } else { 20 };
            samples.extend_from_slice(&[v, 255 - v, 90]);
            if model == ColorModel::Rgba8 {
                samples.push(255);
            }
        }
    }
    PixelBuffer::from_raw(width, height, model, samples).unwrap()
}

#[test]
fn default_quality_is_sixty() {
    assert_eq!(DEFAULT_QUALITY, 60);
    assert_eq!(EncodePolicy::select(None, None), EncodePolicy::FixedQuality(60));
}

#[test]
fn target_size_wins_over_quality() {
    assert_eq!(EncodePolicy::select(Some(80), Some(5000)), EncodePolicy::TargetSize(5000));
    assert_eq!(EncodePolicy::select(None, Some(5000)), EncodePolicy::TargetSize(5000));
    assert_eq!(EncodePolicy::select(Some(80), None), EncodePolicy::FixedQuality(80));
}

#[test]
fn invalid_quality_falls_back() {
    assert_eq!(EncodePolicy::select(Some(101), None), EncodePolicy::FixedQuality(60));
    assert_eq!(EncodePolicy::select(Some(255), None), EncodePolicy::FixedQuality(60));
    assert_eq!(EncodePolicy::select(Some(100), None), EncodePolicy::FixedQuality(100));
    assert_eq!(EncodePolicy::select(Some(0), None), EncodePolicy::FixedQuality(0));
}

#[test]
fn every_target_size_wins_over_quality() {
    for target in [0, 1, 5000, 0x7FFF_FFFF, 0x8000_0000, 3_000_000_000, u32::MAX] {
        for quality in [None, Some(0), Some(10), Some(20), Some(100), Some(200)] {
            assert_eq!(EncodePolicy::select(quality, Some(target)), EncodePolicy::TargetSize(target));
            assert_eq!(webp_config(quality, Some(target)), webp_config(None, Some(target)));
        }
    }
}

#[test]
fn target_size_beyond_the_codec_is_saturated() {
    let expected = WebpSettings {
        method: 2,
        hint: ContentHint::Photo,
        sns_strength: 70,
        filter_sharpness: 2,
        filter_strength: 25,
        quality: 75,
        target_size: i32::MAX,
        passes: 5,
    };
    assert_eq!(webp_config(Some(10), Some(3_000_000_000)), expected);
    assert_eq!(webp_config(Some(20), Some(3_000_000_000)), expected);
    assert_eq!(webp_config(None, Some(u32::MAX)), expected);
    assert_eq!(webp_config(None, Some(0x7FFF_FFFF)), expected);
    assert_eq!(webp_config(None, Some(0x7FFF_FFFE)).target_size, 0x7FFF_FFFE);
    assert_eq!(webp_config(None, Some(0)).target_size, 0);
    assert_eq!(webp_config(None, Some(0)).passes, 5);
}

#[test]
fn fallback_quality_can_be_given() {
    assert_eq!(EncodePolicy::select_or(None, None, 42), EncodePolicy::FixedQuality(42));
    assert_eq!(EncodePolicy::select_or(Some(101), None, 42), EncodePolicy::FixedQuality(42));
    assert_eq!(EncodePolicy::select_or(Some(80), None, 42), EncodePolicy::FixedQuality(80));
    assert_eq!(EncodePolicy::select_or(Some(80), Some(9), 42), EncodePolicy::TargetSize(9));
    assert_eq!(EncodePolicy::select_or(None, None, 101), EncodePolicy::FixedQuality(60));
    assert_eq!(EncodePolicy::select_or(None, None, 100), EncodePolicy::FixedQuality(100));
}

#[test]
fn single_pass_quality_of_each_policy() {
    assert_eq!(EncodePolicy::FixedQuality(85).fixed_quality(), 85);
    assert_eq!(EncodePolicy::FixedQuality(200).fixed_quality(), 60);
    assert_eq!(EncodePolicy::TargetSize(5000).fixed_quality(), 60);
}

#[test]
fn settings_for_a_fixed_quality() {
    let expected = WebpSettings {
        method: 2,
        hint: ContentHint::Photo,
        sns_strength: 70,
        filter_sharpness: 2,
        filter_strength: 25,
        quality: 80,
        target_size: 0,
        passes: 1,
    };
    assert_eq!(webp_config(Some(80), None), expected);
    assert_eq!(WebpSettings::from_policy(EncodePolicy::FixedQuality(80)), expected);
}

#[test]
fn settings_for_the_default_quality() {
    let settings = webp_config(None, None);
    assert_eq!(settings.quality, 60);
    assert_eq!((settings.target_size, settings.passes), (0, 1));
}

#[test]
fn settings_for_a_target_size() {
    let expected = WebpSettings {
        method: 2,
        hint: ContentHint::Photo,
        sns_strength: 70,
        filter_sharpness: 2,
        filter_strength: 25,
        quality: 75,
        target_size: 5000,
        passes: 5,
    };
    assert_eq!(webp_config(Some(10), Some(5000)), expected);
    assert_eq!(webp_config(None, Some(5000)), expected);
}

#[test]
fn settings_for_a_policy_off_the_scale() {
    let settings = WebpSettings::from_policy(EncodePolicy::TargetSize(u32::MAX));
    assert_eq!((settings.quality, settings.target_size, settings.passes), (75, i32::MAX, 5));
    let settings = WebpSettings::from_policy(EncodePolicy::FixedQuality(101));
    assert_eq!((settings.quality, settings.target_size, settings.passes), (60, 0, 1));
}

#[test]
fn refused_initialisation_is_put_in_words() {
    assert_eq!(webp_reported(Err(None)), Err("failed to create WebP config".to_string()));
    assert_eq!(
        webp_reported(Err(Some("VP8_ENC_ERROR_BAD_DIMENSION".to_string()))),
        Err("VP8_ENC_ERROR_BAD_DIMENSION".to_string())
    );
    assert_eq!(webp_reported(Ok(vec![1, 2, 3])), Ok(vec![1, 2, 3]));
    let outcome = encoded(webp_reported(Err(None)));
    assert_eq!(outcome, Err(Error::Encode("failed to create WebP config".to_string())));
}

#[test]
fn encoding_no_longer_than_a_signature_is_refused() {
    assert_eq!(HEADER_LEN, 12);
    let header = b"RIFF\0\0\0\0WEBP".to_vec();
    assert_eq!(encoded(Ok(header.clone())).unwrap_err().kind(), ErrorKind::Encode);
    assert_eq!(encoded(Ok(Vec::new())).unwrap_err().kind(), ErrorKind::Encode);
    let mut longer = header;
    longer.push(0);
    assert_eq!(encoded(Ok(longer.clone())), Ok(longer));
}

#[test]
fn target_size_reaches_the_codec() {
    let buffer = chessboard(64, 64, ColorModel::Rgba8);
    let small = encode(&buffer, ContainerFormat::WebP, EncodePolicy::TargetSize(300)).unwrap();
    let large = encode(&buffer, ContainerFormat::WebP, EncodePolicy::TargetSize(u32::MAX)).unwrap();
    assert!(small.len() < large.len(), "{} against {}", small.len(), large.len());
    assert!(small.len() > HEADER_LEN);
}

#[test]
fn equal_encodes_give_equal_bytes() {
    let buffer = chessboard(32, 32, ColorModel::Rgba8);
    for format in [ContainerFormat::Jpeg, ContainerFormat::Png, ContainerFormat::WebP] {
        let first = encode(&buffer, format, EncodePolicy::FixedQuality(70)).unwrap();
        let second = encode(&buffer, format, EncodePolicy::FixedQuality(70)).unwrap();
        assert_eq!(first, second);
    }
}

#[test]
fn codec_message_becomes_an_encode_error() {
    let bytes: Vec<u8> = (0..13).collect();
    assert_eq!(encoded(Ok(bytes.clone())), Ok(bytes));
    assert_eq!(encoded(Err("disk full".to_string())), Err(Error::Encode("disk full".to_string())));
}

#[test]
fn png_round_trip_is_lossless() {
    for model in [ColorModel::Rgb8, ColorModel::Rgba8] {
        let buffer = chessboard(9, 7, model);
        let bytes = encode(&buffer, ContainerFormat::Png, EncodePolicy::TargetSize(10)).unwrap();
        assert_eq!(detect_format(&bytes), Ok(ContainerFormat::Png));
        let back = decode(&bytes, ContainerFormat::Png, model).unwrap();
        assert_eq!((back.width(), back.height()), (9, 7));
        assert_eq!(back.samples(), buffer.samples());
    }
}

#[test]
fn jpeg_is_written_without_alpha() {
    let buffer = chessboard(16, 8, ColorModel::Rgba8);
    let bytes = encode(&buffer, ContainerFormat::Jpeg, EncodePolicy::FixedQuality(90)).unwrap();
    assert_eq!(detect_format(&bytes), Ok(ContainerFormat::Jpeg));
    let back = decode(&bytes, ContainerFormat::Jpeg, ColorModel::Rgb8).unwrap();
    assert_eq!((back.width(), back.height()), (16, 8));
}

#[test]
fn jpeg_quality_follows_the_policy() {
    let buffer = chessboard(64, 64, ColorModel::Rgb8);
    let low = encode(&buffer, ContainerFormat::Jpeg, EncodePolicy::FixedQuality(10)).unwrap();
    let high = encode(&buffer, ContainerFormat::Jpeg, EncodePolicy::FixedQuality(95)).unwrap();
    let searched = encode(&buffer, ContainerFormat::Jpeg, EncodePolicy::TargetSize(1)).unwrap();
    let default = encode(&buffer, ContainerFormat::Jpeg, EncodePolicy::FixedQuality(60)).unwrap();
    assert!(low.len() < high.len());
    assert_eq!(searched, default);
}

#[test]
fn webp_quality_follows_the_policy() {
    let buffer = chessboard(64, 64, ColorModel::Rgba8);
    let low = encode(&buffer, ContainerFormat::WebP, EncodePolicy::FixedQuality(5)).unwrap();
    let high = encode(&buffer, ContainerFormat::WebP, EncodePolicy::FixedQuality(100)).unwrap();
    assert_eq!(detect_format(&low), Ok(ContainerFormat::WebP));
    assert!(low.len() < high.len());
    let back = decode(&high, ContainerFormat::WebP, ColorModel::Rgba8).unwrap();
    assert_eq!((back.width(), back.height()), (64, 64));
}

#[test]
fn webp_accepts_buffers_without_alpha() {
    let buffer = chessboard(16, 16, ColorModel::Rgb8);
    let bytes = encode(&buffer, ContainerFormat::WebP, EncodePolicy::FixedQuality(60)).unwrap();
    let back = decode(&bytes, ContainerFormat::WebP, ColorModel::Rgb8).unwrap();
    assert_eq!((back.width(), back.height()), (16, 16));
}

#[test]
fn unknown_container_is_not_encoded() {
    let buffer = chessboard(4, 4, ColorModel::Rgb8);
    let outcome = encode(&buffer, ContainerFormat::Unknown, EncodePolicy::FixedQuality(60));
    assert_eq!(outcome.unwrap_err().kind(), ErrorKind::Encode);
}

#[test]
fn image_without_area_is_not_encoded() {
    let empty = PixelBuffer::from_raw(0, 3, ColorModel::Rgb8, Vec::new()).unwrap();
    for format in [ContainerFormat::Jpeg, ContainerFormat::Png, ContainerFormat::WebP] {
        let outcome = encode(&empty, format, EncodePolicy::FixedQuality(60));
        assert_eq!(outcome.unwrap_err().kind(), ErrorKind::Encode);
    }
}

#[test]
fn image_beyond_the_codec_limit_is_not_encoded() {
    let wide = PixelBuffer::from_raw(16384, 1, ColorModel::Rgb8, vec![0; 16384 * 3]).unwrap();
    let outcome = encode(&wide, ContainerFormat::WebP, EncodePolicy::FixedQuality(60));
    assert_eq!(outcome.unwrap_err().kind(), ErrorKind::Encode);
    let widest = PixelBuffer::from_raw(16383, 1, ColorModel::Rgb8, vec![0; 16383 * 3]).unwrap();
    assert!(encode(&widest, ContainerFormat::WebP, EncodePolicy::FixedQuality(60)).is_ok());
    let tall = PixelBuffer::from_raw(1, 65536, ColorModel::Rgb8, vec![0; 65536 * 3]).unwrap();
    let outcome = encode(&tall, ContainerFormat::Jpeg, EncodePolicy::FixedQuality(60));
    assert_eq!(outcome.unwrap_err().kind(), ErrorKind::Encode);
    assert!(encode(&tall, ContainerFormat::Png, EncodePolicy::FixedQuality(60)).is_ok());
}
