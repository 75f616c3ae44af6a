use image_tools::buffer::{ColorModel, PixelBuffer};
use image_tools::decode::decode;
use image_tools::encode::{encode, EncodePolicy};
use image_tools::error::ErrorKind;
use image_tools::format::{detect_format, ContainerFormat};
use image_tools::rotate::{encode_rotated, rotate_buffer, rotate_orthogonal, Direction};

/// A 3x2 image whose pixel in column x of row y is (10 * y + x, 100, 200).
fn sample_buffer() -> PixelBuffer {
    let mut samples = Vec::new();
    for y in 0..2u8 {
        for x in 0..3u8 {
            samples.extend_from_slice(&[10 * y + x, 100, 200]);
        }
    }
    PixelBuffer::from_raw(3, 2, ColorModel::Rgb8, samples).unwrap()
}

fn reds(buffer: &PixelBuffer) -> Vec<Vec<u8>> {
    (0..buffer.height())
        .map(|y| (0..buffer.width()).map(|x| buffer.sample_at(x, y, 0).unwrap()).collect())
        .collect()
}

fn gradient(width: u32, height: u32) -> PixelBuffer {
    let mut samples = Vec::new();
    for y in 0..height {
        for x in 0..width {
            samples.extend_from_slice(&[(x * 255 / width) as u8, (y * 255 / height) as u8, 128]);
        }
    }
    PixelBuffer::from_raw(width, height, ColorModel::Rgb8, samples).unwrap()
}

fn encoded_gradient(width: u32, height: u32, format: ContainerFormat) -> Vec<u8> {
    encode(&gradient(width, height), format, EncodePolicy::FixedQuality(90)).unwrap()
}

fn decoded_size(bytes: &[u8]) -> (ContainerFormat, u32, u32) {
    let format = detect_format(bytes).unwrap();
    let buffer = decode(bytes, format, ColorModel::Rgb8).unwrap();
    (format, buffer.width(), buffer.height())
}

#[test]
fn right_turn_moves_the_left_column_to_the_top_row() {
    let turned = rotate_buffer(&sample_buffer(), Direction::Right).unwrap();
    assert_eq!((turned.width(), turned.height()), (2, 3));
    assert_eq!(reds(&turned), vec![vec![10, 0], vec![11, 1], vec![12, 2]]);
    assert_eq!(turned.sample_at(0, 0, 1), Some(100));
    assert_eq!(turned.sample_at(1, 2, 2), Some(200));
}

#[test]
fn left_turn_moves_the_right_column_to_the_top_row() {
    let turned = rotate_buffer(&sample_buffer(), Direction::Left).unwrap();
    assert_eq!((turned.width(), turned.height()), (2, 3));
    assert_eq!(reds(&turned), vec![vec![2, 12], vec![1, 11], vec![0, 10]]);
}

#[test]
fn flip_reverses_rows_and_columns() {
    let turned = rotate_buffer(&sample_buffer(), Direction::Flip).unwrap();
    assert_eq!((turned.width(), turned.height()), (3, 2));
    assert_eq!(reds(&turned), vec![vec![12, 11, 10], vec![2, 1, 0]]);
}

#[test]
fn quarter_turn_keeps_the_colour_model() {
    let buffer = PixelBuffer::from_raw(1, 2, ColorModel::Rgba8, vec![1, 2, 3, 4, 5, 6, 7, 8]).unwrap();
    let turned = rotate_buffer(&buffer, Direction::Right).unwrap();
    assert_eq!(turned.model(), ColorModel::Rgba8);
    assert_eq!((turned.width(), turned.height()), (2, 1));
    assert_eq!(turned.samples(), &[5, 6, 7, 8, 1, 2, 3, 4]);
}

#[test]
fn four_right_turns_restore_the_buffer() {
    let before = sample_buffer();
    let mut turned = sample_buffer();
    for _ in 0..4 {
        turned = rotate_buffer(&turned, Direction::Right).unwrap();
    }
    assert_eq!((turned.width(), turned.height()), (before.width(), before.height()));
    assert_eq!(turned.samples(), before.samples());
}

#[test]
fn two_right_turns_are_a_flip() {
    let once = rotate_buffer(&sample_buffer(), Direction::Right).unwrap();
    let twice = rotate_buffer(&once, Direction::Right).unwrap();
    let flipped = rotate_buffer(&sample_buffer(), Direction::Flip).unwrap();
    assert_eq!(twice.samples(), flipped.samples());
}

#[test]
fn left_turn_undoes_right_turn() {
    let right = rotate_buffer(&sample_buffer(), Direction::Right).unwrap();
    let back = rotate_buffer(&right, Direction::Left).unwrap();
    assert_eq!((back.width(), back.height()), (3, 2));
    assert_eq!(back.samples(), sample_buffer().samples());
}

#[test]
fn buffer_without_area_is_not_rotated() {
    for (width, height) in [(0, 0), (0, 4), (4, 0)] {
        let empty = PixelBuffer::from_raw(width, height, ColorModel::Rgb8, Vec::new()).unwrap();
        for direction in [Direction::Right, Direction::Left, Direction::Flip] {
            let outcome = rotate_buffer(&empty, direction);
            assert_eq!(outcome.unwrap_err().kind(), ErrorKind::Transform);
        }
    }
}

#[test]
fn direction_names() {
    assert_eq!(Direction::from_name("right"), Direction::Right);
    assert_eq!(Direction::from_name("left"), Direction::Left);
    assert_eq!(Direction::from_name("flip"), Direction::Flip);
    assert_eq!(Direction::from_name(""), Direction::Right);
    assert_eq!(Direction::from_name("LEFT"), Direction::Right);
    assert_eq!(Direction::from_name("upside down"), Direction::Right);
}

#[test]
fn right_turn_swaps_the_sides_of_a_png() {
    let source = encoded_gradient(6, 4, ContainerFormat::Png);
    let turned = rotate_orthogonal(&source, Direction::Right).unwrap();
    assert_eq!(decoded_size(&turned), (ContainerFormat::Png, 4, 6));
}

#[test]
fn left_turn_swaps_the_sides_of_a_jpeg() {
    let source = encoded_gradient(24, 16, ContainerFormat::Jpeg);
    let turned = rotate_orthogonal(&source, Direction::Left).unwrap();
    assert_eq!(decoded_size(&turned), (ContainerFormat::Jpeg, 16, 24));
}

#[test]
fn flip_keeps_the_sides() {
    let png = rotate_orthogonal(&encoded_gradient(6, 4, ContainerFormat::Png), Direction::Flip);
    assert_eq!(decoded_size(&png.unwrap()), (ContainerFormat::Png, 6, 4));
    let jpeg = rotate_orthogonal(&encoded_gradient(24, 16, ContainerFormat::Jpeg), Direction::Flip);
    assert_eq!(decoded_size(&jpeg.unwrap()), (ContainerFormat::Jpeg, 24, 16));
}

#[test]
fn png_rotation_moves_pixels_without_loss() {
    let source = encoded_gradient(6, 4, ContainerFormat::Png);
    let turned = rotate_orthogonal(&source, Direction::Right).unwrap();
    let decoded = decode(&turned, ContainerFormat::Png, ColorModel::Rgb8).unwrap();
    let expected = rotate_buffer(&gradient(6, 4), Direction::Right).unwrap();
    assert_eq!(decoded.samples(), expected.samples());
}

#[test]
fn four_right_turns_restore_a_png() {
    let source = encoded_gradient(6, 4, ContainerFormat::Png);
    let mut bytes = source.clone();
    for _ in 0..4 {
        bytes = rotate_orthogonal(&bytes, Direction::Right).unwrap();
    }
    let restored = decode(&bytes, ContainerFormat::Png, ColorModel::Rgb8).unwrap();
    assert_eq!((restored.width(), restored.height()), (6, 4));
    assert_eq!(restored.samples(), gradient(6, 4).samples());
}

#[test]
fn four_right_turns_restore_the_sides_of_a_jpeg() {
    let mut bytes = encoded_gradient(24, 16, ContainerFormat::Jpeg);
    for _ in 0..4 {
        bytes = rotate_orthogonal(&bytes, Direction::Right).unwrap();
    }
    assert_eq!(decoded_size(&bytes), (ContainerFormat::Jpeg, 24, 16));
    let restored = decode(&bytes, ContainerFormat::Jpeg, ColorModel::Rgb8).unwrap();
    let before = gradient(24, 16);
    for (got, want) in restored.samples().iter().zip(before.samples()) {
        assert!((*got as i32 - *want as i32).abs() <= 40, "{got} is far from {want}");
    }
}

#[test]
fn png_with_alpha_is_rotated_without_it() {
    let buffer = PixelBuffer::from_raw(2, 1, ColorModel::Rgba8, vec![1, 2, 3, 0, 4, 5, 6, 255]).unwrap();
    let source = encode(&buffer, ContainerFormat::Png, EncodePolicy::FixedQuality(60)).unwrap();
    let turned = rotate_orthogonal(&source, Direction::Flip).unwrap();
    let decoded = decode(&turned, ContainerFormat::Png, ColorModel::Rgba8).unwrap();
    assert_eq!(decoded.samples(), &[4, 5, 6, 255, 1, 2, 3, 255]);
}

#[test]
fn right_turn_swaps_the_sides_of_a_webp() {
    let source = encoded_gradient(24, 16, ContainerFormat::WebP);
    assert_eq!(detect_format(&source), Ok(ContainerFormat::WebP));
    let turned = rotate_orthogonal(&source, Direction::Right).unwrap();
    assert_eq!(decoded_size(&turned), (ContainerFormat::WebP, 16, 24));
    let flipped = rotate_orthogonal(&source, Direction::Flip).unwrap();
    assert_eq!(decoded_size(&flipped), (ContainerFormat::WebP, 24, 16));
}

#[test]
fn rotation_keeps_the_container_of_the_source() {
    for format in [ContainerFormat::Jpeg, ContainerFormat::Png, ContainerFormat::WebP] {
        let source = encoded_gradient(12, 8, format);
        for direction in [Direction::Right, Direction::Left, Direction::Flip] {
            let turned = rotate_orthogonal(&source, direction).unwrap();
            assert_eq!(detect_format(&turned), Ok(format));
        }
    }
}

#[test]
fn four_right_turns_restore_the_sides_of_a_webp() {
    let mut bytes = encoded_gradient(24, 16, ContainerFormat::WebP);
    for _ in 0..4 {
        bytes = rotate_orthogonal(&bytes, Direction::Right).unwrap();
    }
    assert_eq!(decoded_size(&bytes), (ContainerFormat::WebP, 24, 16));
}

#[test]
fn rotated_image_is_written_in_every_known_container() {
    let buffer = gradient(4, 4);
    for format in [ContainerFormat::Png, ContainerFormat::Jpeg, ContainerFormat::WebP] {
        let bytes = encode_rotated(&buffer, format).unwrap();
        assert_eq!(detect_format(&bytes), Ok(format));
        let same = encode(&buffer, format, EncodePolicy::FixedQuality(85)).unwrap();
        assert_eq!(bytes, same);
    }
    let outcome = encode_rotated(&buffer, ContainerFormat::Unknown);
    assert_eq!(outcome.unwrap_err().kind(), ErrorKind::Encode);
}

#[test]
fn equal_rotations_give_equal_bytes() {
    let source = encoded_gradient(12, 8, ContainerFormat::Jpeg);
    let first = rotate_orthogonal(&source, Direction::Left).unwrap();
    assert!(rotate_orthogonal(&[0u8; 10], Direction::Left).is_err());
    let second = rotate_orthogonal(&source, Direction::Left).unwrap();
    assert_eq!(first, second);
}

#[test]
fn malformed_input_is_not_rotated() {
    let outcome = rotate_orthogonal(&[0u8; 10], Direction::Right);
    assert_eq!(outcome.unwrap_err().kind(), ErrorKind::UnrecognizedFormat);
    let mut truncated = encoded_gradient(6, 4, ContainerFormat::Png);
    truncated.truncate(20);
    let outcome = rotate_orthogonal(&truncated, Direction::Right);
    assert_eq!(outcome.unwrap_err().kind(), ErrorKind::Decode);
}
