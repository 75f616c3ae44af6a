use image_tools::buffer::{ColorModel, PixelBuffer};

#[test]
fn buffer_needs_a_matching_sample_count() {
    assert!(PixelBuffer::from_raw(2, 2, ColorModel::Rgb8, vec![0; 12]).is_some());
    assert!(PixelBuffer::from_raw(2, 2, ColorModel::Rgba8, vec![0; 16]).is_some());
    assert!(PixelBuffer::from_raw(2, 2, ColorModel::Rgb8, vec![0; 11]).is_none());
    assert!(PixelBuffer::from_raw(2, 2, ColorModel::Rgb8, vec![0; 13]).is_none());
    assert!(PixelBuffer::from_raw(2, 2, ColorModel::Rgba8, vec![0; 12]).is_none());
    assert!(PixelBuffer::from_raw(u32::MAX, u32::MAX, ColorModel::Rgba8, vec![0; 4]).is_none());
}

#[test]
fn empty_buffer_has_no_area() {
    let buffer = PixelBuffer::from_raw(0, 5, ColorModel::Rgb8, Vec::new()).unwrap();
    assert!(!buffer.has_area());
    assert_eq!(buffer.sample_at(0, 0, 0), None);
    let buffer = PixelBuffer::from_raw(1, 1, ColorModel::Rgb8, vec![1, 2, 3]).unwrap();
    assert!(buffer.has_area());
}

#[test]
fn channels_follow_the_colour_model() {
    assert_eq!(ColorModel::Rgb8.channels(), 3);
    assert_eq!(ColorModel::Rgba8.channels(), 4);
}

#[test]
fn samples_are_found_row_by_row() {
    let samples: Vec<u8> = (0..24).collect();
    let buffer = PixelBuffer::from_raw(3, 2, ColorModel::Rgba8, samples.clone()).unwrap();
    assert_eq!(buffer.sample_at(0, 0, 0), Some(0));
    assert_eq!(buffer.sample_at(2, 0, 3), Some(11));
    assert_eq!(buffer.sample_at(0, 1, 0), Some(12));
    assert_eq!(buffer.sample_at(2, 1, 3), Some(23));
    assert_eq!(buffer.sample_at(3, 0, 0), None);
    assert_eq!(buffer.sample_at(0, 2, 0), None);
    assert_eq!(buffer.sample_at(0, 0, 4), None);
    assert_eq!(buffer.samples(), &samples[..]);
    assert_eq!(buffer.into_raw(), samples);
}

#[test]
fn dropping_alpha_keeps_the_colours() {
    let buffer = PixelBuffer::from_raw(2, 1, ColorModel::Rgba8, vec![1, 2, 3, 4, 5, 6, 7, 8]).unwrap();
    let opaque = buffer.to_rgb8();
    assert_eq!(opaque.model(), ColorModel::Rgb8);
    assert_eq!((opaque.width(), opaque.height()), (2, 1));
    assert_eq!(opaque.samples(), &[1, 2, 3, 5, 6, 7]);
}

#[test]
fn dropping_alpha_copies_an_opaque_buffer() {
    let buffer = PixelBuffer::from_raw(1, 2, ColorModel::Rgb8, vec![9, 8, 7, 6, 5, 4]).unwrap();
    let opaque = buffer.to_rgb8();
    assert_eq!(opaque.model(), ColorModel::Rgb8);
    assert_eq!((opaque.width(), opaque.height()), (1, 2));
    assert_eq!(opaque.samples(), buffer.samples());
}
