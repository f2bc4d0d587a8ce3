use std::io::Cursor;
use zinnebeeld::pixels::decode_image;
use zinnebeeld::{Color, ImageLoadError, ImageLoadErrorKind, PixelGrid};

fn png_of(width: u32, height: u32, data: Vec<u8>) -> Vec<u8> {
    let buffer = image::RgbaImage::from_raw(width, height, data).unwrap();
    let mut out = Cursor::new(Vec::new());
    buffer.write_to(&mut out, image::ImageFormat::Png).unwrap();
    out.into_inner()
}

#[test]
fn grid_needs_four_bytes_for_each_pixel() {
    assert!(PixelGrid::from_rgba(2, 2, vec![0u8; 15]).is_none());
    assert!(PixelGrid::from_rgba(2, 2, vec![0u8; 16]).is_some());
    assert!(PixelGrid::from_rgba(0, 5, Vec::new()).is_some());
    assert!(PixelGrid::from_rgba(u32::MAX, u32::MAX, vec![0u8; 64]).is_none());
}

#[test]
fn grid_leaves_out_bytes_beyond_the_last_pixel() {
    let grid = PixelGrid::from_rgba(1, 1, vec![1, 2, 3, 4, 5, 6]).unwrap();
    assert_eq!(grid.as_bytes(), &[1u8, 2, 3, 4][..]);
    assert_eq!(grid.width(), 1);
    assert_eq!(grid.height(), 1);
}

#[test]
fn pixels_are_read_row_by_row() {
    let data: Vec<u8> = (0u8..24).collect();
    let grid = PixelGrid::from_rgba(3, 2, data).unwrap();
    assert_eq!(grid.get_pixel(0, 0), Color::new(0, 1, 2, 3));
    assert_eq!(grid.get_pixel(2, 0), Color::new(8, 9, 10, 11));
    assert_eq!(grid.get_pixel(0, 1), Color::new(12, 13, 14, 15));
    assert_eq!(grid.get_pixel(2, 1), Color::new(20, 21, 22, 23));
}

#[test]
fn decoding_a_png_gives_its_pixels() {
    let data: Vec<u8> = vec![
        255, 0, 0, 255, 0, 255, 0, 128, 0, 0, 255, 64, //
        10, 20, 30, 40, 50, 60, 70, 80, 90, 100, 110, 120,
    ];
    let grid = decode_image(&png_of(3, 2, data.clone())).unwrap();
    assert_eq!(grid.width(), 3);
    assert_eq!(grid.height(), 2);
    assert_eq!(grid.as_bytes(), &data[..]);
    assert_eq!(grid.get_pixel(1, 1), Color::new(50, 60, 70, 80));
}

#[test]
fn decoding_what_is_no_image_is_a_decode_error() {
    let outcome = decode_image(b"this is no image at all");
    match outcome {
        Err(error) => {
            assert_eq!(error.kind(), ImageLoadErrorKind::Decode);
            assert!(matches!(error, ImageLoadError::DecodeError(_)));
        }
        Ok(_) => panic!("decoded what is no image"),
    }
    assert!(decode_image(&[]).is_err());
}

#[test]
fn decoding_a_cut_png_is_a_decode_error() {
    let mut bytes = png_of(2, 2, vec![7u8; 16]);
    bytes.truncate(bytes.len() / 2);
    let outcome = decode_image(&bytes);
    assert!(matches!(outcome, Err(ImageLoadError::DecodeError(_))));
}

#[test]
fn error_kinds_follow_the_variants() {
    assert_eq!(ImageLoadError::DecodeError(String::new()).kind(), ImageLoadErrorKind::Decode);
    assert_eq!(ImageLoadError::InvalidPath.kind(), ImageLoadErrorKind::InvalidPath);
    assert_eq!(ImageLoadError::Io(String::from("gone")).kind(), ImageLoadErrorKind::Io);
    assert_eq!(ImageLoadError::TextureError(String::new()).kind(), ImageLoadErrorKind::Texture);
}

#[test]
fn texture_rows_start_at_the_bottom() {
    let data: Vec<u8> = (0u8..24).collect();
    let grid = PixelGrid::from_rgba(2, 3, data).unwrap();
    let rows = grid.texture_rows();
    let expected: Vec<u8> = vec![
        16, 17, 18, 19, 20, 21, 22, 23, //
        8, 9, 10, 11, 12, 13, 14, 15, //
        0, 1, 2, 3, 4, 5, 6, 7,
    ];
    assert_eq!(rows, expected);
}

#[test]
fn texture_rows_of_an_empty_grid_are_empty() {
    let grid = PixelGrid::from_rgba(0, 3, Vec::new()).unwrap();
    assert!(grid.texture_rows().is_empty());
    let grid = PixelGrid::from_rgba(3, 0, Vec::new()).unwrap();
    assert!(grid.texture_rows().is_empty());
}

#[test]
fn decoder_outcomes_become_grids_or_decode_errors() {
    let grid = zinnebeeld::pixels::grid_from_decoded(Ok((1, 2, vec![1, 2, 3, 4, 5, 6, 7, 8]))).unwrap();
    assert_eq!(grid.width(), 1);
    assert_eq!(grid.height(), 2);
    assert_eq!(grid.get_pixel(0, 1), Color::new(5, 6, 7, 8));
    let short = zinnebeeld::pixels::grid_from_decoded(Ok((2, 2, vec![0u8; 15])));
    assert!(matches!(short, Err(ImageLoadError::DecodeError(ref text)) if text.is_empty()));
    let failed = zinnebeeld::pixels::grid_from_decoded(Err(String::from("bad magic")));
    assert!(matches!(failed, Err(ImageLoadError::DecodeError(ref text)) if text == "bad magic"));
}
