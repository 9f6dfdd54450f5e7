use cvm_rs::image::row_len;
use cvm_rs::image::BYTES_PER_PIXEL;
use cvm_rs::ConversionError;
use cvm_rs::Image;

#[test]
fn a_pixel_has_four_bytes() {
    assert_eq!(BYTES_PER_PIXEL, 4);
    assert_eq!(row_len(0), 0);
    assert_eq!(row_len(64), 256);
    assert_eq!(row_len(u32::MAX), 17179869180);
}

#[test]
fn a_tightly_packed_image_is_well_formed() {
    let buffer: Vec<u8> = vec![0; 64 * 64 * 4];
    let image = Image { buffer: &buffer, width: 64, height: 64, stride: 256 };
    assert_eq!(image.check(), Ok(()));
}

#[test]
fn an_image_with_padded_rows_is_well_formed() {
    let buffer: Vec<u8> = vec![0; 10 * 3];
    let image = Image { buffer: &buffer, width: 2, height: 3, stride: 10 };
    assert_eq!(image.check(), Ok(()));
}

#[test]
fn an_image_may_have_bytes_to_spare() {
    let buffer: Vec<u8> = vec![0; 100];
    let image = Image { buffer: &buffer, width: 2, height: 2, stride: 8 };
    assert_eq!(image.check(), Ok(()));
}

#[test]
fn an_image_without_pixels_is_well_formed() {
    let buffer: Vec<u8> = Vec::new();
    let image = Image { buffer: &buffer, width: 0, height: 0, stride: 0 };
    assert_eq!(image.check(), Ok(()));
    assert_eq!(image.plane(0), Ok(vec![]));
}

#[test]
fn a_stride_shorter_than_a_row_is_refused() {
    let buffer: Vec<u8> = vec![0; 64];
    let image = Image { buffer: &buffer, width: 2, height: 2, stride: 7 };
    assert_eq!(image.check(), Err(ConversionError::InvalidStride));
}

#[test]
fn a_buffer_one_byte_short_is_refused() {
    let buffer: Vec<u8> = vec![0; 15];
    let image = Image { buffer: &buffer, width: 2, height: 2, stride: 8 };
    assert_eq!(image.check(), Err(ConversionError::BufferTooSmall));
}

#[test]
fn a_buffer_shorter_than_the_padded_rows_is_refused() {
    let buffer: Vec<u8> = vec![0; 16];
    let image = Image { buffer: &buffer, width: 2, height: 2, stride: 16 };
    assert_eq!(image.check(), Err(ConversionError::BufferTooSmall));
}

#[test]
fn the_largest_image_does_not_overflow_the_check() {
    let buffer: Vec<u8> = vec![0; 16];
    let image = Image { buffer: &buffer, width: 1, height: u32::MAX, stride: u32::MAX };
    assert_eq!(image.check(), Err(ConversionError::BufferTooSmall));
    let wide = Image { buffer: &buffer, width: u32::MAX, height: 1, stride: u32::MAX };
    assert_eq!(wide.check(), Err(ConversionError::InvalidStride));
}

#[test]
fn the_plane_of_a_tight_image_is_its_buffer() {
    let buffer: Vec<u8> = (0..16).collect();
    let image = Image { buffer: &buffer, width: 2, height: 2, stride: 8 };
    assert_eq!(image.plane(8), Ok(buffer.clone()));
}

#[test]
fn the_plane_of_a_padded_image_holds_its_pixels_only() {
    let buffer: Vec<u8> = vec![
        1, 2, 3, 4, 5, 6, 7, 8, 90, 91, //
        11, 12, 13, 14, 15, 16, 17, 18, 92, 93,
    ];
    let image = Image { buffer: &buffer, width: 2, height: 2, stride: 10 };
    assert_eq!(
        image.plane(8),
        Ok(vec![1, 2, 3, 4, 5, 6, 7, 8, 11, 12, 13, 14, 15, 16, 17, 18])
    );
}

#[test]
fn the_plane_is_padded_to_the_stride_asked_for() {
    let buffer: Vec<u8> = vec![1, 2, 3, 4, 5, 6, 7, 8];
    let image = Image { buffer: &buffer, width: 1, height: 2, stride: 4 };
    assert_eq!(image.plane(6), Ok(vec![1, 2, 3, 4, 0, 0, 5, 6, 7, 8, 0, 0]));
}

#[test]
fn a_plane_narrower_than_a_row_is_refused() {
    let buffer: Vec<u8> = vec![0; 16];
    let image = Image { buffer: &buffer, width: 2, height: 2, stride: 8 };
    assert_eq!(image.plane(7), Err(ConversionError::InvalidStride));
}

#[test]
fn a_plane_too_large_to_address_is_refused() {
    let buffer: Vec<u8> = vec![0; 16];
    let image = Image { buffer: &buffer, width: 2, height: 2, stride: 8 };
    assert_eq!(image.plane(usize::MAX), Err(ConversionError::InvalidStride));
}

#[test]
fn the_fault_of_the_image_comes_before_that_of_the_plane() {
    let buffer: Vec<u8> = vec![0; 15];
    let image = Image { buffer: &buffer, width: 2, height: 2, stride: 8 };
    assert_eq!(image.plane(7), Err(ConversionError::BufferTooSmall));
}
