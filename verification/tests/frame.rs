use cvm_rs::PlanarFrame;
use cvm_rs::Plane;
use cvm_rs::PlaneKind;
use cvm_rs::ScaledFrame;

fn scaled_planes<'a>(
    luma: &'a [u8],
    luma_stride: usize,
    chroma_u: &'a [u8],
    chroma_v: &'a [u8],
    chroma_stride: usize,
) -> ScaledFrame<'a> {
    ScaledFrame {
        luma: Plane { data: luma, stride: luma_stride },
        chroma_u: Plane { data: chroma_u, stride: chroma_stride },
        chroma_v: Plane { data: chroma_v, stride: chroma_stride },
    }
}

#[test]
fn a_frame_is_luma_then_both_planes_of_chroma() {
    let y: Vec<u8> = vec![1, 2, 3, 4, 5, 6, 7, 8];
    let u: Vec<u8> = vec![20, 21];
    let v: Vec<u8> = vec![30, 31];
    let frame = PlanarFrame::from_planes(4, 2, &scaled_planes(&y, 4, &u, &v, 2)).unwrap();
    assert_eq!(frame.width(), 4);
    assert_eq!(frame.height(), 2);
    assert_eq!(frame.data(), &[1, 2, 3, 4, 5, 6, 7, 8, 20, 21, 30, 31][..]);
}

#[test]
fn a_frame_leaves_the_padding_of_the_planes_out() {
    let y: Vec<u8> = vec![1, 2, 99, 99, 3, 4, 99, 99];
    let u: Vec<u8> = vec![20, 99, 99];
    let v: Vec<u8> = vec![30, 99, 99];
    let frame = PlanarFrame::from_planes(2, 2, &scaled_planes(&y, 4, &u, &v, 3)).unwrap();
    assert_eq!(frame.data(), &[1, 2, 3, 4, 20, 30][..]);
}

#[test]
fn a_frame_has_three_bytes_for_two_pixels() {
    let y: Vec<u8> = vec![7; 64 * 64];
    let u: Vec<u8> = vec![8; 32 * 32];
    let v: Vec<u8> = vec![9; 32 * 32];
    let frame = PlanarFrame::from_planes(64, 64, &scaled_planes(&y, 64, &u, &v, 32)).unwrap();
    assert_eq!(frame.data().len(), 6144);
    assert_eq!(frame.data().len(), 64 * 64 * 3 / 2);
    assert_eq!(frame.data()[0], 7);
    assert_eq!(frame.data()[4095], 7);
    assert_eq!(frame.data()[4096], 8);
    assert_eq!(frame.data()[5119], 8);
    assert_eq!(frame.data()[5120], 9);
    assert_eq!(frame.data()[6143], 9);
}

#[test]
fn a_frame_of_the_smallest_size_has_six_bytes() {
    let y: Vec<u8> = vec![1, 2, 3, 4];
    let u: Vec<u8> = vec![5];
    let v: Vec<u8> = vec![6];
    let frame = PlanarFrame::from_planes(2, 2, &scaled_planes(&y, 2, &u, &v, 1)).unwrap();
    assert_eq!(frame.data(), &[1, 2, 3, 4, 5, 6][..]);
}

#[test]
fn no_frame_of_dimensions_that_no_session_can_have() {
    let y: Vec<u8> = vec![0; 64];
    let u: Vec<u8> = vec![0; 64];
    let v: Vec<u8> = vec![0; 64];
    assert!(PlanarFrame::from_planes(0, 2, &scaled_planes(&y, 2, &u, &v, 1)).is_none());
    assert!(PlanarFrame::from_planes(2, 0, &scaled_planes(&y, 2, &u, &v, 1)).is_none());
    assert!(PlanarFrame::from_planes(3, 2, &scaled_planes(&y, 4, &u, &v, 2)).is_none());
    assert!(PlanarFrame::from_planes(2, 3, &scaled_planes(&y, 2, &u, &v, 1)).is_none());
    assert!(PlanarFrame::from_planes(2147483648, 2, &scaled_planes(&y, 2, &u, &v, 1)).is_none());
}

#[test]
fn no_frame_from_a_luma_plane_that_is_too_short() {
    let y: Vec<u8> = vec![1, 2, 3];
    let u: Vec<u8> = vec![5];
    let v: Vec<u8> = vec![6];
    assert!(PlanarFrame::from_planes(2, 2, &scaled_planes(&y, 2, &u, &v, 1)).is_none());
}

#[test]
fn no_frame_from_a_chroma_plane_that_is_too_short() {
    let y: Vec<u8> = vec![1, 2, 3, 4];
    let none: Vec<u8> = Vec::new();
    let one: Vec<u8> = vec![5];
    assert!(PlanarFrame::from_planes(2, 2, &scaled_planes(&y, 2, &none, &one, 1)).is_none());
    assert!(PlanarFrame::from_planes(2, 2, &scaled_planes(&y, 2, &one, &none, 1)).is_none());
}

#[test]
fn no_frame_from_a_plane_whose_stride_is_too_short() {
    let y: Vec<u8> = vec![0; 64];
    let u: Vec<u8> = vec![0; 64];
    let v: Vec<u8> = vec![0; 64];
    assert!(PlanarFrame::from_planes(4, 2, &scaled_planes(&y, 3, &u, &v, 2)).is_none());
    assert!(PlanarFrame::from_planes(4, 2, &scaled_planes(&y, 4, &u, &v, 1)).is_none());
}

#[test]
fn the_planes_of_a_frame_come_out_as_they_went_in() {
    let y: Vec<u8> = vec![1, 2, 3, 4, 0, 5, 6, 7, 8, 0];
    let u: Vec<u8> = vec![20, 21, 0];
    let v: Vec<u8> = vec![30, 31, 0];
    let frame = PlanarFrame::from_planes(4, 2, &scaled_planes(&y, 5, &u, &v, 3)).unwrap();
    assert_eq!(frame.plane(PlaneKind::Luma, 5), Some(y.clone()));
    assert_eq!(frame.plane(PlaneKind::ChromaU, 3), Some(u.clone()));
    assert_eq!(frame.plane(PlaneKind::ChromaV, 3), Some(v.clone()));
}

#[test]
fn a_plane_is_laid_out_with_the_stride_asked_for() {
    let y: Vec<u8> = vec![1, 2, 3, 4, 5, 6, 7, 8];
    let u: Vec<u8> = vec![20, 21];
    let v: Vec<u8> = vec![30, 31];
    let frame = PlanarFrame::from_planes(4, 2, &scaled_planes(&y, 4, &u, &v, 2)).unwrap();
    assert_eq!(frame.plane(PlaneKind::Luma, 4), Some(vec![1, 2, 3, 4, 5, 6, 7, 8]));
    assert_eq!(
        frame.plane(PlaneKind::Luma, 6),
        Some(vec![1, 2, 3, 4, 0, 0, 5, 6, 7, 8, 0, 0])
    );
    assert_eq!(frame.plane(PlaneKind::ChromaU, 2), Some(vec![20, 21]));
    assert_eq!(frame.plane(PlaneKind::ChromaU, 4), Some(vec![20, 21, 0, 0]));
    assert_eq!(frame.plane(PlaneKind::ChromaV, 2), Some(vec![30, 31]));
    assert_eq!(frame.plane(PlaneKind::ChromaV, 3), Some(vec![30, 31, 0]));
}

#[test]
fn a_plane_with_two_rows_of_chroma_keeps_them_apart() {
    let y: Vec<u8> = (0..16).collect();
    let u: Vec<u8> = vec![40, 41, 42, 43];
    let v: Vec<u8> = vec![50, 51, 52, 53];
    let frame = PlanarFrame::from_planes(4, 4, &scaled_planes(&y, 4, &u, &v, 2)).unwrap();
    assert_eq!(frame.data().len(), 24);
    assert_eq!(frame.plane(PlaneKind::ChromaU, 3), Some(vec![40, 41, 0, 42, 43, 0]));
    assert_eq!(frame.plane(PlaneKind::ChromaV, 3), Some(vec![50, 51, 0, 52, 53, 0]));
}

#[test]
fn no_plane_with_a_stride_shorter_than_its_rows() {
    let y: Vec<u8> = vec![1, 2, 3, 4, 5, 6, 7, 8];
    let u: Vec<u8> = vec![20, 21];
    let v: Vec<u8> = vec![30, 31];
    let frame = PlanarFrame::from_planes(4, 2, &scaled_planes(&y, 4, &u, &v, 2)).unwrap();
    assert_eq!(frame.plane(PlaneKind::Luma, 3), None);
    assert_eq!(frame.plane(PlaneKind::ChromaU, 1), None);
    assert_eq!(frame.plane(PlaneKind::ChromaV, 1), None);
}

#[test]
fn no_plane_too_large_to_address() {
    let y: Vec<u8> = vec![1, 2, 3, 4, 5, 6, 7, 8];
    let u: Vec<u8> = vec![20, 21];
    let v: Vec<u8> = vec![30, 31];
    let frame = PlanarFrame::from_planes(4, 2, &scaled_planes(&y, 4, &u, &v, 2)).unwrap();
    assert_eq!(frame.plane(PlaneKind::Luma, usize::MAX), None);
    assert_eq!(frame.plane(PlaneKind::Luma, usize::MAX / 2 + 1), None);
    assert_eq!(frame.plane(PlaneKind::ChromaU, usize::MAX), None);
    assert_eq!(frame.plane(PlaneKind::ChromaV, isize::MAX as usize + 1), None);
}
