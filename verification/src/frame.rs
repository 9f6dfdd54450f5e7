//! Planar YUV420P frames.
//!
//! A frame of `width` by `height` pixels is one plane of luma, `width` bytes
//! per row and `height` rows, followed by two planes of chroma, each of half
//! the width and half the height. The three planes lie one after the other
//! with no padding, so that a frame has `width * height * 3 / 2` bytes.

use vstd::prelude::*;
use vstd::slice::slice_subrange;
use crate::plane::copy_rows;
use crate::plane::restrided;
use crate::plane::rows_fit;
use crate::settings::check_dimensions;
use crate::settings::dimension_fault;

verus! {

/// The planes of a frame, in the order in which the frame holds them.
#[derive(Clone, Copy, Debug, PartialEq, Eq, Structural)]
pub enum PlaneKind {
    /// Brightness, one byte for every pixel.
    Luma,
    /// The first plane of colour, one byte for every two by two pixels.
    ChromaU,
    /// The second plane of colour, one byte for every two by two pixels.
    ChromaV,
}

/// Bytes in the luma plane of a frame.
pub open spec fn luma_len(width: int, height: int) -> int {
    width * height
}

/// Bytes in either chroma plane of a frame.
pub open spec fn chroma_len(width: int, height: int) -> int {
    (width / 2) * (height / 2)
}

/// Bytes in a whole frame.
pub open spec fn frame_len(width: int, height: int) -> int {
    luma_len(width, height) + 2 * chroma_len(width, height)
}

/// Bytes in one row of a plane.
pub open spec fn plane_width(kind: PlaneKind, width: int) -> int {
    match kind {
        PlaneKind::Luma => width,
        _ => width / 2,
    }
}

/// Rows of a plane.
pub open spec fn plane_height(kind: PlaneKind, height: int) -> int {
    match kind {
        PlaneKind::Luma => height,
        _ => height / 2,
    }
}

/// Where in a frame a plane begins.
pub open spec fn plane_offset(kind: PlaneKind, width: int, height: int) -> int {
    match kind {
        PlaneKind::Luma => 0,
        PlaneKind::ChromaU => luma_len(width, height),
        PlaneKind::ChromaV => luma_len(width, height) + chroma_len(width, height),
    }
}

/// A frame of even dimensions has three bytes for every two pixels.
pub proof fn lemma_frame_len(width: int, height: int)
    requires
        0 <= width,
        0 <= height,
        width % 2 == 0,
        height % 2 == 0,
    ensures
        frame_len(width, height) == width * height * 3 / 2,
        0 <= chroma_len(width, height) <= luma_len(width, height),
{
    let a = width / 2;
    let b = height / 2;
    assert(width == 2 * a && height == 2 * b);
    assert(width * height == 4 * (a * b)) by (nonlinear_arith)
        requires
            width == 2 * a,
            height == 2 * b,
    ;
    assert(0 <= a * b) by (nonlinear_arith)
        requires
            0 <= a,
            0 <= b,
    ;
}

/// A read-only view of one plane that a scaler has written: rows of bytes,
/// consecutive rows `stride` bytes apart.
pub struct Plane<'a> {
    pub data: &'a [u8],
    pub stride: usize,
}

impl<'a> Plane<'a> {
    /// The plane holds `rows` rows of `row_bytes` bytes.
    pub open spec fn holds(&self, row_bytes: int, rows: int) -> bool {
        rows_fit(self.data@.len() as int, self.stride as int, row_bytes, rows)
    }

    /// The rows of the plane one after the other, without the padding
    /// between them.
    pub open spec fn packed(&self, row_bytes: int, rows: int) -> Seq<u8> {
        restrided(self.data@, self.stride as int, row_bytes, rows, row_bytes)
    }
}

/// The three planes that a scaler has written for one image.
pub struct ScaledFrame<'a> {
    pub luma: Plane<'a>,
    pub chroma_u: Plane<'a>,
    pub chroma_v: Plane<'a>,
}

impl<'a> ScaledFrame<'a> {
    /// The planes hold a frame of the given dimensions.
    pub open spec fn holds(&self, width: int, height: int) -> bool {
        &&& self.luma.holds(width, height)
        &&& self.chroma_u.holds(width / 2, height / 2)
        &&& self.chroma_v.holds(width / 2, height / 2)
    }

    /// The bytes of the frame that the planes hold.
    pub open spec fn packed(&self, width: int, height: int) -> Seq<u8> {
        self.luma.packed(width, height) + self.chroma_u.packed(width / 2, height / 2)
            + self.chroma_v.packed(width / 2, height / 2)
    }
}

/// What a planar frame is: its dimensions and its bytes.
pub struct FrameView {
    pub width: u32,
    pub height: u32,
    pub data: Seq<u8>,
}

impl FrameView {
    /// The dimensions are those a session can have, and the bytes are those
    /// of three planes of these dimensions.
    pub open spec fn wf(self) -> bool {
        &&& dimension_fault(self.width, self.height) is None
        &&& self.data.len() == frame_len(self.width as int, self.height as int)
    }

    /// The bytes of one plane.
    pub open spec fn plane(self, kind: PlaneKind) -> Seq<u8> {
        let start = plane_offset(kind, self.width as int, self.height as int);
        let len = plane_width(kind, self.width as int) * plane_height(kind, self.height as int);
        self.data.subrange(start, start + len)
    }
}

/// A YUV420P frame that this library has allocated: the output of a
/// conversion and the input of the codec.
#[derive(Debug)]
pub struct PlanarFrame {
    width: u32,
    height: u32,
    data: Vec<u8>,
}

impl View for PlanarFrame {
    type V = FrameView;

    closed spec fn view(&self) -> FrameView {
        FrameView { width: self.width, height: self.height, data: self.data@ }
    }
}

impl PlanarFrame {
    #[verifier::type_invariant]
    spec fn inv(self) -> bool {
        self@.wf()
    }

    /// Packs the planes that a scaler has written into a frame of the given
    /// dimensions.
    ///
    /// Returns `None` when no session can have these dimensions or when a
    /// plane does not hold the rows that a frame of these dimensions has.
    pub fn from_planes(width: u32, height: u32, scaled: &ScaledFrame) -> (r: Option<PlanarFrame>)
        ensures
            r is Some <==> dimension_fault(width, height) is None && scaled.holds(
                width as int,
                height as int,
            ),
            r matches Some(frame) ==> frame@.wf() && frame@ == (FrameView {
                width,
                height,
                data: scaled.packed(width as int, height as int),
            }),
    {
        if check_dimensions(width, height).is_err() {
            return None;
        }
        let w: usize = width as usize;
        let h: usize = height as usize;
        proof {
            lemma_frame_len(width as int, height as int);
        }
        let mut data: Vec<u8> = match copy_rows(scaled.luma.data, scaled.luma.stride, w, h, w) {
            Some(bytes) => bytes,
            None => {
                return None;
            },
        };
        let mut u: Vec<u8> = match copy_rows(
            scaled.chroma_u.data,
            scaled.chroma_u.stride,
            w / 2,
            h / 2,
            w / 2,
        ) {
            Some(bytes) => bytes,
            None => {
                return None;
            },
        };
        let mut v: Vec<u8> = match copy_rows(
            scaled.chroma_v.data,
            scaled.chroma_v.stride,
            w / 2,
            h / 2,
            w / 2,
        ) {
            Some(bytes) => bytes,
            None => {
                return None;
            },
        };
        data.append(&mut u);
        data.append(&mut v);
        Some(PlanarFrame { width, height, data })
    }

    /// The width of the frame in pixels.
    pub fn width(&self) -> (w: u32)
        ensures
            w == self@.width,
    {
        self.width
    }

    /// The height of the frame in pixels.
    pub fn height(&self) -> (h: u32)
        ensures
            h == self@.height,
    {
        self.height
    }

    /// The bytes of the frame: luma, then both planes of chroma.
    pub fn data(&self) -> (bytes: &[u8])
        ensures
            self@.wf(),
            bytes@ == self@.data,
            bytes@.len() == self@.width * self@.height * 3 / 2,
    {
        proof {
            use_type_invariant(self);
            lemma_frame_len(self.width as int, self.height as int);
        }
        self.data.as_slice()
    }

    /// Copies one plane to a fresh buffer with `stride` bytes per row, the
    /// layout in which a codec takes it. Bytes of a row beyond the plane's
    /// width are zero.
    ///
    /// Returns `None` when a row of the plane does not fit inside `stride`,
    /// or when the result would have more bytes than a buffer can have.
    pub fn plane(&self, kind: PlaneKind, stride: usize) -> (r: Option<Vec<u8>>)
        ensures
            r is Some <==> plane_width(kind, self@.width as int) <= stride && stride * plane_height(
                kind,
                self@.height as int,
            ) <= isize::MAX,
            r matches Some(bytes) ==> bytes@ == restrided(
                self@.plane(kind),
                plane_width(kind, self@.width as int),
                plane_width(kind, self@.width as int),
                plane_height(kind, self@.height as int),
                stride as int,
            ),
    {
        proof {
            use_type_invariant(self);
            lemma_frame_len(self.width as int, self.height as int);
        }
        let total: usize = self.data.len();
        let w: usize = self.width as usize;
        let h: usize = self.height as usize;
        assert(w * h == luma_len(w as int, h as int));
        assert((w / 2) * (h / 2) == chroma_len(w as int, h as int));
        assert(total == frame_len(w as int, h as int));
        let luma: usize = w * h;
        let chroma: usize = (w / 2) * (h / 2);
        let (start, row_bytes, rows): (usize, usize, usize) = match kind {
            PlaneKind::Luma => (0, w, h),
            PlaneKind::ChromaU => (luma, w / 2, h / 2),
            PlaneKind::ChromaV => (luma + chroma, w / 2, h / 2),
        };
        let bytes = slice_subrange(self.data.as_slice(), start, start + row_bytes * rows);
        copy_rows(bytes, row_bytes, row_bytes, rows, stride)
    }
}

/// The planes of a frame packed from a scaler's output are the scaler's
/// planes without their padding: what the scaler wrote is what the codec is
/// handed.
pub proof fn lemma_planes_of_packed(scaled: ScaledFrame, width: u32, height: u32)
    requires
        dimension_fault(width, height) is None,
        scaled.holds(width as int, height as int),
    ensures
        ({
            let frame = FrameView {
                width,
                height,
                data: scaled.packed(width as int, height as int),
            };
            &&& frame.wf()
            &&& frame.plane(PlaneKind::Luma) == scaled.luma.packed(width as int, height as int)
            &&& frame.plane(PlaneKind::ChromaU) == scaled.chroma_u.packed(
                width as int / 2,
                height as int / 2,
            )
            &&& frame.plane(PlaneKind::ChromaV) == scaled.chroma_v.packed(
                width as int / 2,
                height as int / 2,
            )
        }),
{
    let w = width as int;
    let h = height as int;
    let frame = FrameView { width, height, data: scaled.packed(w, h) };
    lemma_frame_len(w, h);
    let y = scaled.luma.packed(w, h);
    let u = scaled.chroma_u.packed(w / 2, h / 2);
    let v = scaled.chroma_v.packed(w / 2, h / 2);
    assert(y.len() == luma_len(w, h));
    assert(u.len() == chroma_len(w, h));
    assert(v.len() == chroma_len(w, h));
    assert(frame.plane(PlaneKind::Luma) =~= y);
    assert(frame.plane(PlaneKind::ChromaU) =~= u);
    assert(frame.plane(PlaneKind::ChromaV) =~= v);
}

} // verus!
