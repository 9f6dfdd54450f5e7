//! The image a caller supplies.

use vstd::prelude::*;
use crate::error::ConversionError;
use crate::plane::copy_rows;
use crate::plane::lemma_restrided_tight;
use crate::plane::restrided;
use crate::plane::rows_fit;

verus! {

/// Bytes per pixel of an RGBA image.
pub const BYTES_PER_PIXEL: u32 = 4;

/// A read-only view of RGBA pixels that the caller owns: `height` rows of
/// `width` pixels, four bytes per pixel, consecutive rows `stride` bytes
/// apart.
///
/// Nothing in this library keeps the view beyond the call it is passed to.
pub struct Image<'a> {
    pub buffer: &'a [u8],
    pub width: u32,
    pub height: u32,
    pub stride: u32,
}

/// The number of bytes that a row of `width` pixels takes.
pub fn row_len(width: u32) -> (n: u64)
    ensures
        n == width * BYTES_PER_PIXEL,
{
    width as u64 * 4
}

impl<'a> Image<'a> {
    /// The number of bytes that the pixels of one row take.
    pub open spec fn row_bytes(&self) -> int {
        self.width * BYTES_PER_PIXEL
    }

    /// The buffer holds the rows that the image is said to have: a row of
    /// pixels fits inside the stride, and the buffer has `stride` bytes for
    /// each row.
    pub open spec fn wf(&self) -> bool {
        rows_fit(self.buffer@.len() as int, self.stride as int, self.row_bytes(), self.height as int)
    }

    /// What is wrong with the image, if anything.
    pub open spec fn fault(&self) -> Option<ConversionError> {
        if self.stride < self.row_bytes() {
            Some(ConversionError::InvalidStride)
        } else if self.buffer@.len() < self.stride * self.height {
            Some(ConversionError::BufferTooSmall)
        } else {
            None
        }
    }

    /// What stands in the way of laying the image out with `stride` bytes
    /// per row, if anything.
    pub open spec fn plane_fault(&self, stride: usize) -> Option<ConversionError> {
        match self.fault() {
            Some(fault) => Some(fault),
            None => if stride < self.row_bytes() || stride * self.height > isize::MAX {
                Some(ConversionError::InvalidStride)
            } else {
                None
            },
        }
    }

    /// The image has a fault exactly when it is not well-formed.
    pub proof fn lemma_fault_iff_ill_formed(&self)
        ensures
            self.fault() is None <==> self.wf(),
    {
    }

    /// A buffer with fewer bytes than `width * height * 4` is never that of
    /// a well-formed image.
    pub proof fn lemma_short_buffer_is_a_fault(&self)
        requires
            self.buffer@.len() < self.width * self.height * 4,
        ensures
            self.fault() is Some,
    {
        let w = self.width as int;
        let h = self.height as int;
        let s = self.stride as int;
        if s >= 4 * w {
            assert(s * h >= w * h * 4) by (nonlinear_arith)
                requires
                    s >= 4 * w,
                    h >= 0,
            ;
        }
    }

    /// A well-formed image of at least one pixel whose buffer has exactly
    /// `width * height * 4` bytes is tightly packed.
    pub proof fn lemma_exact_buffer_is_tight(&self)
        requires
            self.wf(),
            self.width > 0,
            self.height > 0,
            self.buffer@.len() == self.width * self.height * 4,
        ensures
            self.stride == self.width * 4,
    {
        let w = self.width as int;
        let h = self.height as int;
        let s = self.stride as int;
        if s > 4 * w {
            assert(s * h > w * h * 4) by (nonlinear_arith)
                requires
                    s > 4 * w,
                    h > 0,
            ;
        }
    }

    /// A tightly packed image whose buffer holds its rows and nothing else
    /// is laid out for the scaler as it is, if the scaler takes rows of the
    /// same stride.
    pub proof fn lemma_tight_plane_is_buffer(&self)
        requires
            self.stride == self.row_bytes(),
            self.buffer@.len() == self.stride * self.height,
        ensures
            self.fault() is None,
            restrided(
                self.buffer@,
                self.stride as int,
                self.row_bytes(),
                self.height as int,
                self.stride as int,
            ) == self.buffer@,
    {
        lemma_restrided_tight(self.buffer@, self.stride as int, self.height as int);
    }

    /// Tells whether the image is well-formed, and if not, why not.
    pub fn check(&self) -> (r: Result<(), ConversionError>)
        ensures
            match r {
                Ok(_) => self.fault() is None,
                Err(e) => self.fault() == Some(e),
            },
    {
        let row: u64 = row_len(self.width);
        if (self.stride as u64) < row {
            return Err(ConversionError::InvalidStride);
        }
        assert(self.stride * self.height <= 0xffff_ffff * 0xffff_ffff) by (nonlinear_arith)
            requires
                self.stride <= 0xffff_ffff,
                self.height <= 0xffff_ffff,
        ;
        let needed: u64 = self.stride as u64 * self.height as u64;
        if (self.buffer.len() as u64) < needed {
            return Err(ConversionError::BufferTooSmall);
        }
        Ok(())
    }

    /// Copies the pixels to a fresh plane with `stride` bytes per row, the
    /// layout in which a scaler takes them. Bytes of a row beyond its pixels
    /// are zero.
    pub fn plane(&self, stride: usize) -> (r: Result<Vec<u8>, ConversionError>)
        ensures
            match r {
                Ok(bytes) => self.plane_fault(stride) is None && bytes@ == restrided(
                    self.buffer@,
                    self.stride as int,
                    self.row_bytes(),
                    self.height as int,
                    stride as int,
                ),
                Err(e) => self.plane_fault(stride) == Some(e),
            },
    {
        match self.check() {
            Err(fault) => {
                return Err(fault);
            },
            Ok(_) => {},
        }
        let row: usize = row_len(self.width) as usize;
        match copy_rows(self.buffer, self.stride as usize, row, self.height as usize, stride) {
            Some(bytes) => Ok(bytes),
            None => Err(ConversionError::InvalidStride),
        }
    }
}

} // verus!
