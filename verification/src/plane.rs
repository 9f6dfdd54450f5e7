//! Rows of bytes laid out with a stride.
//!
//! Every pixel buffer that crosses this library is a plane: `rows` rows of
//! `row_bytes` meaningful bytes each, where consecutive rows start `stride`
//! bytes apart. Callers and codec libraries rarely agree on the stride, so the
//! one operation here copies a plane from one stride to another.

use vstd::prelude::*;
use vstd::arithmetic::div_mod::lemma_fundamental_div_mod_converse;

verus! {

/// The byte at column `col` of row `row` of a plane whose rows start `stride`
/// bytes apart.
pub open spec fn byte_at(plane: Seq<u8>, stride: int, row: int, col: int) -> u8 {
    plane[row * stride + col]
}

/// A buffer of `len` bytes holds `rows` rows of `row_bytes` bytes at `stride`:
/// a row fits inside the stride, and the buffer has `stride` bytes for every
/// row.
pub open spec fn rows_fit(len: int, stride: int, row_bytes: int, rows: int) -> bool {
    &&& 0 <= row_bytes <= stride
    &&& 0 <= rows
    &&& stride * rows <= len
}

/// The plane `src` laid out anew with `dst_stride` bytes per row: the first
/// `row_bytes` bytes of each row are those of `src`, the rest of the row is
/// zero.
pub open spec fn restrided(
    src: Seq<u8>,
    src_stride: int,
    row_bytes: int,
    rows: int,
    dst_stride: int,
) -> Seq<u8> {
    Seq::new(
        (dst_stride * rows) as nat,
        |i: int|
            if i % dst_stride < row_bytes {
                byte_at(src, src_stride, i / dst_stride, i % dst_stride)
            } else {
                0u8
            },
    )
}

/// Position `row * stride + col` lies inside a plane of `rows` rows, and no
/// other pair of row and column shares it.
pub proof fn lemma_position(stride: int, rows: int, row: int, col: int)
    requires
        0 <= row < rows,
        0 <= col < stride,
    ensures
        0 <= row * stride + col < stride * rows,
        (row * stride + col) / stride == row,
        (row * stride + col) % stride == col,
{
    lemma_fundamental_div_mod_converse(row * stride + col, stride, row, col);
    assert(row * stride + col < stride * rows) by (nonlinear_arith)
        requires
            0 <= row < rows,
            0 <= col < stride,
    ;
    assert(0 <= row * stride) by (nonlinear_arith)
        requires
            0 <= row,
            0 < stride,
    ;
}

/// What `restrided` holds at each row and column.
pub proof fn lemma_restrided_byte(
    src: Seq<u8>,
    src_stride: int,
    row_bytes: int,
    rows: int,
    dst_stride: int,
    row: int,
    col: int,
)
    requires
        0 <= row < rows,
        0 <= col < dst_stride,
    ensures
        restrided(src, src_stride, row_bytes, rows, dst_stride).len() == dst_stride * rows,
        0 <= row * dst_stride + col < dst_stride * rows,
        restrided(src, src_stride, row_bytes, rows, dst_stride)[row * dst_stride + col] == if col
            < row_bytes {
            byte_at(src, src_stride, row, col)
        } else {
            0u8
        },
{
    lemma_position(dst_stride, rows, row, col);
}

/// A plane whose rows already lie `row_bytes` apart, copied to that same
/// stride, is unchanged.
pub proof fn lemma_restrided_tight(src: Seq<u8>, row_bytes: int, rows: int)
    requires
        0 <= row_bytes,
        0 <= rows,
        src.len() == row_bytes * rows,
    ensures
        restrided(src, row_bytes, row_bytes, rows, row_bytes) == src,
{
    let out = restrided(src, row_bytes, row_bytes, rows, row_bytes);
    assert forall|i: int| 0 <= i < out.len() implies out[i] == src[i] by {
        assert(row_bytes > 0) by (nonlinear_arith)
            requires
                0 <= i < row_bytes * rows,
                0 <= row_bytes,
        ;
        vstd::arithmetic::div_mod::lemma_fundamental_div_mod(i, row_bytes);
        vstd::arithmetic::div_mod::lemma_mod_pos_bound(i, row_bytes);
        assert((i / row_bytes) * row_bytes == row_bytes * (i / row_bytes)) by (nonlinear_arith);
    }
    assert(out =~= src);
}

/// Copies the plane `src` to a fresh buffer with `dst_stride` bytes per row.
/// Bytes of a row beyond its first `row_bytes` are zero.
///
/// Returns `None` when `src` does not hold the rows it is said to hold, when a
/// row does not fit inside `dst_stride`, or when the result would have more
/// bytes than a buffer can have.
pub fn copy_rows(src: &[u8], src_stride: usize, row_bytes: usize, rows: usize, dst_stride: usize) -> (out:
    Option<Vec<u8>>)
    ensures
        out is Some <==> rows_fit(src@.len() as int, src_stride as int, row_bytes as int, rows as int)
            && row_bytes <= dst_stride && dst_stride * rows <= isize::MAX,
        out matches Some(v) ==> v@ == restrided(
            src@,
            src_stride as int,
            row_bytes as int,
            rows as int,
            dst_stride as int,
        ),
{
    let len: usize = src.len();
    if row_bytes > src_stride || row_bytes > dst_stride {
        return None;
    }
    let needed: usize = match src_stride.checked_mul(rows) {
        Some(n) => n,
        None => {
            return None;
        },
    };
    if needed > len {
        return None;
    }
    let total: usize = match dst_stride.checked_mul(rows) {
        Some(n) => n,
        None => {
            return None;
        },
    };
    if total > isize::MAX as usize {
        return None;
    }
    let ghost want = restrided(
        src@,
        src_stride as int,
        row_bytes as int,
        rows as int,
        dst_stride as int,
    );
    let mut out: Vec<u8> = Vec::with_capacity(total);
    let mut row: usize = 0;
    while row < rows
        invariant
            row <= rows,
            row_bytes <= src_stride,
            row_bytes <= dst_stride,
            needed == src_stride * rows,
            needed <= src@.len(),
            total == dst_stride * rows,
            want == restrided(
                src@,
                src_stride as int,
                row_bytes as int,
                rows as int,
                dst_stride as int,
            ),
            out@.len() == row * dst_stride,
            forall|i: int| 0 <= i < out@.len() ==> out@[i] == want[i],
        decreases rows - row,
    {
        let mut col: usize = 0;
        while col < dst_stride
            invariant
                row < rows,
                col <= dst_stride,
                row_bytes <= src_stride,
                row_bytes <= dst_stride,
                needed == src_stride * rows,
                needed <= src@.len(),
                total == dst_stride * rows,
                want == restrided(
                    src@,
                    src_stride as int,
                    row_bytes as int,
                    rows as int,
                    dst_stride as int,
                ),
                out@.len() == row * dst_stride + col,
                forall|i: int| 0 <= i < out@.len() ==> out@[i] == want[i],
            decreases dst_stride - col,
        {
            proof {
                lemma_restrided_byte(
                    src@,
                    src_stride as int,
                    row_bytes as int,
                    rows as int,
                    dst_stride as int,
                    row as int,
                    col as int,
                );
            }
            let byte: u8 = if col < row_bytes {
                proof {
                    lemma_position(src_stride as int, rows as int, row as int, col as int);
                }
                src[row * src_stride + col]
            } else {
                0
            };
            out.push(byte);
            col = col + 1;
        }
        assert(row * dst_stride + dst_stride == (row + 1) * dst_stride) by (nonlinear_arith);
        row = row + 1;
    }
    assert(out@.len() == dst_stride * rows) by (nonlinear_arith)
        requires
            out@.len() == row * dst_stride,
            row == rows,
    ;
    assert(out@ =~= want);
    Some(out)
}

} // verus!
