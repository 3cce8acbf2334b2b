//! Pixel extraction from a captured frame buffer.
//!
//! A frame is a tightly packed byte sequence, row-major, four bytes per
//! pixel in blue-green-red-unused order (the order the capture source
//! was observed to use, not one it guarantees). The accessor checks the
//! cursor coordinates against the buffer instead of indexing blindly:
//! a cursor off the captured display yields an explicit error.

use vstd::prelude::*;

verus! {

/// One sampled color: red, green and blue channel values.
#[derive(Clone, Copy, Debug, PartialEq, Eq, Structural)]
pub struct Rgb {
    pub r: u8,
    pub g: u8,
    pub b: u8,
}

/// Why a sample could not be taken from a frame.
#[derive(Clone, Copy, Debug, PartialEq, Eq, Structural)]
pub enum SampleError {
    /// The cursor coordinates fall outside the captured frame.
    OutOfRange,
}

/// Bytes per row of a tightly packed frame of `len` bytes and `h` rows.
pub open spec fn row_stride(len: nat, h: nat) -> nat
    recommends
        h > 0,
{
    len / h
}

/// Byte offset of the pixel at `(x, y)`: `y` full rows plus four bytes
/// for each pixel left of `x`.
pub open spec fn pixel_offset(stride: nat, x: int, y: int) -> int {
    stride * y + 4 * x
}

/// Whether the pixel at `(x, y)` lies inside the buffer: the
/// coordinates are non-negative and all three channel bytes — blue at
/// the offset, green and red just above it — exist.
pub open spec fn coords_in_frame(len: nat, h: nat, x: int, y: int) -> bool
    recommends
        h > 0,
{
    &&& 0 <= x
    &&& 0 <= y
    &&& pixel_offset(row_stride(len, h), x, y) + 2 < len
}

/// The color stored at `(x, y)`: the buffer holds blue first, then
/// green, then red.
pub open spec fn frame_pixel(buf: Seq<u8>, h: nat, x: int, y: int) -> Rgb
    recommends
        h > 0,
        coords_in_frame(buf.len(), h, x, y),
{
    let off = pixel_offset(row_stride(buf.len(), h), x, y);
    Rgb { r: buf[off + 2], g: buf[off + 1], b: buf[off] }
}

/// The color of the pixel beneath `(x, y)` in a frame of height `h`,
/// or `OutOfRange` when the coordinates point outside the buffer.
pub fn pixel_at(buffer: &Vec<u8>, h: usize, x: i32, y: i32) -> (res: Result<Rgb, SampleError>)
    requires
        h > 0,
    ensures
        res is Ok <==> coords_in_frame(buffer@.len(), h as nat, x as int, y as int),
        res is Ok ==> res->Ok_0 == frame_pixel(buffer@, h as nat, x as int, y as int),
        res is Err ==> res->Err_0 == SampleError::OutOfRange,
{
    if x < 0 || y < 0 {
        return Err(SampleError::OutOfRange);
    }
    let stride: usize = buffer.len() / h;
    assert(stride as u128 * y as u128 <= (usize::MAX as u128) * 0x7FFF_FFFFu128)
        by (nonlinear_arith)
        requires
            stride <= usize::MAX,
            0 <= y < 0x8000_0000i64,
    ;
    let off: u128 = (stride as u128) * (y as u128) + 4 * (x as u128);
    if off + 2 < buffer.len() as u128 {
        let i: usize = off as usize;
        Ok(Rgb { r: buffer[i + 2], g: buffer[i + 1], b: buffer[i] })
    } else {
        Err(SampleError::OutOfRange)
    }
}

} // verus!
