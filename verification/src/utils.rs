//! Dispatch sizing and row-pitch arithmetic.

use vstd::prelude::*;
use vstd::arithmetic::div_mod::lemma_fundamental_div_mod;

verus! {

/// Bytes that one RGBA pixel with eight bits per channel occupies.
pub const BYTES_PER_PIXEL: u32 = 4;

/// Row pitch, in bytes, that a texture-to-buffer copy must align each row to.
pub const COPY_BYTES_PER_ROW_ALIGNMENT: u32 = 256;

/// Widest image whose padded row pitch still fits in 32 bits.
pub const MAX_COPY_WIDTH: u32 = 1_073_741_760;

/// Widest image whose tight row still fits in 32 bits.
pub const MAX_UPLOAD_WIDTH: u32 = 1_073_741_823;

/// The least number of tiles of `tile` units that cover `length` units.
pub open spec fn ceil_div(length: int, tile: int) -> int
    recommends
        tile > 0,
{
    if length % tile == 0 {
        length / tile
    } else {
        length / tile + 1
    }
}

/// Bytes in one tightly packed row of `width` pixels.
pub open spec fn unpadded_row_bytes(width: int) -> int {
    width * BYTES_PER_PIXEL
}

/// Bytes in one row of `width` pixels once padded to the copy alignment.
pub open spec fn padded_row_bytes(width: int) -> int {
    ceil_div(unpadded_row_bytes(width), COPY_BYTES_PER_ROW_ALIGNMENT as int)
        * COPY_BYTES_PER_ROW_ALIGNMENT
}

/// `ceil_div` is the tight ceiling of the quotient: its tiles cover `length`,
/// and one tile fewer would not.
pub proof fn lemma_ceil_div_tight(length: int, tile: int)
    requires
        0 <= length,
        0 < tile,
    ensures
        ceil_div(length, tile) * tile >= length,
        (ceil_div(length, tile) - 1) * tile < length,
        0 <= ceil_div(length, tile) <= length,
{
    lemma_fundamental_div_mod(length, tile);
    let q = length / tile;
    let r = length % tile;
    assert(length == tile * q + r);
    assert(0 <= r < tile);
    assert(q >= 0) by (nonlinear_arith)
        requires
            length == tile * q + r,
            0 <= r < tile,
            0 <= length,
            0 < tile,
    ;
    assert(q * tile == tile * q) by (nonlinear_arith);
    assert((q + 1) * tile == tile * q + tile) by (nonlinear_arith);
    assert((q - 1) * tile == tile * q - tile) by (nonlinear_arith);
    assert(tile * q >= q) by (nonlinear_arith)
        requires
            q >= 0,
            tile >= 1,
    ;
}

/// Only one count is a tight ceiling: whatever covers `length` with no tile to
/// spare is `ceil_div(length, tile)`.
pub proof fn lemma_ceil_div_unique(length: int, tile: int, count: int)
    requires
        0 <= length,
        0 < tile,
        count * tile >= length,
        (count - 1) * tile < length,
    ensures
        count == ceil_div(length, tile),
{
    lemma_ceil_div_tight(length, tile);
    let c = ceil_div(length, tile);
    if count < c {
        assert(count * tile <= (c - 1) * tile) by (nonlinear_arith)
            requires
                count <= c - 1,
                0 < tile,
        ;
    }
    if count > c {
        assert((count - 1) * tile >= c * tile) by (nonlinear_arith)
            requires
                count - 1 >= c,
                0 < tile,
        ;
    }
}

/// The padded row pitch is the least multiple of the copy alignment that holds
/// a whole row.
pub proof fn lemma_padded_row_bytes(width: int)
    requires
        0 <= width,
    ensures
        padded_row_bytes(width) % 256 == 0,
        unpadded_row_bytes(width) <= padded_row_bytes(width) < unpadded_row_bytes(width) + 256,
        unpadded_row_bytes(width) % 256 == 0 ==> padded_row_bytes(width) == unpadded_row_bytes(
            width,
        ),
{
    let n = unpadded_row_bytes(width);
    lemma_ceil_div_tight(n, 256);
    lemma_fundamental_div_mod(n, 256);
}

/// Number of tiles of `tile` units needed to cover `length` units.
fn tiles_needed(length: u32, tile: u32) -> (count: u32)
    requires
        tile > 0,
    ensures
        count == ceil_div(length as int, tile as int),
{
    let whole: u32 = length / tile;
    if length % tile == 0 {
        whole
    } else {
        proof {
            lemma_ceil_div_tight(length as int, tile as int);
        }
        whole + 1
    }
}

/// Number of workgroups along each axis that cover an image of
/// `image_size = (width, height)` pixels with tiles of
/// `workgroup_size = (width, height)` invocations, rounding up so that the
/// pixels of a partial tile at the edge are covered too.
pub fn compute_work_group_count(image_size: (u32, u32), workgroup_size: (u32, u32)) -> (count: (
    u32,
    u32,
))
    requires
        workgroup_size.0 > 0,
        workgroup_size.1 > 0,
    ensures
        count.0 == ceil_div(image_size.0 as int, workgroup_size.0 as int),
        count.1 == ceil_div(image_size.1 as int, workgroup_size.1 as int),
        count.0 * workgroup_size.0 >= image_size.0,
        (count.0 - 1) * workgroup_size.0 < image_size.0,
        count.1 * workgroup_size.1 >= image_size.1,
        (count.1 - 1) * workgroup_size.1 < image_size.1,
{
    proof {
        lemma_ceil_div_tight(image_size.0 as int, workgroup_size.0 as int);
        lemma_ceil_div_tight(image_size.1 as int, workgroup_size.1 as int);
    }
    (tiles_needed(image_size.0, workgroup_size.0), tiles_needed(image_size.1, workgroup_size.1))
}

/// The padded row pitch fits in 32 bits exactly up to `MAX_COPY_WIDTH`, and
/// the tight row exactly up to `MAX_UPLOAD_WIDTH`.
pub proof fn lemma_row_limits(width: u32)
    ensures
        padded_row_bytes(width as int) <= u32::MAX <==> width <= MAX_COPY_WIDTH,
        unpadded_row_bytes(width as int) <= u32::MAX <==> width <= MAX_UPLOAD_WIDTH,
{
    lemma_padded_row_bytes(width as int);
}

/// Whether a row of `width` pixels, padded, can be counted in `usize`.
pub open spec fn row_fits_usize(width: u32) -> bool {
    padded_row_bytes(width as int) <= usize::MAX
}

/// Bytes that one row of `width` RGBA pixels takes in the destination of a
/// texture-to-buffer copy: the row's own bytes, rounded up to the copy
/// alignment.
pub fn padded_bytes_per_row(width: u32) -> (padded: usize)
    requires
        row_fits_usize(width),
    ensures
        padded == padded_row_bytes(width as int),
{
    proof {
        lemma_padded_row_bytes(width as int);
        lemma_fundamental_div_mod(unpadded_row_bytes(width as int), 256);
    }
    let alignment: usize = COPY_BYTES_PER_ROW_ALIGNMENT as usize;
    let bytes_per_row: usize = width as usize * BYTES_PER_PIXEL as usize;
    let padding: usize = (alignment - bytes_per_row % alignment) % alignment;
    bytes_per_row + padding
}

} // verus!
