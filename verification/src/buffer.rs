//! Device image buffers: what to allocate for an image, how its bytes are
//! laid out on the way to the device and back, and how the padded rows that
//! come back become a host image again.

use vstd::prelude::*;
use vstd::arithmetic::div_mod::{lemma_fundamental_div_mod, lemma_fundamental_div_mod_converse};
use vstd::slice::slice_subrange;
use crate::host::{
    cast_bytes, image_bytes, image_dimensions, pixel_bytes, row_is_countable, HostImage,
};
use crate::utils::{
    lemma_padded_row_bytes, lemma_row_limits, padded_bytes_per_row, padded_row_bytes,
    unpadded_row_bytes, BYTES_PER_PIXEL, COPY_BYTES_PER_ROW_ALIGNMENT, MAX_COPY_WIDTH,
    MAX_UPLOAD_WIDTH,
};

verus! {

/// Size of a texture in texels.
#[derive(Clone, Copy, Debug, PartialEq, Eq, Structural)]
pub struct Extent3d {
    pub width: u32,
    pub height: u32,
    pub depth_or_array_layers: u32,
}

/// The ways in which a texture may be used.
#[derive(Clone, Copy, Debug, PartialEq, Eq, Structural)]
pub struct TextureUsages {
    /// Source of a copy.
    pub copy_src: bool,
    /// Destination of a copy or a write.
    pub copy_dst: bool,
    /// Read by a shader.
    pub texture_binding: bool,
    /// Written by a shader.
    pub storage_binding: bool,
}

impl TextureUsages {
    /// No usage at all.
    pub fn empty() -> (usage: TextureUsages)
        ensures
            usage == (TextureUsages {
                copy_src: false,
                copy_dst: false,
                texture_binding: false,
                storage_binding: false,
            }),
    {
        TextureUsages {
            copy_src: false,
            copy_dst: false,
            texture_binding: false,
            storage_binding: false,
        }
    }

    /// Every usage that `self` or `other` allows.
    pub open spec fn spec_union(self, other: TextureUsages) -> TextureUsages {
        TextureUsages {
            copy_src: self.copy_src || other.copy_src,
            copy_dst: self.copy_dst || other.copy_dst,
            texture_binding: self.texture_binding || other.texture_binding,
            storage_binding: self.storage_binding || other.storage_binding,
        }
    }

    /// Every usage that `self` or `other` allows.
    pub fn union(self, other: TextureUsages) -> (usage: TextureUsages)
        ensures
            usage == self.spec_union(other),
    {
        TextureUsages {
            copy_src: self.copy_src || other.copy_src,
            copy_dst: self.copy_dst || other.copy_dst,
            texture_binding: self.texture_binding || other.texture_binding,
            storage_binding: self.storage_binding || other.storage_binding,
        }
    }
}

/// The ways in which a device buffer may be used.
#[derive(Clone, Copy, Debug, PartialEq, Eq, Structural)]
pub struct BufferUsages {
    /// Mapped for reading by the host.
    pub map_read: bool,
    /// Destination of a copy.
    pub copy_dst: bool,
    /// Bound as a uniform.
    pub uniform: bool,
    /// Bound as storage.
    pub storage: bool,
}

/// Usages of a buffer that nothing can be done with.
pub open spec fn no_buffer_usage() -> BufferUsages {
    BufferUsages { map_read: false, copy_dst: false, uniform: false, storage: false }
}

/// Usages of a buffer of parameters that a kernel takes as a uniform.
pub open spec fn uniform_usage() -> BufferUsages {
    BufferUsages { map_read: false, copy_dst: false, uniform: true, storage: false }
}

/// Usages of a buffer that a kernel takes as storage and that can be
/// written to from the host.
pub open spec fn kernel_usage() -> BufferUsages {
    BufferUsages { map_read: false, copy_dst: true, uniform: false, storage: true }
}

/// Usages of a buffer that a copy fills and the host then maps and reads.
pub open spec fn staging_usage() -> BufferUsages {
    BufferUsages { map_read: true, copy_dst: true, uniform: false, storage: false }
}

/// A device buffer to create.
#[derive(Clone, Copy, Debug, PartialEq, Eq, Structural)]
pub struct BufferDescriptor {
    pub size: u64,
    pub usage: BufferUsages,
    pub mapped_at_creation: bool,
}

/// The number of dimensions of a texture; the images of this library have two.
#[derive(Clone, Copy, Debug, PartialEq, Eq, Structural)]
pub enum TextureDimension {
    D2,
}

/// The format of a texel; the images of this library hold four channels of
/// eight bits each, which a shader sees normalised to the unit interval.
#[derive(Clone, Copy, Debug, PartialEq, Eq, Structural)]
pub enum TextureFormat {
    Rgba8Unorm,
}

/// A texture to create.
#[derive(Clone, Copy, Debug, PartialEq, Eq, Structural)]
pub struct TextureDescriptor {
    pub size: Extent3d,
    pub mip_level_count: u32,
    pub sample_count: u32,
    pub dimension: TextureDimension,
    pub format: TextureFormat,
    pub usage: TextureUsages,
}

/// How the rows of an image lie in a linear run of bytes.
#[derive(Clone, Copy, Debug, PartialEq, Eq)]
pub struct ImageDataLayout {
    /// Where the first row starts.
    pub offset: u64,
    /// Distance in bytes from the start of one row to the start of the next.
    pub bytes_per_row: Option<u32>,
    /// Rows that make up one image.
    pub rows_per_image: Option<u32>,
}

/// What reading an image back takes: the staging buffer to create, and the
/// layout and size of the copy from the texture into it.
#[derive(Clone, Copy, Debug, PartialEq, Eq)]
pub struct Readback {
    pub buffer: BufferDescriptor,
    pub layout: ImageDataLayout,
    pub copy_size: Extent3d,
}

/// A device-resident 2D image of RGBA pixels, eight bits per channel
/// normalised: the extent it was created with, and the usages its texture
/// allows.
#[derive(Clone, Copy, Debug, PartialEq, Eq, Structural)]
pub struct WgImageBuffer {
    pub texture_usage: TextureUsages,
    pub texture_extent: Extent3d,
}

/// The extent of a single-layer texture of `width` by `height` texels.
pub open spec fn extent_2d(width: u32, height: u32) -> Extent3d {
    Extent3d { width, height, depth_or_array_layers: 1 }
}

/// Usages of a texture that is only ever uploaded to and read by a shader.
pub open spec fn readonly_usage() -> TextureUsages {
    TextureUsages {
        copy_src: false,
        copy_dst: true,
        texture_binding: true,
        storage_binding: false,
    }
}

/// Usages of an uploaded texture that a later pass may also write and that
/// can be read back.
pub open spec fn upload_usage() -> TextureUsages {
    TextureUsages { copy_src: true, copy_dst: true, texture_binding: true, storage_binding: true }
}

/// Usages of a texture that only passes fill: read and written by shaders,
/// and read back.
pub open spec fn storage_usage() -> TextureUsages {
    TextureUsages { copy_src: true, copy_dst: false, texture_binding: true, storage_binding: true }
}

/// Offset of byte `column` of row `row` in rows that lie `pitch` bytes apart.
pub open spec fn byte_offset(pitch: int, row: int, column: int) -> int {
    row * pitch + column
}

/// Whether `padded_data` has the length of `height` rows of `width` pixels at
/// the padded pitch.
pub open spec fn holds_padded_rows(padded_data: Seq<u8>, width: u32, height: u32) -> bool {
    padded_data.len() == padded_row_bytes(width as int) * height
}

/// The first `unpadded_row_bytes(width)` bytes of each of `height` rows that
/// lie at the padded pitch in `padded_data`, row after row.
pub open spec fn unpad_rows(padded_data: Seq<u8>, width: u32, height: u32) -> Seq<u8> {
    Seq::new(
        (unpadded_row_bytes(width as int) * height) as nat,
        |k: int|
            padded_data[byte_offset(
                padded_row_bytes(width as int),
                k / unpadded_row_bytes(width as int),
                k % unpadded_row_bytes(width as int),
            )],
    )
}

/// Whether `padded_data` is what a copy of a texture into a buffer leaves
/// there, for a texture that holds `pixels` in tight rows: row for row the
/// same bytes, each row starting at a multiple of the padded pitch. What
/// lies between the rows is not said.
pub open spec fn is_padded_copy(padded_data: Seq<u8>, pixels: Seq<u8>, width: u32, height: u32)
    -> bool {
    &&& holds_padded_rows(padded_data, width, height)
    &&& pixels.len() == pixel_bytes(width, height)
    &&& forall|row: int, column: int|
        0 <= row < height && 0 <= column < unpadded_row_bytes(width as int)
            ==> padded_data[#[trigger] byte_offset(padded_row_bytes(width as int), row, column)]
            == pixels[byte_offset(unpadded_row_bytes(width as int), row, column)]
}

/// Row `k / unpadded` and column `k % unpadded` of byte `k` of a tight image.
proof fn lemma_row_and_column(k: int, row: int, unpadded: int)
    requires
        0 <= row,
        0 < unpadded,
        row * unpadded <= k < (row + 1) * unpadded,
    ensures
        k / unpadded == row,
        k % unpadded == k - row * unpadded,
{
    assert((row + 1) * unpadded == row * unpadded + unpadded) by (nonlinear_arith);
    assert(row * unpadded == unpadded * row) by (nonlinear_arith);
    lemma_fundamental_div_mod_converse(k, unpadded, row, k - row * unpadded);
}

/// Byte `k` of a tight image lies in a row below `height` and in a column of
/// that row.
proof fn lemma_byte_in_image(k: int, unpadded: int, height: int)
    requires
        0 < unpadded,
        0 <= k < unpadded * height,
    ensures
        0 <= k / unpadded < height,
        0 <= k % unpadded < unpadded,
        k == byte_offset(unpadded, k / unpadded, k % unpadded),
{
    lemma_fundamental_div_mod(k, unpadded);
    let q = k / unpadded;
    let r = k % unpadded;
    assert(unpadded * q == q * unpadded) by (nonlinear_arith);
    assert(q >= 0) by (nonlinear_arith)
        requires
            k == unpadded * q + r,
            0 <= r < unpadded,
            0 <= k,
    ;
    assert(q < height) by (nonlinear_arith)
        requires
            k == unpadded * q + r,
            0 <= r,
            k < unpadded * height,
            0 < unpadded,
    ;
}

/// The end of row `row` lies within `height` rows at pitch `padded`.
proof fn lemma_row_within(row: int, height: int, unpadded: int, padded: int)
    requires
        0 <= row < height,
        0 <= unpadded <= padded,
    ensures
        0 <= row * padded,
        row * padded + unpadded <= padded * height,
        row * unpadded + unpadded <= unpadded * height,
        (row + 1) * unpadded == row * unpadded + unpadded,
{
    assert(0 <= row * padded) by (nonlinear_arith)
        requires
            0 <= row,
            0 <= padded,
    ;
    assert(row * padded + padded <= padded * height) by (nonlinear_arith)
        requires
            row + 1 <= height,
            0 <= padded,
    ;
    assert(row * unpadded + unpadded <= unpadded * height) by (nonlinear_arith)
        requires
            row + 1 <= height,
            0 <= unpadded,
    ;
    assert((row + 1) * unpadded == row * unpadded + unpadded) by (nonlinear_arith);
}

/// Stripping the padding of a padded copy gives back the pixels that the
/// texture holds.
pub proof fn lemma_unpad_padded_copy(
    padded_data: Seq<u8>,
    pixels: Seq<u8>,
    width: u32,
    height: u32,
)
    requires
        is_padded_copy(padded_data, pixels, width, height),
    ensures
        unpad_rows(padded_data, width, height) == pixels,
{
    let unpadded = unpadded_row_bytes(width as int);
    let padded = padded_row_bytes(width as int);
    let flat = unpad_rows(padded_data, width, height);
    assert(4 * width * height == unpadded * height) by (nonlinear_arith)
        requires
            unpadded == width * 4,
    ;
    assert(flat.len() == pixels.len());
    assert forall|k: int| 0 <= k < flat.len() implies flat[k] == pixels[k] by {
        assert(unpadded > 0) by (nonlinear_arith)
            requires
                0 <= k < unpadded * height,
                0 <= unpadded,
        ;
        lemma_byte_in_image(k, unpadded, height as int);
        let row = k / unpadded;
        let column = k % unpadded;
        assert(padded_data[byte_offset(padded, row, column)] == pixels[byte_offset(
            unpadded,
            row,
            column,
        )]);
    }
    assert(flat =~= pixels);
}

/// Whether a run of `len` bytes is exactly `height` rows of `width` pixels at
/// the padded pitch.
fn is_padded_len(len: usize, width: u32, height: u32) -> (exact: bool)
    ensures
        exact <==> len == padded_row_bytes(width as int) * height,
{
    let unpadded: u64 = width as u64 * 4;
    let padded: u64 = unpadded + (256 - unpadded % 256) % 256;
    proof {
        lemma_padded_row_bytes(width as int);
        lemma_fundamental_div_mod(unpadded as int, 256);
        assert(padded == padded_row_bytes(width as int));
    }
    if padded == 0 || height == 0 {
        assert(padded * height == 0) by (nonlinear_arith)
            requires
                padded == 0 || height == 0,
        ;
        len == 0
    } else {
        let rows: u64 = len as u64 / padded;
        let rest: u64 = len as u64 % padded;
        proof {
            lemma_fundamental_div_mod(len as int, padded as int);
            if len == padded * height {
                assert(padded * height == height * padded + 0) by (nonlinear_arith);
                lemma_fundamental_div_mod_converse(len as int, padded as int, height as int, 0);
            }
        }
        rest == 0 && rows == height as u64
    }
}

/// The pixels of `height` rows of `width` pixels that lie at the padded pitch
/// in `padded_data`: each row cut to its own bytes, rows kept in order.
pub fn strip_row_padding(padded_data: &[u8], width: u32, height: u32) -> (pixels: Vec<u8>)
    requires
        holds_padded_rows(padded_data@, width, height),
    ensures
        pixels@ == unpad_rows(padded_data@, width, height),
{
    let mut pixels: Vec<u8> = Vec::new();
    if height == 0 {
        assert(unpadded_row_bytes(width as int) * 0 == 0);
        assert(pixels@ =~= unpad_rows(padded_data@, width, height));
        return pixels;
    }
    let len: usize = padded_data.len();
    proof {
        lemma_padded_row_bytes(width as int);
        assert(padded_row_bytes(width as int) <= padded_row_bytes(width as int) * height)
            by (nonlinear_arith)
            requires
                height >= 1,
                padded_row_bytes(width as int) >= 0,
        ;
    }
    let padded: usize = padded_bytes_per_row(width);
    let unpadded: usize = width as usize * 4;
    let mut row: u32 = 0;
    proof {
        assert(unpadded * 0 == 0);
        assert(pixels@ =~= unpad_rows(padded_data@, width, 0));
    }
    while row < height
        invariant
            row <= height,
            unpadded == unpadded_row_bytes(width as int),
            padded == padded_row_bytes(width as int),
            unpadded <= padded,
            padded_data@.len() == padded * height,
            padded_data@.len() == len,
            pixels@ == unpad_rows(padded_data@, width, row),
        decreases height - row,
    {
        proof {
            lemma_row_within(row as int, height as int, unpadded as int, padded as int);
        }
        let start: usize = row as usize * padded;
        let source = slice_subrange(padded_data, start, start + unpadded);
        let ghost before = pixels@;
        pixels.extend_from_slice(cast_bytes(source));
        proof {
            let after = unpad_rows(padded_data@, width, (row + 1) as u32);
            assert(unpadded * (row + 1) == unpadded * row + unpadded) by (nonlinear_arith);
            assert(unpadded * row == row * unpadded) by (nonlinear_arith);
            assert(0 <= unpadded * row) by (nonlinear_arith)
                requires
                    0 <= unpadded,
                    0 <= row,
            ;
            assert(before.len() == unpadded * row);
            assert(pixels@.len() == after.len());
            assert forall|k: int| 0 <= k < after.len() implies pixels@[k] == after[k] by {
                if k >= before.len() {
                    lemma_row_and_column(k, row as int, unpadded as int);
                    assert(pixels@[k] == source@[k - before.len()]);
                }
            }
            assert(pixels@ =~= after);
        }
        row += 1;
    }
    pixels
}

impl WgImageBuffer {
    /// The texture's width in texels.
    pub open spec fn width(self) -> u32 {
        self.texture_extent.width
    }

    /// The texture's height in texels.
    pub open spec fn height(self) -> u32 {
        self.texture_extent.height
    }

    /// The buffer for an image of the size of `image` that can always be
    /// uploaded to and read by a shader, and besides in the ways of
    /// `additional_flag`.
    fn from_host_image_with_additional_flag(image: &HostImage, additional_flag: TextureUsages) -> (buffer:
        WgImageBuffer)
        ensures
            buffer.texture_extent == extent_2d(
                image_dimensions(*image).0,
                image_dimensions(*image).1,
            ),
            buffer.texture_usage == readonly_usage().spec_union(additional_flag),
    {
        let (w, h) = image.dimensions();
        let texture_extent = Extent3d { width: w, height: h, depth_or_array_layers: 1 };
        let binding = TextureUsages {
            copy_src: false,
            copy_dst: false,
            texture_binding: true,
            storage_binding: false,
        };
        let destination = TextureUsages {
            copy_src: false,
            copy_dst: true,
            texture_binding: false,
            storage_binding: false,
        };
        WgImageBuffer {
            texture_usage: binding.union(destination).union(additional_flag),
            texture_extent,
        }
    }

    /// The buffer for an image that is uploaded and then only ever read by
    /// passes: its texture cannot be written by a shader.
    pub fn from_host_image_readonly(image: &HostImage) -> (buffer: WgImageBuffer)
        ensures
            buffer.texture_extent == extent_2d(
                image_dimensions(*image).0,
                image_dimensions(*image).1,
            ),
            buffer.texture_usage == readonly_usage(),
    {
        Self::from_host_image_with_additional_flag(image, TextureUsages::empty())
    }

    /// The buffer for an image that is uploaded, read by passes, and may be
    /// the target of a later pass or read back.
    pub fn from_host_image(image: &HostImage) -> (buffer: WgImageBuffer)
        ensures
            buffer.texture_extent == extent_2d(
                image_dimensions(*image).0,
                image_dimensions(*image).1,
            ),
            buffer.texture_usage == upload_usage(),
    {
        Self::from_host_image_with_additional_flag(
            image,
            TextureUsages {
                copy_src: true,
                copy_dst: false,
                texture_binding: false,
                storage_binding: true,
            },
        )
    }

    /// The buffer for an uninitialised image of `width` by `height` pixels
    /// that passes read and write: an intermediate or an output.
    pub fn from_size(width: u32, height: u32) -> (buffer: WgImageBuffer)
        ensures
            buffer.texture_extent == extent_2d(width, height),
            buffer.texture_usage == storage_usage(),
    {
        WgImageBuffer {
            texture_usage: TextureUsages {
                copy_src: true,
                copy_dst: false,
                texture_binding: true,
                storage_binding: true,
            },
            texture_extent: Extent3d { width, height, depth_or_array_layers: 1 },
        }
    }

    /// What creating the texture takes: a single-layer, single-sample 2D
    /// texture of the buffer's extent, without mip levels, in the one pixel
    /// format of this library, with the buffer's usages.
    pub fn descriptor(&self) -> (texture: TextureDescriptor)
        ensures
            texture == (TextureDescriptor {
                size: self.texture_extent,
                mip_level_count: 1,
                sample_count: 1,
                dimension: TextureDimension::D2,
                format: TextureFormat::Rgba8Unorm,
                usage: self.texture_usage,
            }),
    {
        TextureDescriptor {
            size: self.texture_extent,
            mip_level_count: 1,
            sample_count: 1,
            dimension: TextureDimension::D2,
            format: TextureFormat::Rgba8Unorm,
            usage: self.texture_usage,
        }
    }

    /// Whether the tight rows of the image can be counted in 32 bits.
    pub open spec fn spec_can_upload(&self) -> bool {
        unpadded_row_bytes(self.width() as int) <= u32::MAX
    }

    /// Whether the tight rows of the image can be counted in 32 bits, as the
    /// layout of an upload has to.
    #[verifier::when_used_as_spec(spec_can_upload)]
    pub fn can_upload(&self) -> (fits: bool)
        ensures
            fits == self.spec_can_upload(),
    {
        proof {
            lemma_row_limits(self.texture_extent.width);
        }
        self.texture_extent.width <= MAX_UPLOAD_WIDTH
    }

    /// The layout in which the bytes of a host image are written to the
    /// texture: tight rows, one after the other, from the first byte on.
    pub fn upload_layout(&self) -> (layout: ImageDataLayout)
        requires
            self.can_upload(),
        ensures
            layout.offset == 0,
            layout.bytes_per_row == Some(unpadded_row_bytes(self.width() as int) as u32),
            layout.rows_per_image == Some(self.height()),
    {
        ImageDataLayout {
            offset: 0,
            bytes_per_row: Some(BYTES_PER_PIXEL * self.texture_extent.width),
            rows_per_image: Some(self.texture_extent.height),
        }
    }

    /// Whether the padded rows of the image can be counted in 32 bits.
    pub open spec fn spec_can_read_back(&self) -> bool {
        padded_row_bytes(self.width() as int) <= u32::MAX
    }

    /// Whether the padded rows of the image can be counted in 32 bits, as the
    /// layout of the copy into a staging buffer has to.
    #[verifier::when_used_as_spec(spec_can_read_back)]
    pub fn can_read_back(&self) -> (fits: bool)
        ensures
            fits == self.spec_can_read_back(),
    {
        proof {
            lemma_row_limits(self.texture_extent.width);
        }
        self.texture_extent.width <= MAX_COPY_WIDTH
    }

    /// What reading the image back takes: a staging buffer of one padded row
    /// for each row of the image, that a copy can fill and the host can map
    /// for reading, and a copy of the whole extent into it at the padded
    /// pitch.
    pub fn readback(&self) -> (plan: Readback)
        requires
            self.can_read_back(),
        ensures
            plan.buffer.size == padded_row_bytes(self.width() as int) * self.height(),
            plan.buffer.usage == staging_usage(),
            !plan.buffer.mapped_at_creation,
            plan.layout.offset == 0,
            plan.layout.bytes_per_row == Some(padded_row_bytes(self.width() as int) as u32),
            plan.layout.rows_per_image == Some(self.height()),
            plan.copy_size == self.texture_extent,
    {
        let width = self.texture_extent.width;
        let height = self.texture_extent.height;
        proof {
            lemma_padded_row_bytes(width as int);
            lemma_fundamental_div_mod(unpadded_row_bytes(width as int), 256);
        }
        let unpadded: u32 = BYTES_PER_PIXEL * width;
        let padded: u32 = unpadded + (COPY_BYTES_PER_ROW_ALIGNMENT - unpadded
            % COPY_BYTES_PER_ROW_ALIGNMENT) % COPY_BYTES_PER_ROW_ALIGNMENT;
        assert(padded * height <= u64::MAX) by (nonlinear_arith)
            requires
                padded <= u32::MAX,
                height <= u32::MAX,
        ;
        Readback {
            buffer: BufferDescriptor {
                size: padded as u64 * height as u64,
                usage: BufferUsages {
                    map_read: true,
                    copy_dst: true,
                    uniform: false,
                    storage: false,
                },
                mapped_at_creation: false,
            },
            layout: ImageDataLayout {
                offset: 0,
                bytes_per_row: Some(padded),
                rows_per_image: Some(height),
            },
            copy_size: self.texture_extent,
        }
    }

    /// Whether `image` is what reading back `padded_data` gives: the rows of
    /// `padded_data` without their padding, top to bottom, at the size of this
    /// buffer. There is none where `padded_data` is not one padded row for
    /// each row of the image, nor where the bytes of one row cannot be
    /// counted in `usize`, which only an image without rows leaves open.
    pub open spec fn reads_back(self, padded_data: Seq<u8>, image: Option<HostImage>) -> bool {
        &&& image.is_some() <==> holds_padded_rows(padded_data, self.width(), self.height())
            && row_is_countable(self.width())
        &&& image matches Some(made) ==> {
            &&& image_dimensions(made) == (self.width(), self.height())
            &&& image_bytes(made) == unpad_rows(padded_data, self.width(), self.height())
            &&& made.has_countable_rows()
        }
    }

    /// The host image that the mapped staging buffer holds: the rows of
    /// `padded_data` without their padding, top to bottom, at the size of this
    /// buffer. There is none where `padded_data` is not one padded row for
    /// each row of the image, nor where the bytes of one row cannot be
    /// counted in `usize`.
    pub fn to_host_image(&self, padded_data: &[u8]) -> (image: Option<HostImage>)
        ensures
            self.reads_back(padded_data@, image),
    {
        let width = self.texture_extent.width;
        let height = self.texture_extent.height;
        if !is_padded_len(padded_data.len(), width, height) {
            return None;
        }
        let flat_pixels = strip_row_padding(padded_data, width, height);
        assert(pixel_bytes(width, height) == unpadded_row_bytes(width as int) * height)
            by (nonlinear_arith);
        HostImage::from_raw(width, height, flat_pixels)
    }
}

/// Padded rows that lie in memory bound the bytes of one row: where
/// `padded_data` holds at least one row, those bytes can be counted in
/// `usize`.
pub proof fn lemma_rows_in_memory_are_countable(padded_data: Seq<u8>, width: u32, height: u32)
    requires
        holds_padded_rows(padded_data, width, height),
        padded_data.len() <= usize::MAX,
        height >= 1,
    ensures
        row_is_countable(width),
{
    lemma_padded_row_bytes(width as int);
    assert(padded_row_bytes(width as int) <= padded_row_bytes(width as int) * height)
        by (nonlinear_arith)
        requires
            height >= 1,
            padded_row_bytes(width as int) >= 0,
    ;
}

/// Reading back an image that was uploaded gives the image again, pixel for
/// pixel and at its size, whatever its width: `image` is an image as
/// `HostImage::from_raw` makes them, `buffer` the buffer made for it,
/// `padded_data` what the copy of its texture leaves in the staging buffer,
/// and `read` what `to_host_image` makes of that.
pub proof fn lemma_round_trip(
    image: HostImage,
    buffer: WgImageBuffer,
    padded_data: Seq<u8>,
    read: Option<HostImage>,
)
    requires
        image.is_tight(),
        image.has_countable_rows(),
        buffer.texture_extent == extent_2d(image_dimensions(image).0, image_dimensions(image).1),
        is_padded_copy(padded_data, image_bytes(image), buffer.width(), buffer.height()),
        buffer.reads_back(padded_data, read),
    ensures
        read matches Some(made) && image_dimensions(made) == image_dimensions(image)
            && image_bytes(made) == image_bytes(image),
{
    lemma_unpad_padded_copy(padded_data, image_bytes(image), buffer.width(), buffer.height());
}

} // verus!
