//! Host images and byte casts: what this library takes from the `image` and
//! `bytemuck` crates, and what it relies on from each.

use vstd::prelude::*;

verus! {

/// A host image of packed RGBA pixels, eight bits per channel, row-major and
/// without padding: an `image::ImageBuffer<image::Rgba<u8>, Vec<u8>>`.
///
/// `ImageBuffer` is generic over a pixel trait that Verus does not know, so
/// the library keeps the one instance that it uses behind this struct, and
/// Verus does not look inside: `image_bytes` and `image_dimensions` name what
/// an image holds, and the functions below say what the `image` crate does
/// to them.
#[verifier::external_body]
pub struct HostImage {
    inner: image::ImageBuffer<image::Rgba<u8>, Vec<u8>>,
}

/// The bytes of the container that a host image keeps, in storage order.
pub uninterp spec fn image_bytes(image: HostImage) -> Seq<u8>;

/// The width and height, in pixels, that a host image was made with.
pub uninterp spec fn image_dimensions(image: HostImage) -> (u32, u32);

/// Bytes that the pixels of a `width` by `height` RGBA image take.
pub open spec fn pixel_bytes(width: u32, height: u32) -> int {
    4 * width * height
}

/// Whether the bytes of one row of `width` RGBA pixels can be counted in
/// `usize`.
pub open spec fn row_is_countable(width: u32) -> bool {
    4 * width <= usize::MAX
}

/// Whether a buffer of `len` bytes can hold an image of `width` by `height`
/// RGBA pixels: the bytes of one row can be counted in `usize`, whatever the
/// number of rows, and the buffer is not shorter than the bytes of all pixels.
pub open spec fn image_fits(width: u32, height: u32, len: int) -> bool {
    row_is_countable(width) && pixel_bytes(width, height) <= len
}

/// `image::ImageBuffer::from_raw`: an image of the given size over `buf`,
/// which it keeps whole. It counts the bytes of the pixels in `usize`, four
/// times `width` first and that times `height` next, and declines where
/// either product overflows or `buf` is shorter than the second; it makes
/// the image in every other case.
#[verifier::external_body]
fn image_from_raw(width: u32, height: u32, buf: Vec<u8>) -> (image: Option<HostImage>)
    ensures
        image.is_some() <==> image_fits(width, height, buf@.len() as int),
        image matches Some(made) ==> image_bytes(made) == buf@ && image_dimensions(made) == (
            width,
            height,
        ),
{
    match image::ImageBuffer::from_raw(width, height, buf) {
        Some(inner) => Some(HostImage { inner }),
        None => None,
    }
}

/// `image::ImageBuffer::dimensions`: the width and height of the image.
#[verifier::external_body]
fn image_size(image: &HostImage) -> (size: (u32, u32))
    ensures
        size == image_dimensions(*image),
{
    image.inner.dimensions()
}

/// `image::ImageBuffer::as_raw`: the container that the image keeps.
#[verifier::external_body]
fn image_as_raw(image: &HostImage) -> (raw: &Vec<u8>)
    ensures
        raw@ == image_bytes(*image),
{
    image.inner.as_raw()
}

impl HostImage {
    /// Whether the image holds exactly the bytes of its pixels and none
    /// beyond them.
    pub open spec fn is_tight(self) -> bool {
        image_bytes(self).len() == pixel_bytes(image_dimensions(self).0, image_dimensions(self).1)
    }

    /// Whether the bytes of one row of the image can be counted in `usize`,
    /// as they can for every image that `from_raw` makes.
    pub open spec fn has_countable_rows(self) -> bool {
        row_is_countable(image_dimensions(self).0)
    }

    /// An image of `width` by `height` pixels over `buf`, or nothing where
    /// `buf` is too short for them or the bytes of one row cannot be counted
    /// in `usize`.
    pub fn from_raw(width: u32, height: u32, buf: Vec<u8>) -> (image: Option<HostImage>)
        ensures
            image.is_some() <==> image_fits(width, height, buf@.len() as int),
            image matches Some(made) ==> image_bytes(made) == buf@ && image_dimensions(made) == (
                width,
                height,
            ) && made.has_countable_rows(),
    {
        image_from_raw(width, height, buf)
    }

    /// The width and height of the image, in pixels.
    pub fn dimensions(&self) -> (size: (u32, u32))
        ensures
            size == image_dimensions(*self),
    {
        image_size(self)
    }

    /// The bytes of the image, as it keeps them.
    pub fn as_raw(&self) -> (raw: &Vec<u8>)
        ensures
            raw@ == image_bytes(*self),
    {
        image_as_raw(self)
    }
}

/// Byte `index` of `word`, counted from the least significant.
pub open spec fn byte_of_word(word: u32, index: int) -> u8 {
    if index == 0 {
        (word % 256) as u8
    } else if index == 1 {
        (word / 0x100 % 256) as u8
    } else if index == 2 {
        (word / 0x1_0000 % 256) as u8
    } else {
        (word / 0x100_0000 % 256) as u8
    }
}

/// The bytes of `words` in order, each word least significant byte first.
pub open spec fn little_endian_bytes(words: Seq<u32>) -> Seq<u8> {
    Seq::new(4 * words.len(), |i: int| byte_of_word(words[i / 4], i % 4))
}

/// The bytes of `words` in order, each word most significant byte first.
pub open spec fn big_endian_bytes(words: Seq<u32>) -> Seq<u8> {
    Seq::new(4 * words.len(), |i: int| byte_of_word(words[i / 4], 3 - i % 4))
}

/// Whether `bytes` are `words` as some machine keeps them in memory, in one
/// of the two byte orders.
pub open spec fn is_memory_of_words(bytes: Seq<u8>, words: Seq<u32>) -> bool {
    bytes == little_endian_bytes(words) || bytes == big_endian_bytes(words)
}

/// `bytemuck::cast_slice` from bytes to bytes: the same bytes.
#[verifier::external_body]
pub(crate) fn cast_bytes(bytes: &[u8]) -> (cast: &[u8])
    ensures
        cast@ == bytes@,
{
    bytemuck::cast_slice::<u8, u8>(bytes)
}

/// `bytemuck::cast_slice` from 32-bit words to bytes: the memory of the
/// words, four bytes each, in the byte order of the machine.
#[verifier::external_body]
pub(crate) fn cast_words(words: &[u32]) -> (bytes: &[u8])
    ensures
        is_memory_of_words(bytes@, words@),
{
    bytemuck::cast_slice::<u32, u8>(words)
}

} // verus!
