//! The `image` crate's RGB buffers as seen by the verified code: a size and a
//! map from in-bounds coordinates to `(red, green, blue)` triples.
use vstd::prelude::*;
use image::GenericImage;

verus! {

/// An 8-bit RGB image, held in the `image` crate's buffer.
// The buffer sits in a hidden field because Verus refuses a declaration of
// `ImageBuffer` over its `Pixel` bound; `rgb_dims` and `rgb_pixels` describe it.
#[verifier::external_body]
pub struct Raster {
    buf: image::RgbImage,
}

#[verifier::external_type_specification]
#[verifier::external_body]
pub struct ExImageError(image::ImageError);

/// Width and height of an RGB buffer.
pub uninterp spec fn rgb_dims(img: Raster) -> (u32, u32);

/// What an RGB buffer holds: the colour at each `(x, y)` inside its bounds.
pub uninterp spec fn rgb_pixels(img: Raster) -> Map<(u32, u32), (u8, u8, u8)>;

/// Pixels of a `src_dims` image resampled to `dst_dims` with the three-lobe
/// Lanczos filter.
pub uninterp spec fn lanczos3_resample(
    pixels: Map<(u32, u32), (u8, u8, u8)>,
    src_dims: (u32, u32),
    dst_dims: (u32, u32),
) -> Map<(u32, u32), (u8, u8, u8)>;

pub open spec fn width_of(img: Raster) -> u32 {
    rgb_dims(img).0
}

pub open spec fn height_of(img: Raster) -> u32 {
    rgb_dims(img).1
}

/// The colour at `(x, y)`.
pub open spec fn pixel_at(img: Raster, x: u32, y: u32) -> (u8, u8, u8) {
    rgb_pixels(img)[(x, y)]
}

/// Relies on `ImageBuffer::new`: a `width` x `height` buffer with every
/// channel zero; it panics only when the byte count overflows `usize`.
#[verifier::external_body]
pub(crate) fn blank_rgb(width: u32, height: u32) -> (r: Raster)
    requires
        3 * width * height <= usize::MAX,
    ensures
        rgb_dims(r) == (width, height),
        forall|x: u32, y: u32| x < width && y < height ==> #[trigger] pixel_at(r, x, y) == (0u8, 0u8, 0u8),
{
    Raster { buf: image::RgbImage::new(width, height) }
}

/// Relies on `ImageBuffer::dimensions`: width and height of the buffer.
#[verifier::external_body]
pub(crate) fn dims_of(img: &Raster) -> (r: (u32, u32))
    ensures
        r == rgb_dims(*img),
{
    img.buf.dimensions()
}

/// Relies on `ImageBuffer::put_pixel`: it overwrites the one pixel at
/// `(x, y)` and panics outside the bounds.
#[verifier::external_body]
pub(crate) fn set_pixel(img: &mut Raster, x: u32, y: u32, rgb: (u8, u8, u8))
    requires
        x < width_of(*old(img)),
        y < height_of(*old(img)),
    ensures
        rgb_dims(*final(img)) == rgb_dims(*old(img)),
        pixel_at(*final(img), x, y) == rgb,
        forall|i: u32, j: u32|
            i < width_of(*old(img)) && j < height_of(*old(img)) && (i != x || j != y)
                ==> #[trigger] pixel_at(*final(img), i, j) == pixel_at(*old(img), i, j),
{
    img.buf.put_pixel(x, y, image::Rgb([rgb.0, rgb.1, rgb.2]))
}

/// Relies on `imageops::resize` with `FilterType::Lanczos3`: a new
/// `width` x `height` buffer whose pixels depend on the source's pixels and
/// size alone. Its intermediate buffer holds `width_of(src) * height` pixels of
/// four `f32` channels, which must be allocatable.
#[verifier::external_body]
pub(crate) fn resize_lanczos3(src: &Raster, width: u32, height: u32) -> (r: Raster)
    requires
        3 * width * height <= usize::MAX,
        16 * width_of(*src) * height <= isize::MAX,
    ensures
        rgb_dims(r) == (width, height),
        rgb_pixels(r) == lanczos3_resample(rgb_pixels(*src), rgb_dims(*src), (width, height)),
{
    Raster { buf: image::imageops::resize(&src.buf, width, height, image::imageops::FilterType::Lanczos3) }
}

/// Relies on `GenericImage::copy_from`: when `src` placed at `(x, y)` lies
/// inside `dst`, each of its pixels overwrites the one under it; otherwise it
/// fails before writing anything.
#[verifier::external_body]
pub(crate) fn copy_onto(dst: &mut Raster, src: &Raster, x: u32, y: u32) -> (r: Result<(), image::ImageError>)
    ensures
        r.is_ok() <==> (x + width_of(*src) <= width_of(*old(dst)) && y + height_of(*src) <= height_of(*old(dst))),
        rgb_dims(*final(dst)) == rgb_dims(*old(dst)),
        r.is_err() ==> *final(dst) == *old(dst),
        r.is_ok() ==> forall|i: u32, j: u32|
            i < width_of(*old(dst)) && j < height_of(*old(dst)) ==> #[trigger] pixel_at(*final(dst), i, j) == if x <= i < x + width_of(*src) && y <= j < y + height_of(*src) {
                pixel_at(*src, (i - x) as u32, (j - y) as u32)
            } else {
                pixel_at(*old(dst), i, j)
            },
{
    dst.buf.copy_from(&src.buf, x, y)
}

/// `bytes` holds the image row by row, three channels per pixel.
pub open spec fn holds_rgb_rows(bytes: Seq<u8>, img: Raster) -> bool {
    let (w, h) = rgb_dims(img);
    &&& 3 * w * h <= bytes.len()
    &&& forall|x: u32, y: u32|
        x < w && y < h ==> {
            let i = 3 * (y * w + x);
            #[trigger] pixel_at(img, x, y) == (bytes[i], bytes[i + 1], bytes[i + 2])
        }
}

/// Relies on `ImageBuffer::from_raw`: it takes the bytes as rows of RGB
/// pixels when they are at least `3 * width * height` long, and gives `None`
/// otherwise.
#[verifier::external_body]
fn raster_from_raw(width: u32, height: u32, bytes: Vec<u8>) -> (r: Option<Raster>)
    ensures
        r.is_some() <==> 3 * width * height <= bytes@.len(),
        r matches Some(img) ==> rgb_dims(img) == (width, height) && holds_rgb_rows(bytes@, img),
{
    image::RgbImage::from_raw(width, height, bytes).map(|buf| Raster { buf })
}

/// Relies on `ImageBuffer::into_raw`: the bytes behind the buffer, rows of RGB
/// pixels.
#[verifier::external_body]
fn raster_into_raw(img: Raster) -> (r: Vec<u8>)
    ensures
        holds_rgb_rows(r@, img),
{
    img.buf.into_raw()
}

impl Raster {
    /// An image from rows of RGB bytes; `None` when there are fewer than
    /// `3 * width * height` of them.
    pub fn from_rgb_bytes(width: u32, height: u32, bytes: Vec<u8>) -> (r: Option<Raster>)
        ensures
            r.is_some() <==> 3 * width * height <= bytes@.len(),
            r matches Some(img) ==> rgb_dims(img) == (width, height) && holds_rgb_rows(bytes@, img),
    {
        raster_from_raw(width, height, bytes)
    }

    /// The image as rows of RGB bytes.
    pub fn into_rgb_bytes(self) -> (r: Vec<u8>)
        ensures
            holds_rgb_rows(r@, self),
    {
        raster_into_raw(self)
    }

    pub fn dimensions(&self) -> (r: (u32, u32))
        ensures
            r == rgb_dims(*self),
    {
        dims_of(self)
    }
}

} // verus!
