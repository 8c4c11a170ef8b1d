//! Letterboxing a source image onto the chosen canvas, and the name of the file
//! it is written to.
use vstd::prelude::*;
use vstd::string::StringExecFns;
use crate::choice::{ColorChoice, SizeChoice};
use crate::ui::App;
use crate::fit::{place, spec_place, Placement};
use crate::raster::{
    blank_rgb, copy_onto, dims_of, height_of, lanczos3_resample, pixel_at, resize_lanczos3,
    rgb_dims, rgb_pixels, set_pixel, width_of, Raster,
};

verus! {

/// Why an export produced no image.
#[derive(Clone, Copy, Debug, PartialEq, Eq, Structural)]
pub enum ExportError {
    /// The source has no pixels, so no scale fits it to the canvas.
    EmptySource,
    /// The scaled source would not lie inside the canvas.
    OutOfCanvas,
}

/// Where the scaled source lands on the canvas of `size`.
pub open spec fn placement_for(src: Raster, size: SizeChoice) -> Placement {
    spec_place(width_of(src), height_of(src), size.spec_dims().0, size.spec_dims().1)
}

/// Whether `(x, y)` is covered by the scaled source.
pub open spec fn in_placement(p: Placement, x: u32, y: u32) -> bool {
    p.x <= x < p.x + p.width && p.y <= y < p.y + p.height
}

/// The colour of the exported canvas at `(x, y)`: the resampled source inside
/// its placement, the background colour everywhere else.
pub open spec fn letterbox_pixel(src: Raster, size: SizeChoice, color: ColorChoice, x: u32, y: u32) -> (u8, u8, u8) {
    let p = placement_for(src, size);
    if in_placement(p, x, y) {
        lanczos3_resample(rgb_pixels(src), rgb_dims(src), (p.width, p.height))[(
            (x - p.x) as u32,
            (y - p.y) as u32,
        )]
    } else {
        color.spec_rgb()
    }
}

/// `img` is the export of `src` onto the canvas of `size` with background `color`.
pub open spec fn is_letterbox_of(img: Raster, src: Raster, size: SizeChoice, color: ColorChoice) -> bool {
    &&& rgb_dims(img) == size.spec_dims()
    &&& forall|x: u32, y: u32|
        x < size.spec_dims().0 && y < size.spec_dims().1 ==> #[trigger] pixel_at(img, x, y)
            == letterbox_pixel(src, size, color, x, y)
}

/// Fills a fresh canvas with `rgb`.
fn filled_canvas(width: u32, height: u32, rgb: (u8, u8, u8)) -> (r: Raster)
    requires
        3 * width * height <= usize::MAX,
    ensures
        rgb_dims(r) == (width, height),
        forall|x: u32, y: u32| x < width && y < height ==> #[trigger] pixel_at(r, x, y) == rgb,
{
    let mut canvas = blank_rgb(width, height);
    let mut y: u32 = 0;
    while y < height
        invariant
            y <= height,
            rgb_dims(canvas) == (width, height),
            forall|i: u32, j: u32|
                i < width && j < height ==> #[trigger] pixel_at(canvas, i, j) == if j < y {
                    rgb
                } else {
                    (0u8, 0u8, 0u8)
                },
        decreases height - y,
    {
        let mut x: u32 = 0;
        while x < width
            invariant
                y < height,
                x <= width,
                rgb_dims(canvas) == (width, height),
                forall|i: u32, j: u32|
                    i < width && j < height ==> #[trigger] pixel_at(canvas, i, j) == if j < y || (
                    j == y && i < x) {
                        rgb
                    } else {
                        (0u8, 0u8, 0u8)
                    },
            decreases width - x,
        {
            set_pixel(&mut canvas, x, y, rgb);
            x = x + 1;
        }
        y = y + 1;
    }
    canvas
}

/// Scales `src` by the largest factor that keeps it inside the canvas of
/// `size`, resamples it with the Lanczos filter and centres it on a canvas
/// filled with `color`.
pub fn letterbox(src: &Raster, size: SizeChoice, color: ColorChoice) -> (r: Result<Raster, ExportError>)
    requires
        16 * width_of(*src) * size.spec_dims().1 <= isize::MAX,
    ensures
        r == Err::<Raster, ExportError>(ExportError::EmptySource) <==> (width_of(*src) == 0
            || height_of(*src) == 0),
        r.is_ok() <==> (width_of(*src) > 0 && height_of(*src) > 0),
        r matches Ok(img) ==> is_letterbox_of(img, *src, size, color),
{
    let (src_w, src_h) = dims_of(src);
    if src_w == 0 || src_h == 0 {
        return Err(ExportError::EmptySource);
    }
    let (dst_w, dst_h) = size.dims();
    assert(3 * dst_w * dst_h <= 3 * 1080 * 1350) by (nonlinear_arith)
        requires
            dst_w <= 1080,
            dst_h <= 1350,
    ;
    let mut canvas = filled_canvas(dst_w, dst_h, color.rgb());
    let p = place(src_w, src_h, dst_w, dst_h);
    proof {
        assert(3 * p.width * p.height <= 3 * 1080 * 1350) by (nonlinear_arith)
            requires
                p.width <= 1080,
                p.height <= 1350,
        ;
        assert(16 * src_w * p.height <= 16 * src_w * dst_h) by (nonlinear_arith)
            requires
                p.height <= dst_h,
        ;
    }
    let scaled = resize_lanczos3(src, p.width, p.height);
    let ghost filled = canvas;
    match copy_onto(&mut canvas, &scaled, p.x, p.y) {
        Ok(()) => {
            assert forall|x: u32, y: u32| x < dst_w && y < dst_h implies #[trigger] pixel_at(canvas, x, y)
                == letterbox_pixel(*src, size, color, x, y) by {
                assert(pixel_at(filled, x, y) == color.spec_rgb());
            }
            Ok(canvas)
        },
        Err(_) => Err(ExportError::OutOfCanvas),
    }
}

/// Exporting the same source with the same choices gives the same canvas, and
/// outside the placed source every pixel is the background colour.
pub proof fn lemma_letterbox_repeatable(
    a: Raster,
    b: Raster,
    src: Raster,
    size: SizeChoice,
    color: ColorChoice,
)
    requires
        is_letterbox_of(a, src, size, color),
        is_letterbox_of(b, src, size, color),
    ensures
        rgb_dims(a) == rgb_dims(b),
        forall|x: u32, y: u32|
            x < size.spec_dims().0 && y < size.spec_dims().1 ==> #[trigger] pixel_at(a, x, y)
                == pixel_at(b, x, y),
        forall|x: u32, y: u32|
            x < size.spec_dims().0 && y < size.spec_dims().1 && !in_placement(
                placement_for(src, size),
                x,
                y,
            ) ==> #[trigger] pixel_at(a, x, y) == color.spec_rgb(),
{
}

/// The file name of the export of a source named `file_name`: the canvas
/// prefix followed by the source's name. The caller replaces the extension.
pub fn output_file_name(file_name: &str, size: SizeChoice) -> (r: String)
    ensures
        r@ == size.spec_prefix() + file_name@,
{
    let mut r = String::from_str(size.prefix());
    r.append(file_name);
    r
}

impl App {
    /// The export of `src` with the current selections.
    pub fn resize_image(&self, src: &Raster) -> (r: Result<Raster, ExportError>)
        requires
            16 * width_of(*src) * self.size.spec_dims().1 <= isize::MAX,
        ensures
            r == Err::<Raster, ExportError>(ExportError::EmptySource) <==> (width_of(*src) == 0
                || height_of(*src) == 0),
            r.is_ok() <==> (width_of(*src) > 0 && height_of(*src) > 0),
            r matches Ok(img) ==> is_letterbox_of(img, *src, self.size, self.color),
    {
        letterbox(src, self.size, self.color)
    }

    /// The file name of the export of a source named `file_name` with the
    /// current size, before its extension is replaced.
    pub fn output_file_name(&self, file_name: &str) -> (r: String)
        ensures
            r@ == self.size.spec_prefix() + file_name@,
    {
        output_file_name(file_name, self.size)
    }
}

} // verus!
