//! Pixel rasters: the `image` crate's `DynamicImage`, seen as a grid of
//! 8-bit RGBA values.
use vstd::prelude::*;
use image::DynamicImage;
use image::GenericImage;
use image::GenericImageView;

verus! {

/// One pixel: red, green, blue and opacity, 8 bits each.
#[derive(Clone, Copy, Debug, PartialEq, Eq, Structural)]
pub struct Rgba8 {
    pub red: u8,
    pub green: u8,
    pub blue: u8,
    pub alpha: u8,
}

impl Rgba8 {
    /// The pixel with the given colour channels and full opacity.
    pub open spec fn opaque_spec(red: u8, green: u8, blue: u8) -> Rgba8 {
        Rgba8 { red, green, blue, alpha: 255 }
    }

    pub fn opaque(red: u8, green: u8, blue: u8) -> (p: Rgba8)
        ensures
            p == Rgba8::opaque_spec(red, green, blue),
    {
        Rgba8 { red, green, blue, alpha: 255 }
    }
}

#[verifier::external_type_specification]
#[verifier::external_body]
pub struct ExDynamicImage(image::DynamicImage);

/// What `DynamicImage::width` returns.
pub uninterp spec fn image_width(img: DynamicImage) -> u32;

/// What `DynamicImage::height` returns.
pub uninterp spec fn image_height(img: DynamicImage) -> u32;

/// The pixels of an image as `get_pixel` reports them, by column and row;
/// it is spoken of inside the image only.
pub uninterp spec fn image_pixels(img: DynamicImage) -> Map<(int, int), Rgba8>;

/// Whether the image stores three 8-bit colour channels per pixel and no
/// opacity.
pub uninterp spec fn image_is_rgb8(img: DynamicImage) -> bool;

/// Whether column `x`, row `y` lies inside the image.
pub open spec fn in_image(img: DynamicImage, x: int, y: int) -> bool {
    0 <= x < image_width(img) && 0 <= y < image_height(img)
}

/// `DynamicImage::width`: the number of pixel columns.
pub assume_specification[ image::DynamicImage::width ](img: &image::DynamicImage) -> (w: u32)
    ensures
        w == image_width(*img),
;

/// `DynamicImage::height`: the number of pixel rows.
pub assume_specification[ image::DynamicImage::height ](img: &image::DynamicImage) -> (h: u32)
    ensures
        h == image_height(*img),
;

/// `DynamicImage::new_rgb8`: a raster of the given size that stores RGB
/// samples. The crate panics when the number of samples, three for each
/// pixel, is more than a vector can hold, which the precondition
/// excludes.
#[verifier::external_body]
pub(crate) fn new_rgb8(width: u32, height: u32) -> (img: DynamicImage)
    requires
        3 * width * height <= isize::MAX,
    ensures
        image_width(img) == width,
        image_height(img) == height,
        image_is_rgb8(img),
{
    DynamicImage::new_rgb8(width, height)
}

/// `GenericImageView::get_pixel` on a `DynamicImage`: the pixel at column
/// `x`, row `y`, converted to 8-bit RGBA. The crate panics outside the
/// image, which the precondition excludes.
#[verifier::external_body]
pub(crate) fn get_pixel(img: &DynamicImage, x: u32, y: u32) -> (p: Rgba8)
    requires
        in_image(*img, x as int, y as int),
    ensures
        p == image_pixels(*img)[(x as int, y as int)],
{
    let c = img.get_pixel(x, y).0;
    Rgba8 { red: c[0], green: c[1], blue: c[2], alpha: c[3] }
}

/// `GenericImage::put_pixel` on a `DynamicImage`: stores a pixel at column
/// `x`, row `y` and leaves the size and the storage format alone. On a
/// raster that stores RGB the opacity is dropped, so the pixel then reads
/// back as opaque, and every other pixel reads as before; of other
/// storage formats only size and format are claimed. The crate panics
/// outside the image, which the precondition excludes.
#[verifier::external_body]
pub(crate) fn put_pixel(img: &mut DynamicImage, x: u32, y: u32, p: Rgba8)
    requires
        in_image(*old(img), x as int, y as int),
    ensures
        image_width(*final(img)) == image_width(*old(img)),
        image_height(*final(img)) == image_height(*old(img)),
        image_is_rgb8(*final(img)) == image_is_rgb8(*old(img)),
        image_is_rgb8(*old(img)) ==> forall|column: int, row: int|
            in_image(*old(img), column, row) ==> #[trigger] image_pixels(*final(img))[(column, row)]
                == if column == x && row == y {
                Rgba8::opaque_spec(p.red, p.green, p.blue)
            } else {
                image_pixels(*old(img))[(column, row)]
            },
{
    img.put_pixel(x, y, image::Rgba([p.red, p.green, p.blue, p.alpha]));
}

} // verus!
