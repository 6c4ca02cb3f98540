//! A recursive ray caster: the scene model, the search for the nearest
//! hit, the shading of diffuse, reflective and refractive surfaces down to
//! a recursion limit, texture addressing, and the layout of the frame.
//!
//! Real quantities are carried by their bit patterns (see `number`). The
//! library compares them, changes their sign and cuts them off to whole
//! numbers, all exactly. Sums, products, roots and powers are formulas
//! that the caller hands in (see `rendering::Optics`).
pub mod exact;
pub mod number;
pub mod point;
pub mod vector;
pub mod raster;
pub mod scene;
pub mod rendering;
pub mod matrix;
pub mod builder;

use vstd::prelude::*;
use image::DynamicImage;
use crate::raster::Rgba8;
use crate::raster::image_height;
use crate::raster::image_is_rgb8;
use crate::raster::image_pixels;
use crate::raster::image_width;
use crate::raster::in_image;
use crate::raster::new_rgb8;
use crate::raster::put_pixel;
use crate::scene::Scene;

verus! {

/// A rectangle of pixels of the whole picture: its left column, its top
/// row, and its size.
#[derive(Clone, Copy, Debug)]
pub struct ViewBlock {
    pub x: u32,
    pub y: u32,
    pub width: u32,
    pub height: u32,
}

impl ViewBlock {
    /// Whether the pixel at column `x`, row `y` of the picture lies in
    /// the block.
    pub open spec fn contains(self, x: int, y: int) -> bool {
        self.x <= x < self.x + self.width && self.y <= y < self.y + self.height
    }

    /// Whether every pixel of the block has coordinates that fit the
    /// machine's 32 bits.
    pub open spec fn addressable(self) -> bool {
        self.x + self.width <= u32::MAX + 1 && self.y + self.height <= u32::MAX + 1
    }

    /// The block that covers all of a scene's picture.
    pub fn whole(scene: &Scene) -> (block: ViewBlock)
        ensures
            block.x == 0,
            block.y == 0,
            block.width == scene.width,
            block.height == scene.height,
            block.addressable(),
    {
        ViewBlock { x: 0, y: 0, width: scene.width, height: scene.height }
    }
}

/// Why a frame was not rendered.
#[derive(Clone, Copy, Debug, PartialEq, Eq, Structural)]
pub enum RenderError {
    /// The buffer does not hold exactly four bytes for every pixel.
    BufferLength,
}

/// Whether `stored` is what `shade` gave for the pixel at column `x`, row
/// `y` of the picture, made fully opaque.
pub open spec fn shaded<F: Fn(u32, u32, &Scene) -> Rgba8>(
    shade: F,
    scene: &Scene,
    x: int,
    y: int,
    stored: Rgba8,
) -> bool {
    exists|p: Rgba8|
        shade.ensures((x as u32, y as u32, scene), p) && stored == Rgba8::opaque_spec(
            p.red,
            p.green,
            p.blue,
        )
}

/// Where the four bytes of a pixel start in a buffer that holds the rows
/// of a frame one after the other, top row first.
pub open spec fn pixel_offset(width: int, x: int, y: int) -> int {
    4 * (y * width + x)
}

/// The pixel that a buffer holds at column `x`, row `y`.
pub open spec fn pixel_at(buffer: Seq<u8>, width: int, x: int, y: int) -> Rgba8 {
    let o = pixel_offset(width, x, y);
    Rgba8 { red: buffer[o], green: buffer[o + 1], blue: buffer[o + 2], alpha: buffer[o + 3] }
}

/// The pixels of a frame lie in the buffer without gaps or overlap: each
/// has its four bytes inside the buffer, and a pixel that comes earlier,
/// row by row, ends before a later one starts.
pub proof fn pixels_are_laid_out_in_order(
    width: int,
    height: int,
    x: int,
    y: int,
    earlier_x: int,
    earlier_y: int,
)
    requires
        0 <= x < width,
        0 <= y < height,
        0 <= earlier_x < width,
        0 <= earlier_y,
        earlier_y < y || (earlier_y == y && earlier_x < x),
    ensures
        0 <= pixel_offset(width, earlier_x, earlier_y),
        pixel_offset(width, earlier_x, earlier_y) + 4 <= pixel_offset(width, x, y),
        pixel_offset(width, x, y) + 4 <= 4 * (width * height),
{
    assert(earlier_y * width >= 0) by (nonlinear_arith)
        requires
            earlier_y >= 0,
            width > 0,
    ;
    assert(y * width + width <= height * width) by (nonlinear_arith)
        requires
            y + 1 <= height,
            width > 0,
    ;
    assert(height * width == width * height) by (nonlinear_arith);
    if earlier_y < y {
        assert(earlier_y * width + width <= y * width) by (nonlinear_arith)
            requires
                earlier_y + 1 <= y,
                width > 0,
        ;
    }
}

/// Renders a block of a scene's picture into a new raster. `shade` gives
/// the colour of a pixel of the picture, gamma encoded. The raster has
/// the block's size and stores red, green and blue; row 0 is the top
/// row; every pixel holds what `shade` gave for it, and reads as fully
/// opaque.
pub fn render<F: Fn(u32, u32, &Scene) -> Rgba8>(block: &ViewBlock, scene: &Scene, shade: F) -> (image:
    DynamicImage)
    requires
        block.addressable(),
        3 * block.width * block.height <= isize::MAX,
        forall|x: u32, y: u32| block.contains(x as int, y as int) ==> shade.requires((x, y, scene)),
    ensures
        image_width(image) == block.width,
        image_height(image) == block.height,
        image_is_rgb8(image),
        forall|x: int, y: int|
            in_image(image, x, y) ==> shaded(
                shade,
                scene,
                block.x + x,
                block.y + y,
                #[trigger] image_pixels(image)[(x, y)],
            ),
{
    let mut image = new_rgb8(block.width, block.height);
    let mut y: u32 = 0;
    while y < block.height
        invariant
            0 <= y <= block.height,
            block.addressable(),
            forall|x: u32, y: u32|
                block.contains(x as int, y as int) ==> shade.requires((x, y, scene)),
            image_width(image) == block.width,
            image_height(image) == block.height,
            image_is_rgb8(image),
            forall|px: int, py: int|
                0 <= px < block.width && 0 <= py < y ==> shaded(
                    shade,
                    scene,
                    block.x + px,
                    block.y + py,
                    #[trigger] image_pixels(image)[(px, py)],
                ),
        decreases block.height - y,
    {
        let mut x: u32 = 0;
        while x < block.width
            invariant
                0 <= x <= block.width,
                0 <= y < block.height,
                block.addressable(),
                forall|x: u32, y: u32|
                    block.contains(x as int, y as int) ==> shade.requires((x, y, scene)),
                image_width(image) == block.width,
                image_height(image) == block.height,
                image_is_rgb8(image),
                forall|px: int, py: int|
                    0 <= px < block.width && (0 <= py < y || (py == y && px < x)) ==> shaded(
                        shade,
                        scene,
                        block.x + px,
                        block.y + py,
                        #[trigger] image_pixels(image)[(px, py)],
                    ),
            decreases block.width - x,
        {
            let column: u32 = x + block.x;
            let row: u32 = y + block.y;
            assert(block.contains(column as int, row as int));
            let pixel = shade(column, row, scene);
            put_pixel(&mut image, x, y, pixel);
            proof {
                let stored = Rgba8::opaque_spec(pixel.red, pixel.green, pixel.blue);
                assert(shaded(shade, scene, block.x + x, block.y + y, stored));
            }
            x = x + 1;
        }
        y = y + 1;
    }
    image
}

/// Renders a block of a scene's picture into a buffer of the caller's,
/// four bytes for each pixel: red, green, blue and opacity, the rows one
/// after the other, top row first. The buffer must have exactly that
/// length; one of any other length is refused and left as it was.
pub fn render_into<F: Fn(u32, u32, &Scene) -> Rgba8>(
    block: &ViewBlock,
    scene: &Scene,
    shade: F,
    buffer: &mut Vec<u8>,
) -> (done: Result<(), RenderError>)
    requires
        block.addressable(),
        forall|x: u32, y: u32| block.contains(x as int, y as int) ==> shade.requires((x, y, scene)),
    ensures
        old(buffer).len() != 4 * (block.width * block.height) ==> done == Err::<(), RenderError>(
            RenderError::BufferLength,
        ) && final(buffer)@ == old(buffer)@,
        old(buffer).len() == 4 * (block.width * block.height) ==> done is Ok && final(buffer).len()
            == old(buffer).len() && forall|x: int, y: int|
            0 <= x < block.width && 0 <= y < block.height ==> shaded(
                shade,
                scene,
                block.x + x,
                block.y + y,
                #[trigger] pixel_at(final(buffer)@, block.width as int, x, y),
            ),
{
    let width: u128 = block.width as u128;
    let height: u128 = block.height as u128;
    assert(width * height <= 0xFFFF_FFFF * 0xFFFF_FFFF) by (nonlinear_arith)
        requires
            width <= 0xFFFF_FFFF,
            height <= 0xFFFF_FFFF,
    ;
    let needed: u128 = 4 * (width * height);
    if buffer.len() as u128 != needed {
        return Err(RenderError::BufferLength);
    }
    let ghost w = block.width as int;
    let ghost h = block.height as int;
    let mut offset: usize = 0;
    let mut y: u32 = 0;
    while y < block.height
        invariant
            0 <= y <= block.height,
            w == block.width,
            h == block.height,
            block.addressable(),
            forall|x: u32, y: u32|
                block.contains(x as int, y as int) ==> shade.requires((x, y, scene)),
            buffer.len() == 4 * (w * h),
            offset == pixel_offset(w, 0, y as int),
            forall|px: int, py: int|
                0 <= px < w && 0 <= py < y ==> shaded(
                    shade,
                    scene,
                    block.x + px,
                    block.y + py,
                    #[trigger] pixel_at(buffer@, w, px, py),
                ),
        decreases block.height - y,
    {
        let mut x: u32 = 0;
        while x < block.width
            invariant
                0 <= x <= block.width,
                0 <= y < block.height,
                w == block.width,
                h == block.height,
                block.addressable(),
                forall|x: u32, y: u32|
                    block.contains(x as int, y as int) ==> shade.requires((x, y, scene)),
                buffer.len() == 4 * (w * h),
                offset == pixel_offset(w, x as int, y as int),
                forall|px: int, py: int|
                    0 <= px < w && (0 <= py < y || (py == y && px < x)) ==> shaded(
                        shade,
                        scene,
                        block.x + px,
                        block.y + py,
                        #[trigger] pixel_at(buffer@, w, px, py),
                    ),
            decreases block.width - x,
        {
            let column: u32 = x + block.x;
            let row: u32 = y + block.y;
            assert(block.contains(column as int, row as int));
            let pixel = shade(column, row, scene);
            let ghost before = buffer@;
            proof {
                assert(y * w >= 0) by (nonlinear_arith)
                    requires
                        y >= 0,
                        w >= 0,
                ;
                assert(y * w + w <= h * w) by (nonlinear_arith)
                    requires
                        y + 1 <= h,
                        w > 0,
                ;
                assert(h * w == w * h) by (nonlinear_arith);
            }
            buffer.set(offset, pixel.red);
            buffer.set(offset + 1, pixel.green);
            buffer.set(offset + 2, pixel.blue);
            buffer.set(offset + 3, 255);
            proof {
                let stored = Rgba8::opaque_spec(pixel.red, pixel.green, pixel.blue);
                assert(shaded(shade, scene, block.x + x, block.y + y, stored));
                assert forall|px: int, py: int|
                    0 <= px < w && (0 <= py < y || (py == y && px < x + 1)) implies shaded(
                    shade,
                    scene,
                    block.x + px,
                    block.y + py,
                    #[trigger] pixel_at(buffer@, w, px, py),
                ) by {
                    if px != x || py != y {
                        pixels_are_laid_out_in_order(w, h, x as int, y as int, px, py);
                        assert(pixel_at(buffer@, w, px, py) == pixel_at(before, w, px, py));
                    }
                }
                assert(pixel_offset(w, x + 1, y as int) == offset + 4) by (nonlinear_arith)
                    requires
                        offset == 4 * (y * w + x),
                        pixel_offset(w, x + 1, y as int) == 4 * (y * w + (x + 1)),
                ;
            }
            offset = offset + 4;
            x = x + 1;
        }
        proof {
            assert(pixel_offset(w, 0, y + 1) == offset) by (nonlinear_arith)
                requires
                    offset == 4 * (y * w + w),
                    pixel_offset(w, 0, y + 1) == 4 * ((y + 1) * w + 0),
            ;
        }
        y = y + 1;
    }
    Ok(())
}

} // verus!
