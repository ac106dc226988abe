use vstd::prelude::*;

use crate::walk::Window;

verus! {

#[verifier::external_type_specification]
#[verifier::external_body]
pub struct ExDynamicImage(image::DynamicImage);

#[verifier::external_type_specification]
#[verifier::external_body]
pub struct ExImageError(image::ImageError);

/// An image of 8-bit RGBA pixels held in memory, onto which frames are
/// copied. Its buffer is `image`'s own; what the contracts know of it is its
/// size and its pixels.
#[verifier::external_body]
pub struct Canvas {
    buf: image::ImageBuffer<image::Rgba<u8>, Vec<u8>>,
}

/// The width and height of a decoded image.
pub uninterp spec fn source_size(img: image::DynamicImage) -> (u32, u32);

/// The pixels of a decoded image as 8-bit RGBA, keyed by column and row.
pub uninterp spec fn source_rgba(img: image::DynamicImage) -> Map<(int, int), [u8; 4]>;

/// The width and height of a canvas.
pub uninterp spec fn canvas_dims(c: Canvas) -> (u32, u32);

/// The pixels of a canvas, keyed by column and row.
pub uninterp spec fn canvas_rgba(c: Canvas) -> Map<(int, int), [u8; 4]>;

/// Relies on `DynamicImage::width`: the width of the decoded image.
pub assume_specification[ image::DynamicImage::width ](img: &image::DynamicImage) -> (r: u32)
    ensures
        r == source_size(*img).0,
;

/// Relies on `DynamicImage::height`: the height of the decoded image.
pub assume_specification[ image::DynamicImage::height ](img: &image::DynamicImage) -> (r: u32)
    ensures
        r == source_size(*img).1,
;

/// Relies on `ImageBuffer::new`: a canvas of the given size with every
/// channel of every pixel zero. It panics when four bytes a pixel overflow
/// `usize`, which `requires` rules out.
#[verifier::external_body]
pub(crate) fn blank_canvas(width: u32, height: u32) -> (r: Canvas)
    requires
        4 * width * height <= usize::MAX,
    ensures
        canvas_dims(r) == (width, height),
        forall|a: int, b: int|
            0 <= a < width && 0 <= b < height ==> #[trigger] canvas_rgba(r)[(a, b)] == [
                0u8,
                0u8,
                0u8,
                0u8,
            ],
{
    Canvas { buf: image::ImageBuffer::new(width, height) }
}

/// Relies on `GenericImageView::view` of `DynamicImage` and on
/// `GenericImage::copy_from` of `ImageBuffer`: copies the window of the
/// source, each pixel read as RGBA, into the canvas with its top-left corner
/// at column 0 and row `y`. The view panics when the window leaves the source
/// and the bounds test adds `y` to the window's height in 32 bits, which
/// `requires` rules out. The copy fails, changing nothing, when the window
/// does not fit on the canvas.
#[verifier::external_body]
pub(crate) fn copy_window(
    canvas: &mut Canvas,
    source: &image::DynamicImage,
    win: Window,
    y: u32,
) -> (r: Result<(), image::ImageError>)
    requires
        win.x + win.width <= source_size(*source).0,
        win.y + win.height <= source_size(*source).1,
        y + win.height <= u32::MAX,
    ensures
        canvas_dims(*final(canvas)) == canvas_dims(*old(canvas)),
        r is Ok <==> win.width <= canvas_dims(*old(canvas)).0 && y + win.height <= canvas_dims(
            *old(canvas),
        ).1,
        r is Err ==> *final(canvas) == *old(canvas),
        r is Ok ==> forall|a: int, b: int|
            0 <= a < canvas_dims(*old(canvas)).0 && 0 <= b < canvas_dims(*old(canvas)).1
                ==> #[trigger] canvas_rgba(*final(canvas))[(a, b)] == if a < win.width && y <= b
                < y + win.height {
                source_rgba(*source)[(win.x + a, win.y + b - y)]
            } else {
                canvas_rgba(*old(canvas))[(a, b)]
            },
{
    let view = image::GenericImageView::view(source, win.x, win.y, win.width, win.height);
    image::GenericImage::copy_from(&mut canvas.buf, std::ops::Deref::deref(&view), 0, y)
}

impl Canvas {
    /// Relies on `ImageBuffer::into_raw`: the channels of every pixel, row
    /// after row from the top, each row from the left, in the order red,
    /// green, blue, alpha.
    #[verifier::external_body]
    pub fn into_raw(self) -> (r: Vec<u8>)
        ensures
            r@.len() == 4 * canvas_dims(self).0 * canvas_dims(self).1,
            forall|a: int, b: int, c: int|
                0 <= a < canvas_dims(self).0 && 0 <= b < canvas_dims(self).1 && 0 <= c < 4
                    ==> r@[4 * (b * canvas_dims(self).0 + a) + c] == #[trigger] canvas_rgba(
                    self,
                )[(a, b)][c],
    {
        self.buf.into_raw()
    }
}

} // verus!
