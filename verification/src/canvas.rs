//! The pixel canvas that every renderer writes to, and its mathematical model.
use vstd::prelude::*;
use image::{ImageBuffer, Rgb};
use crate::common::Color;

verus! {

/// An axis-aligned rectangle of pixels, given by its top-left corner and its size.
///
/// The rectangle holds the columns `left <= x < left + width` and the rows
/// `top <= y < top + height`; it is empty when either size is not positive.
pub struct Rect {
    pub left: int,
    pub top: int,
    pub width: int,
    pub height: int,
}

impl Rect {
    /// Whether the pixel `(x, y)` lies inside the rectangle.
    pub open spec fn contains(self, x: int, y: int) -> bool {
        self.left <= x < self.left + self.width && self.top <= y < self.top + self.height
    }

    /// The rectangle moved by `(dx, dy)`.
    pub open spec fn shifted(self, dx: int, dy: int) -> Rect {
        Rect { left: self.left + dx, top: self.top + dy, width: self.width, height: self.height }
    }

    /// Whether every pixel of the rectangle is also a pixel of `outer`.
    pub open spec fn within(self, outer: Rect) -> bool {
        forall|x: int, y: int| self.contains(x, y) ==> outer.contains(x, y)
    }
}

/// What a canvas holds: its size and the color of each of its pixels.
///
/// `pixels` is defined exactly on the coordinates `(x, y)` with `x < width`
/// and `y < height`; row 0 is the top of the image.
pub struct Raster {
    pub width: nat,
    pub height: nat,
    pub pixels: Map<(int, int), Color>,
}

impl Raster {
    /// Whether `(x, y)` is a pixel of the canvas.
    pub open spec fn in_bounds(self, x: int, y: int) -> bool {
        0 <= x < self.width && 0 <= y < self.height
    }

    /// The canvas of the given size with every pixel set to `color`.
    pub open spec fn solid(width: nat, height: nat, color: Color) -> Raster {
        Raster {
            width,
            height,
            pixels: Map::new(
                |p: (int, int)| 0 <= p.0 < width && 0 <= p.1 < height,
                |p: (int, int)| color,
            ),
        }
    }

    /// The canvas after writing `color` at `(x, y)`; unchanged if `(x, y)` is
    /// not a pixel of the canvas.
    pub open spec fn put(self, x: int, y: int, color: Color) -> Raster {
        if self.in_bounds(x, y) {
            Raster { width: self.width, height: self.height, pixels: self.pixels.insert((x, y), color) }
        } else {
            self
        }
    }

    /// The canvas after painting every pixel of `rect` that lies on the canvas
    /// with `color`. Pixels of `rect` outside the canvas are dropped.
    pub open spec fn fill(self, rect: Rect, color: Color) -> Raster {
        Raster {
            width: self.width,
            height: self.height,
            pixels: Map::new(
                |p: (int, int)| self.in_bounds(p.0, p.1),
                |p: (int, int)|
                    if rect.contains(p.0, p.1) {
                        color
                    } else {
                        self.pixels[p]
                    },
            ),
        }
    }

    /// Whether the pixel map is defined exactly on the canvas's coordinates.
    pub open spec fn well_formed(self) -> bool {
        forall|p: (int, int)| self.pixels.dom().contains(p) <==> self.in_bounds(p.0, p.1)
    }

    /// The canvas while `rect` is being painted row by row: the first `rows`
    /// rows of `rect` are done, and the first `columns` pixels of the next row.
    pub open spec fn fill_partly(self, rect: Rect, rows: int, columns: int, color: Color) -> Raster {
        Raster {
            width: self.width,
            height: self.height,
            pixels: Map::new(
                |p: (int, int)| self.in_bounds(p.0, p.1),
                |p: (int, int)|
                    if rect.contains(p.0, p.1) && (p.1 < rect.top + rows || (p.1 == rect.top + rows
                        && p.0 < rect.left + columns)) {
                        color
                    } else {
                        self.pixels[p]
                    },
            ),
        }
    }

    /// Painting a rectangle keeps the canvas's size, defines no pixel outside
    /// the canvas, gives every pixel of the canvas inside the rectangle the
    /// new color and leaves every other pixel as it was.
    pub proof fn lemma_fill_is_clipped(self, rect: Rect, color: Color)
        ensures
            self.fill(rect, color).width == self.width,
            self.fill(rect, color).height == self.height,
            self.fill(rect, color).well_formed(),
            forall|x: int, y: int| #[trigger]
                self.fill(rect, color).pixels.dom().contains((x, y)) ==> 0 <= x < self.width && 0
                    <= y < self.height,
            forall|x: int, y: int|
                self.in_bounds(x, y) && rect.contains(x, y) ==> #[trigger] self.fill(
                    rect,
                    color,
                ).pixels[(x, y)] == color,
            forall|x: int, y: int|
                self.in_bounds(x, y) && !rect.contains(x, y) ==> #[trigger] self.fill(
                    rect,
                    color,
                ).pixels[(x, y)] == self.pixels[(x, y)],
    {
    }

    /// Painting an empty rectangle, or one that misses the canvas, changes
    /// nothing on a canvas whose pixels are defined exactly on its coordinates.
    pub proof fn lemma_fill_outside_changes_nothing(self, rect: Rect, color: Color)
        requires
            self.well_formed(),
            forall|x: int, y: int| self.in_bounds(x, y) ==> !rect.contains(x, y),
        ensures
            self.fill(rect, color) == self,
    {
        assert(self.fill(rect, color).pixels =~= self.pixels);
    }
}

/// A fixed-size grid of RGB pixels with its origin at the top-left corner.
///
/// The pixels are stored in an `image::ImageBuffer`.
#[verifier::external_body]
pub struct Canvas {
    image: ImageBuffer<Rgb<u8>, Vec<u8>>,
}

/// The width in pixels of the image that a canvas holds.
pub uninterp spec fn canvas_width(canvas: Canvas) -> u32;

/// The height in pixels of the image that a canvas holds.
pub uninterp spec fn canvas_height(canvas: Canvas) -> u32;

/// The color stored at each coordinate `(x, y)` of the image that a canvas holds.
pub uninterp spec fn canvas_pixels(canvas: Canvas) -> Map<(int, int), Color>;

/// Calls `ImageBuffer::new`, which allocates an image of the given size with
/// every channel of every pixel set to zero. It computes the buffer's length
/// in `usize`, first as 3 times `width` and then times `height`, and panics
/// when either product overflows or the buffer is larger than an allocation
/// can be; `requires` leaves both out. Where the machine has too little
/// memory for the buffer the process ends, which no `requires` can leave out.
#[verifier::external_body]
fn image_new(width: u32, height: u32) -> (canvas: Canvas)
    requires
        3 * width <= usize::MAX,
        3 * width * height <= isize::MAX,
    ensures
        canvas_width(canvas) == width,
        canvas_height(canvas) == height,
        forall|x: int, y: int|
            0 <= x < width && 0 <= y < height ==> #[trigger] canvas_pixels(canvas)[(x, y)] == (
                0u8,
                0u8,
                0u8,
            ),
{
    Canvas { image: ImageBuffer::new(width, height) }
}

/// Calls `ImageBuffer::width`, which returns the width the image was created with.
#[verifier::external_body]
fn image_width(canvas: &Canvas) -> (width: u32)
    ensures
        width == canvas_width(*canvas),
{
    canvas.image.width()
}

/// Calls `ImageBuffer::height`, which returns the height the image was created with.
#[verifier::external_body]
fn image_height(canvas: &Canvas) -> (height: u32)
    ensures
        height == canvas_height(*canvas),
{
    canvas.image.height()
}

/// Calls `ImageBuffer::get_pixel`, which returns the pixel stored at `(x, y)`
/// and panics outside the image, which `requires` leaves out.
#[verifier::external_body]
fn image_get_pixel(canvas: &Canvas, x: u32, y: u32) -> (color: Color)
    requires
        x < canvas_width(*canvas),
        y < canvas_height(*canvas),
    ensures
        color == canvas_pixels(*canvas)[(x as int, y as int)],
{
    let pixel = canvas.image.get_pixel(x, y);
    (pixel.0[0], pixel.0[1], pixel.0[2])
}

/// Calls `ImageBuffer::put_pixel`, which overwrites the pixel at `(x, y)` and
/// leaves the image's size and every other pixel as they were. It panics
/// outside the image, which `requires` leaves out.
#[verifier::external_body]
fn image_put_pixel(canvas: &mut Canvas, x: u32, y: u32, color: Color)
    requires
        x < canvas_width(*old(canvas)),
        y < canvas_height(*old(canvas)),
    ensures
        canvas_width(*final(canvas)) == canvas_width(*old(canvas)),
        canvas_height(*final(canvas)) == canvas_height(*old(canvas)),
        canvas_pixels(*final(canvas)) == canvas_pixels(*old(canvas)).insert(
            (x as int, y as int),
            color,
        ),
{
    canvas.image.put_pixel(x, y, Rgb([color.0, color.1, color.2]))
}

impl View for Canvas {
    type V = Raster;

    /// The size of the canvas and the colors of the pixels inside it.
    open spec fn view(&self) -> Raster {
        Raster {
            width: canvas_width(*self) as nat,
            height: canvas_height(*self) as nat,
            pixels: Map::new(
                |p: (int, int)|
                    0 <= p.0 < canvas_width(*self) && 0 <= p.1 < canvas_height(*self),
                |p: (int, int)| canvas_pixels(*self)[p],
            ),
        }
    }
}

impl Canvas {
    /// Whether an image of `width` by `height` pixels, three bytes each, can
    /// be allocated: the bytes of one row can be counted in a `usize`, and
    /// the bytes of all rows are no more than an allocation can hold.
    pub open spec fn fits(width: u32, height: u32) -> bool {
        &&& 3 * width <= usize::MAX
        &&& 3 * width * height <= isize::MAX
    }

    /// Creates a canvas of the given size with every pixel black, or returns
    /// `None` when the bytes of a row cannot be counted or the buffer would
    /// be larger than any allocation can be.
    pub fn new(width: u32, height: u32) -> (canvas: Option<Canvas>)
        ensures
            canvas.is_some() <==> Self::fits(width, height),
            canvas.is_some() ==> canvas.unwrap()@ == Raster::solid(
                width as nat,
                height as nat,
                (0u8, 0u8, 0u8),
            ),
    {
        let wide: u64 = width as u64;
        let high: u64 = height as u64;
        assert(wide * high <= u64::MAX) by (nonlinear_arith)
            requires
                wide <= u32::MAX,
                high <= u32::MAX,
        ;
        let count: u64 = wide * high;
        assert(3 * width * height == 3 * (wide * high)) by (nonlinear_arith)
            requires
                wide == width,
                high == height,
        ;
        if wide <= (usize::MAX as u64) / 3 && count <= (isize::MAX as u64) / 3 {
            let canvas = image_new(width, height);
            assert(canvas@.pixels =~= Raster::solid(
                width as nat,
                height as nat,
                (0u8, 0u8, 0u8),
            ).pixels);
            Some(canvas)
        } else {
            None
        }
    }

    /// The width of the canvas in pixels.
    pub fn width(&self) -> (width: u32)
        ensures
            width == self@.width,
    {
        image_width(self)
    }

    /// The height of the canvas in pixels.
    pub fn height(&self) -> (height: u32)
        ensures
            height == self@.height,
    {
        image_height(self)
    }

    /// The color of the pixel at `(x, y)`, or `None` if `(x, y)` is not on the canvas.
    pub fn get_pixel(&self, x: u32, y: u32) -> (color: Option<Color>)
        ensures
            color.is_some() <==> self@.in_bounds(x as int, y as int),
            color.is_some() ==> color.unwrap() == self@.pixels[(x as int, y as int)],
    {
        if x < image_width(self) && y < image_height(self) {
            Some(image_get_pixel(self, x, y))
        } else {
            None
        }
    }

    /// Writes `color` at `(x, y)`, which has to be a pixel of the canvas.
    pub fn put_pixel(&mut self, x: u32, y: u32, color: Color)
        requires
            old(self)@.in_bounds(x as int, y as int),
        ensures
            final(self)@ == old(self)@.put(x as int, y as int, color),
    {
        image_put_pixel(self, x, y, color);
        assert(self@.pixels =~= old(self)@.put(x as int, y as int, color).pixels);
    }

    /// Paints the rectangle whose top-left corner is `(left, top)` with `color`.
    ///
    /// Every pixel of the rectangle that lies on the canvas is written; the
    /// others are dropped, so a rectangle may reach past any edge.
    pub fn fill_rect(&mut self, left: i64, top: i64, width: u32, height: u32, color: Color)
        ensures
            final(self)@ == old(self)@.fill(
                Rect {
                    left: left as int,
                    top: top as int,
                    width: width as int,
                    height: height as int,
                },
                color,
            ),
    {
        let ghost start = self@;
        let ghost rect = Rect {
            left: left as int,
            top: top as int,
            width: width as int,
            height: height as int,
        };
        let canvas_width: u32 = image_width(self);
        let canvas_height: u32 = image_height(self);
        let mut row: u32 = 0;
        assert(self@.pixels =~= start.fill_partly(rect, 0, 0, color).pixels);
        while row < height
            invariant
                row <= height,
                canvas_width == start.width,
                canvas_height == start.height,
                rect == (Rect {
                    left: left as int,
                    top: top as int,
                    width: width as int,
                    height: height as int,
                }),
                self@ == start.fill_partly(rect, row as int, 0, color),
            decreases height - row,
        {
            let mut column: u32 = 0;
            while column < width
                invariant
                    row < height,
                    column <= width,
                    canvas_width == start.width,
                    canvas_height == start.height,
                    rect == (Rect {
                        left: left as int,
                        top: top as int,
                        width: width as int,
                        height: height as int,
                    }),
                    self@ == start.fill_partly(rect, row as int, column as int, color),
                decreases width - column,
            {
                let ghost before = self@;
                let x: i128 = left as i128 + column as i128;
                let y: i128 = top as i128 + row as i128;
                if 0 <= x && x < canvas_width as i128 && 0 <= y && y < canvas_height as i128 {
                    self.put_pixel(x as u32, y as u32, color);
                }
                column = column + 1;
                assert forall|p: (int, int)| start.in_bounds(p.0, p.1) implies self@.pixels[p]
                    == start.fill_partly(rect, row as int, column as int, color).pixels[p] by {
                    assert(self@.pixels[p] == before.put(x as int, y as int, color).pixels[p]);
                    assert(before.pixels[p] == start.fill_partly(
                        rect,
                        row as int,
                        column - 1,
                        color,
                    ).pixels[p]);
                }
                assert(self@.pixels =~= start.fill_partly(
                    rect,
                    row as int,
                    column as int,
                    color,
                ).pixels);
            }
            row = row + 1;
            assert(self@.pixels =~= start.fill_partly(rect, row as int, 0, color).pixels);
        }
        assert(self@.pixels =~= start.fill(rect, color).pixels);
    }

    /// The view of any canvas is defined exactly on its own coordinates.
    pub proof fn lemma_view_well_formed(&self)
        ensures
            self@.well_formed(),
    {
    }
}

} // verus!
