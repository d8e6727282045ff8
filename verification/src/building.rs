//! Buildings: their generation from random draws and their rendering.
use vstd::prelude::*;
use std::ops::Range;
use rand::rngs::ThreadRng;
use crate::canvas::{Canvas, Raster, Rect};
use crate::common::Color;
use crate::math::Dimensions2;
use crate::random::{draw_index, draw_u32};
use crate::window::{layout, layout_windows, rects_of, Window, WindowType};

verus! {

/// The color of the borders of buildings and windows.
pub const BORDER_COLOR: Color = (0, 0, 0);

/// The color of a window's pane.
pub const PANE_COLOR: Color = (120, 120, 120);

/// A building of the skyline.
///
/// `x` is the canvas column of the building's left edge. The building stands
/// on the canvas's bottom edge; its windows are placed relative to its own
/// top-left corner, in the order of their generation.
pub struct Building {
    pub x: u32,
    pub dimensions: Dimensions2<u32>,
    pub color: Color,
    pub windows: Vec<Window>,
}

/// Parameters for [`Building::generate`].
pub struct GenerateOpts<'a> {
    /// Random number generator to use.
    pub rng: &'a mut ThreadRng,
    /// The canvas column of the building's left edge.
    pub x: u32,
    /// The half-open ranges that the height and the width are drawn from.
    pub size_range: Dimensions2<Range<u32>>,
    /// The distance between windows and the edge of the building.
    pub window_margin: u32,
    /// The colors to choose from.
    pub color_opts: &'a [Color],
}

/// Parameters for [`Building::render`].
pub struct RenderOpts<'a> {
    /// The canvas to render to.
    pub image: &'a mut Canvas,
    /// The pixel width of the building's drawn borders.
    pub building_border_width: u32,
    /// The pixel width of the windows' drawn borders.
    pub window_border_width: u32,
}

/// Whether both ranges of sizes hold at least one value.
pub open spec fn sizes_can_be_drawn(size_range: Dimensions2<Range<u32>>) -> bool {
    &&& size_range.spec_height().start < size_range.spec_height().end
    &&& size_range.spec_width().start < size_range.spec_width().end
}

/// Whether `dimensions` lies within the ranges of `size_range`.
pub open spec fn size_in_range(dimensions: Dimensions2<u32>, size_range: Dimensions2<Range<u32>>) -> bool {
    &&& size_range.spec_height().start <= dimensions.spec_height() < size_range.spec_height().end
    &&& size_range.spec_width().start <= dimensions.spec_width() < size_range.spec_width().end
}

/// Generate a random size based off a given range of sizes.
pub fn generate_size(size_range: &Dimensions2<Range<u32>>, rng: &mut ThreadRng) -> (size: Dimensions2<u32>)
    requires
        sizes_can_be_drawn(*size_range),
    ensures
        size_in_range(size, *size_range),
{
    let heights = size_range.height_ref();
    let widths = size_range.width_ref();
    let height: u32 = draw_u32(rng, heights.start, heights.end);
    let width: u32 = draw_u32(rng, widths.start, widths.end);
    Dimensions2::new(height, width)
}

impl Building {
    /// Whether the building's windows are the layout of `pattern` on its face.
    pub open spec fn has_layout(&self, pattern: WindowType, margin: u32) -> bool {
        rects_of(self.windows@) == layout(
            pattern,
            self.dimensions.spec_width() as int,
            self.dimensions.spec_height() as int,
            margin as int,
        )
    }

    /// The building's face in its own coordinates.
    pub open spec fn face(&self) -> Rect {
        Rect {
            left: 0,
            top: 0,
            width: self.dimensions.spec_width() as int,
            height: self.dimensions.spec_height() as int,
        }
    }

    /// The columns of the canvas that the building stands on.
    pub open spec fn covers_column(&self, column: int) -> bool {
        self.x <= column < self.x + self.dimensions.spec_width()
    }

    /// A rectangle of the building's own coordinates, in the coordinates of a
    /// canvas of the given height: the building's bottom edge is pinned to the
    /// canvas's bottom edge.
    pub open spec fn on_canvas(&self, canvas_height: int, rect: Rect) -> Rect {
        rect.shifted(self.x as int, canvas_height - self.dimensions.spec_height())
    }

    /// The canvas after painting a rectangle of the building's own coordinates.
    pub open spec fn paint(&self, raster: Raster, rect: Rect, color: Color) -> Raster {
        raster.fill(self.on_canvas(raster.height as int, rect), color)
    }

    /// The canvas after painting the building's body and then its border
    /// along the top, left and right edges.
    pub open spec fn paint_body(&self, raster: Raster, border: int) -> Raster {
        let height = self.dimensions.spec_height() as int;
        let width = self.dimensions.spec_width() as int;
        let body = self.paint(raster, self.face(), self.color);
        let top = self.paint(body, Rect { left: 0, top: 0, width, height: border }, BORDER_COLOR);
        let left = self.paint(top, Rect { left: 0, top: 0, width: border, height }, BORDER_COLOR);
        self.paint(left, Rect { left: width - border, top: 0, width: border, height }, BORDER_COLOR)
    }

    /// The canvas after painting one window: its pane, then its border along
    /// the top, bottom, left and right edges.
    pub open spec fn paint_window(&self, raster: Raster, window: Rect, border: int) -> Raster {
        let pane = self.paint(raster, window, PANE_COLOR);
        let top = self.paint(
            pane,
            Rect { left: window.left, top: window.top, width: window.width, height: border },
            BORDER_COLOR,
        );
        let bottom = self.paint(
            top,
            Rect {
                left: window.left,
                top: window.top + window.height - border,
                width: window.width,
                height: border,
            },
            BORDER_COLOR,
        );
        let left = self.paint(
            bottom,
            Rect { left: window.left, top: window.top, width: border, height: window.height },
            BORDER_COLOR,
        );
        self.paint(
            left,
            Rect {
                left: window.left + window.width - border,
                top: window.top,
                width: border,
                height: window.height,
            },
            BORDER_COLOR,
        )
    }

    /// The canvas after painting the first `count` windows in their order.
    pub open spec fn paint_windows(&self, raster: Raster, count: int, border: int) -> Raster
        decreases count,
    {
        if count <= 0 {
            raster
        } else {
            self.paint_window(
                self.paint_windows(raster, count - 1, border),
                self.windows@[count - 1]@,
                border,
            )
        }
    }

    /// The canvas after rendering the building: body, border, then every window.
    pub open spec fn painted(&self, raster: Raster, building_border: int, window_border: int) -> Raster {
        self.paint_windows(
            self.paint_body(raster, building_border),
            self.windows@.len() as int,
            window_border,
        )
    }

    /// Rendering depends on the building and on the canvas's pixels alone:
    /// onto two canvases of the same size that hold the same pixels, the
    /// building renders the same picture.
    pub proof fn lemma_render_is_deterministic(
        &self,
        first: Raster,
        second: Raster,
        building_border: int,
        window_border: int,
    )
        requires
            first.width == second.width,
            first.height == second.height,
            forall|x: int, y: int|
                first.in_bounds(x, y) ==> first.pixels[(x, y)] == second.pixels[(x, y)],
        ensures
            self.painted(first, building_border, window_border) == self.painted(
                second,
                building_border,
                window_border,
            ),
    {
        let body_first = self.paint(first, self.face(), self.color);
        let body_second = self.paint(second, self.face(), self.color);
        assert(body_first.pixels =~= body_second.pixels);
    }

    /// Whether two pictures of one size relate to the two canvases that they
    /// were painted on in the same way: at each pixel either the pictures
    /// agree, or each picture still shows what its canvas showed.
    pub open spec fn agree_or_keep(
        first: Raster,
        second: Raster,
        first_canvas: Raster,
        second_canvas: Raster,
    ) -> bool {
        &&& first.width == second.width
        &&& first.height == second.height
        &&& forall|x: int, y: int|
            first.in_bounds(x, y) ==> #[trigger] first.pixels[(x, y)] == second.pixels[(x, y)] || (
            first.pixels[(x, y)] == first_canvas.pixels[(x, y)] && second.pixels[(x, y)]
                == second_canvas.pixels[(x, y)])
    }

    /// Painting the same rectangle onto both pictures keeps their relation.
    proof fn lemma_paint_agrees_or_keeps(
        &self,
        first: Raster,
        second: Raster,
        first_canvas: Raster,
        second_canvas: Raster,
        rect: Rect,
        color: Color,
    )
        requires
            Self::agree_or_keep(first, second, first_canvas, second_canvas),
        ensures
            Self::agree_or_keep(
                self.paint(first, rect, color),
                self.paint(second, rect, color),
                first_canvas,
                second_canvas,
            ),
    {
        let painted_first = self.paint(first, rect, color);
        let painted_second = self.paint(second, rect, color);
        assert forall|x: int, y: int| painted_first.in_bounds(x, y) implies #[trigger]
            painted_first.pixels[(x, y)] == painted_second.pixels[(x, y)] || (
        painted_first.pixels[(x, y)] == first_canvas.pixels[(x, y)] && painted_second.pixels[(x, y)]
            == second_canvas.pixels[(x, y)]) by {
            assert(first.pixels[(x, y)] == second.pixels[(x, y)] || (first.pixels[(x, y)]
                == first_canvas.pixels[(x, y)] && second.pixels[(x, y)] == second_canvas.pixels[(
                x,
                y,
            )]));
        }
    }

    /// Painting the body and its border onto both pictures keeps their relation.
    proof fn lemma_body_agrees_or_keeps(
        &self,
        first: Raster,
        second: Raster,
        first_canvas: Raster,
        second_canvas: Raster,
        border: int,
    )
        requires
            Self::agree_or_keep(first, second, first_canvas, second_canvas),
        ensures
            Self::agree_or_keep(
                self.paint_body(first, border),
                self.paint_body(second, border),
                first_canvas,
                second_canvas,
            ),
    {
        let height = self.dimensions.spec_height() as int;
        let width = self.dimensions.spec_width() as int;
        let top_edge = Rect { left: 0, top: 0, width, height: border };
        let left_edge = Rect { left: 0, top: 0, width: border, height };
        let right_edge = Rect { left: width - border, top: 0, width: border, height };
        let body_first = self.paint(first, self.face(), self.color);
        let body_second = self.paint(second, self.face(), self.color);
        self.lemma_paint_agrees_or_keeps(
            first,
            second,
            first_canvas,
            second_canvas,
            self.face(),
            self.color,
        );
        let top_first = self.paint(body_first, top_edge, BORDER_COLOR);
        let top_second = self.paint(body_second, top_edge, BORDER_COLOR);
        self.lemma_paint_agrees_or_keeps(
            body_first,
            body_second,
            first_canvas,
            second_canvas,
            top_edge,
            BORDER_COLOR,
        );
        self.lemma_paint_agrees_or_keeps(
            top_first,
            top_second,
            first_canvas,
            second_canvas,
            left_edge,
            BORDER_COLOR,
        );
        self.lemma_paint_agrees_or_keeps(
            self.paint(top_first, left_edge, BORDER_COLOR),
            self.paint(top_second, left_edge, BORDER_COLOR),
            first_canvas,
            second_canvas,
            right_edge,
            BORDER_COLOR,
        );
    }

    /// Painting one window onto both pictures keeps their relation.
    proof fn lemma_window_agrees_or_keeps(
        &self,
        first: Raster,
        second: Raster,
        first_canvas: Raster,
        second_canvas: Raster,
        window: Rect,
        border: int,
    )
        requires
            Self::agree_or_keep(first, second, first_canvas, second_canvas),
        ensures
            Self::agree_or_keep(
                self.paint_window(first, window, border),
                self.paint_window(second, window, border),
                first_canvas,
                second_canvas,
            ),
    {
        let top_edge = Rect {
            left: window.left,
            top: window.top,
            width: window.width,
            height: border,
        };
        let bottom_edge = Rect {
            left: window.left,
            top: window.top + window.height - border,
            width: window.width,
            height: border,
        };
        let left_edge = Rect {
            left: window.left,
            top: window.top,
            width: border,
            height: window.height,
        };
        let right_edge = Rect {
            left: window.left + window.width - border,
            top: window.top,
            width: border,
            height: window.height,
        };
        let pane_first = self.paint(first, window, PANE_COLOR);
        let pane_second = self.paint(second, window, PANE_COLOR);
        self.lemma_paint_agrees_or_keeps(
            first,
            second,
            first_canvas,
            second_canvas,
            window,
            PANE_COLOR,
        );
        let top_first = self.paint(pane_first, top_edge, BORDER_COLOR);
        let top_second = self.paint(pane_second, top_edge, BORDER_COLOR);
        self.lemma_paint_agrees_or_keeps(
            pane_first,
            pane_second,
            first_canvas,
            second_canvas,
            top_edge,
            BORDER_COLOR,
        );
        let bottom_first = self.paint(top_first, bottom_edge, BORDER_COLOR);
        let bottom_second = self.paint(top_second, bottom_edge, BORDER_COLOR);
        self.lemma_paint_agrees_or_keeps(
            top_first,
            top_second,
            first_canvas,
            second_canvas,
            bottom_edge,
            BORDER_COLOR,
        );
        self.lemma_paint_agrees_or_keeps(
            bottom_first,
            bottom_second,
            first_canvas,
            second_canvas,
            left_edge,
            BORDER_COLOR,
        );
        self.lemma_paint_agrees_or_keeps(
            self.paint(bottom_first, left_edge, BORDER_COLOR),
            self.paint(bottom_second, left_edge, BORDER_COLOR),
            first_canvas,
            second_canvas,
            right_edge,
            BORDER_COLOR,
        );
    }

    /// Painting the first `count` windows onto both pictures keeps their relation.
    proof fn lemma_windows_agree_or_keep(
        &self,
        first: Raster,
        second: Raster,
        first_canvas: Raster,
        second_canvas: Raster,
        count: int,
        border: int,
    )
        requires
            Self::agree_or_keep(first, second, first_canvas, second_canvas),
        ensures
            Self::agree_or_keep(
                self.paint_windows(first, count, border),
                self.paint_windows(second, count, border),
                first_canvas,
                second_canvas,
            ),
        decreases count,
    {
        if count > 0 {
            self.lemma_windows_agree_or_keep(
                first,
                second,
                first_canvas,
                second_canvas,
                count - 1,
                border,
            );
            self.lemma_window_agrees_or_keeps(
                self.paint_windows(first, count - 1, border),
                self.paint_windows(second, count - 1, border),
                first_canvas,
                second_canvas,
                self.windows@[count - 1]@,
                border,
            );
        }
    }

    /// The picture of a building is defined exactly on the canvas's pixels.
    proof fn lemma_painted_is_well_formed(
        &self,
        raster: Raster,
        building_border: int,
        window_border: int,
    )
        ensures
            self.painted(raster, building_border, window_border).well_formed(),
            self.painted(raster, building_border, window_border).width == raster.width,
            self.painted(raster, building_border, window_border).height == raster.height,
    {
        self.lemma_windows_are_well_formed(
            self.paint_body(raster, building_border),
            self.windows@.len() as int,
            window_border,
        );
    }

    /// Painting windows keeps a picture defined exactly on the canvas's pixels.
    proof fn lemma_windows_are_well_formed(&self, raster: Raster, count: int, border: int)
        requires
            raster.well_formed(),
        ensures
            self.paint_windows(raster, count, border).well_formed(),
            self.paint_windows(raster, count, border).width == raster.width,
            self.paint_windows(raster, count, border).height == raster.height,
        decreases count,
    {
        if count > 0 {
            self.lemma_windows_are_well_formed(raster, count - 1, border);
        }
    }

    /// Rendering is idempotent: rendering the building once more onto its
    /// own picture changes nothing.
    pub proof fn lemma_render_twice_is_render_once(
        &self,
        raster: Raster,
        building_border: int,
        window_border: int,
    )
        ensures
            self.painted(
                self.painted(raster, building_border, window_border),
                building_border,
                window_border,
            ) == self.painted(raster, building_border, window_border),
    {
        let once = self.painted(raster, building_border, window_border);
        let twice = self.painted(once, building_border, window_border);
        self.lemma_painted_is_well_formed(raster, building_border, window_border);
        self.lemma_painted_is_well_formed(once, building_border, window_border);
        assert(Self::agree_or_keep(raster, once, raster, once));
        self.lemma_body_agrees_or_keeps(raster, once, raster, once, building_border);
        self.lemma_windows_agree_or_keep(
            self.paint_body(raster, building_border),
            self.paint_body(once, building_border),
            raster,
            once,
            self.windows@.len() as int,
            window_border,
        );
        assert(Self::agree_or_keep(once, twice, raster, once));
        assert forall|p: (int, int)| once.pixels.dom().contains(p) implies once.pixels[p]
            == twice.pixels[p] by {
            assert(once.in_bounds(p.0, p.1));
            assert(once.pixels[(p.0, p.1)] == twice.pixels[(p.0, p.1)] || (once.pixels[(p.0, p.1)]
                == raster.pixels[(p.0, p.1)] && twice.pixels[(p.0, p.1)] == once.pixels[(
                p.0,
                p.1,
            )]));
        }
        assert(once.pixels =~= twice.pixels);
    }

    /// Builds the building that stands at column `x` with the given size,
    /// window pattern and color.
    pub fn assemble(
        x: u32,
        dimensions: Dimensions2<u32>,
        pattern: WindowType,
        window_margin: u32,
        color: Color,
    ) -> (building: Self)
        ensures
            building.x == x,
            building.dimensions == dimensions,
            building.color == color,
            building.has_layout(pattern, window_margin),
    {
        let windows = layout_windows(pattern, dimensions.width(), dimensions.height(), window_margin);
        Self { x, dimensions, color, windows }
    }

    /// Generates a building at column `opts.x`: draws its height and width
    /// from their ranges, one of the window patterns, and one of the colors,
    /// and lays out its windows.
    pub fn generate(opts: GenerateOpts<'_>) -> (building: Self)
        requires
            sizes_can_be_drawn(opts.size_range),
            opts.color_opts@.len() > 0,
        ensures
            building.x == opts.x,
            size_in_range(building.dimensions, opts.size_range),
            exists|pattern: WindowType| building.has_layout(pattern, opts.window_margin),
            exists|index: int|
                0 <= index < opts.color_opts@.len() && building.color == opts.color_opts@[index],
    {
        let dimensions = generate_size(&opts.size_range, opts.rng);
        let pattern = WindowType::sample(opts.rng);
        let index: usize = draw_index(opts.rng, opts.color_opts.len());
        let color = opts.color_opts[index];
        let building = Self::assemble(opts.x, dimensions, pattern, opts.window_margin, color);
        assert(building.has_layout(pattern, opts.window_margin));
        assert(building.color == opts.color_opts@[index as int]);
        building
    }

    /// The canvas coordinates of the point `(x, y)` of the building's own
    /// coordinates, on a canvas of the given height.
    pub fn to_screen_space(&self, x: u32, y: u32, image_height: u32) -> (point: (i64, i64))
        ensures
            point.0 == self.x + x,
            point.1 == image_height - self.dimensions.spec_height() + y,
    {
        (
            self.x as i64 + x as i64,
            image_height as i64 - self.dimensions.height() as i64 + y as i64,
        )
    }

    /// Paints a rectangle given in the building's own coordinates.
    fn render_rectangle(
        &self,
        image: &mut Canvas,
        start_row: i64,
        start_col: i64,
        height: u32,
        width: u32,
        color: Color,
    )
        requires
            -0x1_0000_0000 <= start_row <= 0x2_0000_0000,
            -0x1_0000_0000 <= start_col <= 0x2_0000_0000,
        ensures
            final(image)@ == self.paint(
                old(image)@,
                Rect {
                    left: start_col as int,
                    top: start_row as int,
                    width: width as int,
                    height: height as int,
                },
                color,
            ),
    {
        let origin = self.to_screen_space(0, 0, image.height());
        image.fill_rect(origin.0 + start_col, origin.1 + start_row, width, height, color);
    }

    /// Renders the building onto the canvas: its body in its color, a border
    /// along its top, left and right edges, and each window as a pane with a
    /// border along its four edges. What falls outside the canvas is dropped.
    pub fn render(&self, opts: RenderOpts<'_>)
        ensures
            final(opts.image)@ == self.painted(
                old(opts.image)@,
                opts.building_border_width as int,
                opts.window_border_width as int,
            ),
    {
        let image = opts.image;
        let ghost start = image@;
        let border: u32 = opts.building_border_width;
        let frame: u32 = opts.window_border_width;
        let height: u32 = self.dimensions.height();
        let width: u32 = self.dimensions.width();
        self.render_rectangle(image, 0, 0, height, width, self.color);
        self.render_rectangle(image, 0, 0, border, width, BORDER_COLOR);
        self.render_rectangle(image, 0, 0, height, border, BORDER_COLOR);
        self.render_rectangle(image, 0, width as i64 - border as i64, height, border, BORDER_COLOR);
        assert(image@ == self.paint_body(start, border as int));
        let mut index: usize = 0;
        while index < self.windows.len()
            invariant
                index <= self.windows@.len(),
                image@ == self.paint_windows(
                    self.paint_body(start, border as int),
                    index as int,
                    frame as int,
                ),
            decreases self.windows@.len() - index,
        {
            let window = &self.windows[index];
            let row: i64 = window.position().y() as i64;
            let column: i64 = window.position().x() as i64;
            let tall: u32 = window.dimensions().height();
            let wide: u32 = window.dimensions().width();
            self.render_rectangle(image, row, column, tall, wide, PANE_COLOR);
            self.render_rectangle(image, row, column, frame, wide, BORDER_COLOR);
            self.render_rectangle(
                image,
                row + tall as i64 - frame as i64,
                column,
                frame,
                wide,
                BORDER_COLOR,
            );
            self.render_rectangle(image, row, column, tall, frame, BORDER_COLOR);
            self.render_rectangle(
                image,
                row,
                column + wide as i64 - frame as i64,
                tall,
                frame,
                BORDER_COLOR,
            );
            index = index + 1;
        }
    }
}

} // verus!
