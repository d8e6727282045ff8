//! Windows, the patterns they come in, and their layout on a building's face.
use vstd::prelude::*;
use vstd::arithmetic::div_mod::{
    lemma_div_pos_is_pos, lemma_fundamental_div_mod, lemma_fundamental_div_mod_converse, lemma_mod_bound,
};
use rand::rngs::ThreadRng;
use crate::canvas::Rect;
use crate::constants::WINDOW_MARGIN;
use crate::math::{Dimensions2, Point2};
use crate::random::draw_u32;

verus! {

/// A window on a building's face, placed in the building's own coordinates:
/// `(0, 0)` is the building's top-left corner and `y` grows downward.
pub struct Window {
    position: Point2<u32>,
    dimensions: Dimensions2<u32>,
}

impl View for Window {
    type V = Rect;

    /// The rectangle that the window occupies on the building's face.
    closed spec fn view(&self) -> Rect {
        Rect {
            left: self.position.spec_x() as int,
            top: self.position.spec_y() as int,
            width: self.dimensions.spec_width() as int,
            height: self.dimensions.spec_height() as int,
        }
    }
}

impl Window {
    pub fn new(position: Point2<u32>, dimensions: Dimensions2<u32>) -> (window: Self)
        ensures
            window@ == (Rect {
                left: position.spec_x() as int,
                top: position.spec_y() as int,
                width: dimensions.spec_width() as int,
                height: dimensions.spec_height() as int,
            }),
    {
        Self { position, dimensions }
    }

    /// The window's top-left corner.
    pub fn position(&self) -> (position: &Point2<u32>)
        ensures
            position.spec_x() == self@.left,
            position.spec_y() == self@.top,
    {
        &self.position
    }

    /// The window's size.
    pub fn dimensions(&self) -> (dimensions: &Dimensions2<u32>)
        ensures
            dimensions.spec_width() == self@.width,
            dimensions.spec_height() == self@.height,
    {
        &self.dimensions
    }
}

/// The layouts that a building's windows come in.
#[derive(Clone, Copy, Debug, PartialEq, Eq, Structural)]
pub enum WindowType {
    /// [     ]
    /// [     ]
    TwoByTwo,
    /// [ ] [ ]
    /// [ ] [ ]
    OneByTwo,
    /// [     ]
    TwoByOne,
    /// [ ] [ ]
    OneByOne,
}

/// The number of window patterns.
pub const WINDOW_TYPE_COUNT: u32 = 4;

/// `value`, or 0 if it is negative.
pub open spec fn at_least_zero(value: int) -> int {
    if value < 0 {
        0
    } else {
        value
    }
}

impl WindowType {
    /// How many windows of this pattern stand side by side in one row.
    pub open spec fn spec_per_row(self) -> int {
        match self {
            WindowType::TwoByTwo | WindowType::TwoByOne => 1,
            WindowType::OneByTwo | WindowType::OneByOne => 2,
        }
    }

    /// The `(height, width)` of one window of this pattern on a building of
    /// the given width. A building too narrow for the margins gets a size of 0.
    pub open spec fn window_size(self, building_width: int, margin: int) -> (int, int) {
        let wide = at_least_zero(building_width - 2 * margin);
        let narrow = at_least_zero(building_width - 3 * margin) / 2;
        match self {
            WindowType::TwoByTwo => (wide, wide),
            WindowType::OneByTwo => (narrow * 2, narrow),
            WindowType::TwoByOne => (wide / 2, wide),
            WindowType::OneByOne => (narrow, narrow),
        }
    }

    /// The least building width on which a window of this pattern has a
    /// positive height and width.
    pub open spec fn min_viable_width(self, margin: int) -> int {
        match self {
            WindowType::TwoByTwo => 2 * margin + 1,
            WindowType::TwoByOne => 2 * margin + 2,
            WindowType::OneByTwo | WindowType::OneByOne => 3 * margin + 2,
        }
    }

    /// The pattern with the given number; numbers past the last pattern give
    /// the last pattern.
    pub open spec fn spec_from_index(index: u32) -> WindowType {
        if index == 0 {
            WindowType::TwoByTwo
        } else if index == 1 {
            WindowType::OneByTwo
        } else if index == 2 {
            WindowType::TwoByOne
        } else {
            WindowType::OneByOne
        }
    }

    /// For a building with the given width and window margin, return the size
    /// that a window of this pattern should be.
    pub fn dimensions_with_margin(&self, building_width: u32, margin: u32) -> (size: Dimensions2<u32>)
        ensures
            size.spec_height() == self.window_size(building_width as int, margin as int).0,
            size.spec_width() == self.window_size(building_width as int, margin as int).1,
    {
        let total: u64 = building_width as u64;
        let gap: u64 = margin as u64;
        let wide: u64 = if total >= 2 * gap {
            total - 2 * gap
        } else {
            0
        };
        let narrow: u64 = if total >= 3 * gap {
            (total - 3 * gap) / 2
        } else {
            0
        };
        let (height, width): (u64, u64) = match *self {
            WindowType::TwoByTwo => (wide, wide),
            WindowType::OneByTwo => (narrow * 2, narrow),
            WindowType::TwoByOne => (wide / 2, wide),
            WindowType::OneByOne => (narrow, narrow),
        };
        Dimensions2::new(height as u32, width as u32)
    }

    /// For a building with the given width, return the size that a window of
    /// this pattern should be under the default window margin.
    pub fn dimensions_for(&self, building_width: u32) -> (size: Dimensions2<u32>)
        ensures
            size.spec_height() == self.window_size(building_width as int, WINDOW_MARGIN as int).0,
            size.spec_width() == self.window_size(building_width as int, WINDOW_MARGIN as int).1,
    {
        self.dimensions_with_margin(building_width, WINDOW_MARGIN)
    }

    /// How many windows of this pattern stand side by side in one row.
    pub fn per_row(&self) -> (count: u32)
        ensures
            count == self.spec_per_row(),
    {
        match *self {
            WindowType::TwoByTwo | WindowType::TwoByOne => 1,
            WindowType::OneByTwo | WindowType::OneByOne => 2,
        }
    }

    /// The pattern with the given number; numbers past the last pattern give
    /// the last pattern.
    pub fn from_index(index: u32) -> (pattern: WindowType)
        ensures
            pattern == Self::spec_from_index(index),
    {
        match index {
            0 => WindowType::TwoByTwo,
            1 => WindowType::OneByTwo,
            2 => WindowType::TwoByOne,
            _ => WindowType::OneByOne,
        }
    }

    /// Draws one of the patterns from the random source.
    pub fn sample(rng: &mut ThreadRng) -> (pattern: WindowType)
        ensures
            exists|index: u32| index < WINDOW_TYPE_COUNT && pattern == Self::spec_from_index(index),
    {
        let index: u32 = draw_u32(rng, 0, WINDOW_TYPE_COUNT);
        Self::from_index(index)
    }

    /// A window has a positive height and width exactly on the buildings that
    /// are at least as wide as the pattern's minimum viable width.
    pub proof fn lemma_viable_width(self, building_width: int, margin: int)
        requires
            0 <= margin,
        ensures
            building_width >= self.min_viable_width(margin) <==> (self.window_size(
                building_width,
                margin,
            ).0 > 0 && self.window_size(building_width, margin).1 > 0),
            self.window_size(building_width, margin).0 >= 0,
            self.window_size(building_width, margin).1 >= 0,
    {
    }
}

/// The number of window rows on a face of the given height: rows start at
/// `margin`, follow each other at a distance of `window_height + margin`, and
/// every row that starts above the building's bottom edge is laid out.
pub open spec fn row_count(building_height: int, margin: int, window_height: int) -> int {
    if window_height <= 0 || margin < 0 || building_height <= margin {
        0
    } else {
        (building_height - margin - 1) / (window_height + margin) + 1
    }
}

/// The window with number `index` of a layout, counted row by row from the
/// top and from left to right within a row.
pub open spec fn window_at(pattern: WindowType, building_width: int, margin: int, index: int) -> Rect {
    let (height, width) = pattern.window_size(building_width, margin);
    let row = index / pattern.spec_per_row();
    let column = index % pattern.spec_per_row();
    Rect {
        left: margin + column * (width + margin),
        top: margin + row * (height + margin),
        width,
        height,
    }
}

/// The number of windows on a building's face.
pub open spec fn window_count(
    pattern: WindowType,
    building_width: int,
    building_height: int,
    margin: int,
) -> int {
    let (height, width) = pattern.window_size(building_width, margin);
    if height <= 0 || width <= 0 {
        0
    } else {
        row_count(building_height, margin, height) * pattern.spec_per_row()
    }
}

/// The windows of a building's face in the order of their generation: row by
/// row from the top, and from left to right within a row.
pub open spec fn layout(
    pattern: WindowType,
    building_width: int,
    building_height: int,
    margin: int,
) -> Seq<Rect> {
    Seq::new(
        window_count(pattern, building_width, building_height, margin) as nat,
        |index: int| window_at(pattern, building_width, margin, index),
    )
}

/// The rectangles of a sequence of windows.
pub open spec fn rects_of(windows: Seq<Window>) -> Seq<Rect> {
    Seq::new(windows.len(), |index: int| windows[index]@)
}

/// The quotient of a division is the number of whole steps below the dividend.
proof fn lemma_rows_so_far(reach: int, step: int, rows: int)
    requires
        0 < step,
        0 <= rows,
        rows * step <= reach < (rows + 1) * step,
    ensures
        reach / step == rows,
{
    let rest = reach - rows * step;
    assert(0 <= rest < step) by (nonlinear_arith)
        requires
            rest == reach - rows * step,
            rows * step <= reach < (rows + 1) * step,
    ;
    lemma_fundamental_div_mod_converse(reach, step, rows, rest);
}

/// The top edge of every row that is laid out lies above the building's
/// bottom edge.
proof fn lemma_row_starts_inside(building_height: int, margin: int, window_height: int, row: int)
    requires
        0 <= margin,
        0 < window_height,
        0 <= row < row_count(building_height, margin, window_height),
    ensures
        margin + row * (window_height + margin) < building_height,
        margin + row * (window_height + margin) <= margin + (row_count(
            building_height,
            margin,
            window_height,
        ) - 1) * (window_height + margin),
{
    let step = window_height + margin;
    let reach = building_height - margin - 1;
    let last = reach / step;
    lemma_fundamental_div_mod(reach, step);
    lemma_mod_bound(reach, step);
    assert(row * step <= last * step) by (nonlinear_arith)
        requires
            0 <= row <= last,
            0 < step,
    ;
    assert(step * last == last * step) by (nonlinear_arith);
}

/// The row and the column of a window, from its number in the layout.
proof fn lemma_window_row_and_column(
    pattern: WindowType,
    building_width: int,
    building_height: int,
    margin: int,
    index: int,
)
    requires
        0 <= margin,
        0 <= index < window_count(pattern, building_width, building_height, margin),
    ensures
        0 <= index / pattern.spec_per_row() < row_count(
            building_height,
            margin,
            pattern.window_size(building_width, margin).0,
        ),
        0 <= index % pattern.spec_per_row() < pattern.spec_per_row(),
        0 < pattern.window_size(building_width, margin).0,
        0 < pattern.window_size(building_width, margin).1,
{
    let rows = row_count(building_height, margin, pattern.window_size(building_width, margin).0);
    let per_row = pattern.spec_per_row();
    assert(rows * per_row == if per_row == 1 { rows } else { rows + rows }) by (nonlinear_arith)
        requires
            per_row == 1 || per_row == 2,
    ;
}

/// On a building narrower than the pattern's minimum viable width no window
/// is laid out, whatever the building's height.
pub proof fn lemma_too_narrow_has_no_windows(
    pattern: WindowType,
    building_width: int,
    building_height: int,
    margin: int,
)
    requires
        0 <= margin,
        building_width < pattern.min_viable_width(margin),
    ensures
        layout(pattern, building_width, building_height, margin) == Seq::<Rect>::empty(),
{
    pattern.lemma_viable_width(building_width, margin);
    assert(layout(pattern, building_width, building_height, margin) =~= Seq::<Rect>::empty());
}

/// On a building at least as wide as the pattern's minimum viable width and
/// taller than the margin, at least one window is laid out.
pub proof fn lemma_wide_enough_has_windows(
    pattern: WindowType,
    building_width: int,
    building_height: int,
    margin: int,
)
    requires
        0 <= margin < building_height,
        building_width >= pattern.min_viable_width(margin),
    ensures
        layout(pattern, building_width, building_height, margin).len() > 0,
{
    pattern.lemma_viable_width(building_width, margin);
    let height = pattern.window_size(building_width, margin).0;
    let step = height + margin;
    let reach = building_height - margin - 1;
    lemma_div_pos_is_pos(reach, step);
}

/// Every window of a layout has a positive size, starts inside the building's
/// face and ends at or before the face's right edge.
pub proof fn lemma_windows_start_inside(
    pattern: WindowType,
    building_width: int,
    building_height: int,
    margin: int,
    index: int,
)
    requires
        0 <= margin,
        0 <= index < layout(pattern, building_width, building_height, margin).len(),
    ensures
        ({
            let window = layout(pattern, building_width, building_height, margin)[index];
            &&& 0 < window.width
            &&& 0 < window.height
            &&& 0 <= window.left
            &&& window.left + window.width <= building_width
            &&& 0 <= window.top < building_height
        }),
{
    let (height, width) = pattern.window_size(building_width, margin);
    let row = index / pattern.spec_per_row();
    let column = index % pattern.spec_per_row();
    lemma_window_row_and_column(pattern, building_width, building_height, margin, index);
    lemma_row_starts_inside(building_height, margin, height, row);
    assert(column * (width + margin) == if column == 0 { 0 } else { width + margin }) by (nonlinear_arith)
        requires
            column == 0 || column == 1,
    ;
    assert(0 <= row * (height + margin)) by (nonlinear_arith)
        requires
            0 <= row,
            0 <= height + margin,
    ;
}

/// On a building at least as wide as the pattern's minimum viable width and
/// taller than the margin, whose last row of windows ends at or above the
/// bottom edge, the layout is not empty and every window lies within the
/// building's face.
pub proof fn lemma_windows_within_building(
    pattern: WindowType,
    building_width: int,
    building_height: int,
    margin: int,
)
    requires
        0 <= margin < building_height,
        building_width >= pattern.min_viable_width(margin),
        ({
            let height = pattern.window_size(building_width, margin).0;
            let rows = row_count(building_height, margin, height);
            margin + (rows - 1) * (height + margin) + height <= building_height
        }),
    ensures
        layout(pattern, building_width, building_height, margin).len() > 0,
        forall|index: int|
            0 <= index < layout(pattern, building_width, building_height, margin).len() ==> (
            #[trigger] layout(pattern, building_width, building_height, margin)[index]).within(
                Rect { left: 0, top: 0, width: building_width, height: building_height },
            ),
{
    lemma_wide_enough_has_windows(pattern, building_width, building_height, margin);
    let windows = layout(pattern, building_width, building_height, margin);
    let height = pattern.window_size(building_width, margin).0;
    assert forall|index: int| 0 <= index < windows.len() implies (#[trigger] windows[index]).within(
        Rect { left: 0, top: 0, width: building_width, height: building_height },
    ) by {
        lemma_windows_start_inside(pattern, building_width, building_height, margin, index);
        lemma_window_row_and_column(pattern, building_width, building_height, margin, index);
        lemma_row_starts_inside(building_height, margin, height, index / pattern.spec_per_row());
    }
}


/// Lays out the windows of a building's face.
///
/// The pattern and the building's width give the size of one window. If that
/// size is zero in either dimension, no window is laid out. Otherwise rows of
/// windows start at `y = margin` and follow each other at a distance of the
/// window's height plus `margin` while they start above the building's bottom
/// edge; within a row the windows start at `x = margin` and follow each other
/// at a distance of the window's width plus `margin`.
pub fn layout_windows(
    pattern: WindowType,
    building_width: u32,
    building_height: u32,
    margin: u32,
) -> (windows: Vec<Window>)
    ensures
        rects_of(windows@) == layout(
            pattern,
            building_width as int,
            building_height as int,
            margin as int,
        ),
{
    let mut windows: Vec<Window> = Vec::new();
    let size = pattern.dimensions_with_margin(building_width, margin);
    let ghost expected = layout(
        pattern,
        building_width as int,
        building_height as int,
        margin as int,
    );
    if size.is_zero() {
        assert(rects_of(windows@) =~= expected);
        return windows;
    }
    let height: u32 = size.height();
    let width: u32 = size.width();
    let per_row: u32 = pattern.per_row();
    let step: u64 = height as u64 + margin as u64;
    let stride: u64 = width as u64 + margin as u64;
    let mut y: u64 = margin as u64;
    let ghost mut rows: int = 0;
    while y < building_height as u64
        invariant
            0 < height,
            0 < width,
            (height as int, width as int) == pattern.window_size(
                building_width as int,
                margin as int,
            ),
            per_row == pattern.spec_per_row(),
            step == height + margin,
            stride == width + margin,
            0 <= rows,
            y == margin + rows * step,
            y <= building_height + step,
            rows > 0 ==> margin + (rows - 1) * step < building_height,
            windows@.len() == rows * per_row,
            forall|index: int|
                0 <= index < windows@.len() ==> (#[trigger] windows@[index])@ == window_at(
                    pattern,
                    building_width as int,
                    margin as int,
                    index,
                ),
        decreases building_height + step - y,
    {
        let mut x: u64 = margin as u64;
        let mut column: u32 = 0;
        while column < per_row
            invariant
                0 < height,
                0 < width,
                (height as int, width as int) == pattern.window_size(
                    building_width as int,
                    margin as int,
                ),
                per_row == pattern.spec_per_row(),
                stride == width + margin,
                step == height + margin,
                0 <= rows,
                y == margin + rows * step,
                y < building_height,
                column <= per_row,
                x == margin + column * stride,
                windows@.len() == rows * per_row + column,
                forall|index: int|
                    0 <= index < windows@.len() ==> (#[trigger] windows@[index])@ == window_at(
                        pattern,
                        building_width as int,
                        margin as int,
                        index,
                    ),
            decreases per_row - column,
        {
            proof {
                let index = rows * per_row + column;
                assert(index / (per_row as int) == rows && index % (per_row as int) == column as int) by {
                    lemma_fundamental_div_mod_converse(index, per_row as int, rows, column as int);
                }
                assert(column * stride == if column == 0 { 0 } else { stride as int }) by (nonlinear_arith)
                    requires
                        column == 0 || column == 1,
                ;
                assert(x + width <= building_width);
                assert((column + 1) * stride == column * stride + stride) by (nonlinear_arith);
            }
            let window = Window::new(Point2::new(x as u32, y as u32), Dimensions2::new(height, width));
            windows.push(window);
            x = x + stride;
            column = column + 1;
        }
        proof {
            assert((rows + 1) * step == rows * step + step) by (nonlinear_arith);
            assert((rows + 1) * per_row == rows * per_row + per_row) by (nonlinear_arith);
            rows = rows + 1;
        }
        y = y + step;
    }
    proof {
        if building_height <= margin {
            assert(rows == 0);
        } else {
            assert(rows > 0);
            lemma_rows_so_far(building_height - margin - 1, step as int, rows - 1);
        }
        assert(rows == row_count(building_height as int, margin as int, height as int));
        assert(rects_of(windows@) =~= expected);
    }
    windows
}

} // verus!
