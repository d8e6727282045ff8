//! The skyline: buildings placed across the canvas and drawn in random order.
use vstd::prelude::*;
use std::ops::Range;
use rand::rngs::ThreadRng;
use rand::seq::SliceRandom;
use crate::building::{sizes_can_be_drawn, Building, GenerateOpts};
use crate::building::RenderOpts as BuildingRenderOpts;
use crate::canvas::{Canvas, Raster};
use crate::common::Color;
use crate::math::Dimensions2;
use crate::random::draw_i32;
use crate::window::{at_least_zero, layout, rects_of, WindowType};

verus! {

/// Parameters for [`render`].
pub struct RenderOpts<'a> {
    /// The canvas to render to.
    pub image: &'a mut Canvas,
    /// Random number generator to use.
    pub rng: &'a mut ThreadRng,
    /// The pixel width of the building's drawn borders.
    pub building_border_thickness: u32,
    /// The range of offsets to randomize amongst when placing buildings.
    pub building_offset_range: Range<i32>,
    /// The range of sizes to randomize amongst when sizing buildings.
    pub building_size_range: Dimensions2<Range<u32>>,
    /// The pixel width of the windows' drawn borders.
    pub window_border_thickness: u32,
    /// The distance between windows and the edge of the building.
    pub window_margin: u32,
    /// The colors to choose from when drawing the building.
    pub color_opts: &'a [Color],
}

/// The two draws that place one building: its horizontal offset from the
/// cursor and its width.
pub struct Step {
    pub offset: int,
    pub width: int,
}

/// The cursor after the first `count` placements. Each placement moves the
/// cursor by the building's width plus its offset, so that the offset counts
/// twice: once for the building's position and once for the cursor.
pub open spec fn cursor_after(steps: Seq<Step>, count: int) -> int
    decreases count,
{
    if count <= 0 {
        0
    } else {
        cursor_after(steps, count - 1) + steps[count - 1].width + steps[count - 1].offset
    }
}

/// The column of a building placed at `offset` from the cursor: columns left
/// of the canvas become column 0.
pub open spec fn position_from(cursor: int, offset: int) -> int {
    at_least_zero(cursor + offset)
}

/// The column at which a building is placed when the cursor stands at
/// `cursor` and `offset` was drawn.
pub fn next_position(cursor: u32, offset: i32) -> (position: u64)
    ensures
        position == position_from(cursor as int, offset as int),
{
    let column: i64 = cursor as i64 + offset as i64;
    if column < 0 {
        0
    } else {
        column as u64
    }
}

/// The cursor after placing a building of the given width at `offset`.
pub fn next_cursor(cursor: u32, building_width: u32, offset: i32) -> (next: i64)
    ensures
        next == cursor + building_width + offset,
{
    cursor as i64 + building_width as i64 + offset as i64
}

/// Whether a building may come from the draws of `step`: the offset and the
/// width lie in their ranges, the height lies in its range, the windows are
/// the layout of one of the patterns on a face of the drawn width, and the
/// color is one of the palette.
pub open spec fn drawn_as(
    building: Building,
    step: Step,
    offset_range: Range<i32>,
    size_range: Dimensions2<Range<u32>>,
    window_margin: u32,
    palette: Seq<Color>,
) -> bool {
    &&& offset_range.start <= step.offset < offset_range.end
    &&& size_range.spec_width().start <= step.width < size_range.spec_width().end
    &&& size_range.spec_height().start <= building.dimensions.spec_height()
        < size_range.spec_height().end
    &&& exists|pattern: WindowType|
        rects_of(building.windows@) == layout(
            pattern,
            step.width,
            building.dimensions.spec_height() as int,
            window_margin as int,
        )
    &&& exists|index: int| 0 <= index < palette.len() && building.color == palette[index]
}

/// Whether the buildings stand where the steps put them: building `k` is
/// placed while the cursor is still on the canvas, at its offset from the
/// cursor, and on the canvas itself.
pub open spec fn follows_steps(buildings: Seq<Building>, steps: Seq<Step>, canvas_width: int) -> bool {
    &&& steps.len() == buildings.len()
    &&& forall|k: int| 0 <= k < buildings.len() ==> #[trigger] cursor_after(steps, k) < canvas_width
    &&& forall|k: int|
        0 <= k < buildings.len() ==> (#[trigger] buildings[k]).x == position_from(
            cursor_after(steps, k),
            steps[k].offset,
        )
    &&& forall|k: int| 0 <= k < buildings.len() ==> (#[trigger] buildings[k]).x < canvas_width
}

/// Whether each of the first `count` buildings has the width that was drawn for it.
pub open spec fn keeps_widths(buildings: Seq<Building>, steps: Seq<Step>, count: int) -> bool {
    forall|k: int|
        0 <= k < count ==> (#[trigger] buildings[k]).dimensions.spec_width() == steps[k].width
}

/// Whether placing stops after `steps`: the cursor has left the canvas, or an
/// offset of the range puts the next building past the canvas's right edge.
pub open spec fn stops_after(steps: Seq<Step>, canvas_width: int, offset_range: Range<i32>) -> bool {
    let cursor = cursor_after(steps, steps.len() as int);
    cursor >= canvas_width || exists|offset: int|
        offset_range.start <= offset < offset_range.end && #[trigger] position_from(cursor, offset)
            >= canvas_width
}

/// Whether `buildings` is a skyline composed from `steps` for a canvas of the
/// given width: every building is placed by its step and comes from its
/// draws, placing stops after the last one, every building but the last has
/// its drawn width, and the last one ends one column before the canvas's
/// right edge.
pub open spec fn is_skyline(
    buildings: Seq<Building>,
    steps: Seq<Step>,
    canvas_width: int,
    offset_range: Range<i32>,
    size_range: Dimensions2<Range<u32>>,
    window_margin: u32,
    palette: Seq<Color>,
) -> bool {
    &&& follows_steps(buildings, steps, canvas_width)
    &&& forall|k: int|
        0 <= k < buildings.len() ==> drawn_as(
            #[trigger] buildings[k],
            steps[k],
            offset_range,
            size_range,
            window_margin,
            palette,
        )
    &&& stops_after(steps, canvas_width, offset_range)
    &&& keeps_widths(buildings, steps, buildings.len() - 1)
    &&& buildings.len() > 0 ==> buildings.last().x + buildings.last().dimensions.spec_width()
        == canvas_width - 1
}

/// The cursor after `count` placements depends on the first `count` steps only.
proof fn lemma_cursor_of_prefix(longer: Seq<Step>, shorter: Seq<Step>, count: int)
    requires
        count <= shorter.len() <= longer.len(),
        forall|k: int| 0 <= k < shorter.len() ==> longer[k] == shorter[k],
    ensures
        cursor_after(longer, count) == cursor_after(shorter, count),
    decreases count,
{
    if count > 0 {
        lemma_cursor_of_prefix(longer, shorter, count - 1);
    }
}

/// Makes the last building end one column before the canvas's right edge,
/// whatever width was drawn for it. Nothing happens to an empty skyline.
pub fn close_skyline(buildings: &mut Vec<Building>, canvas_width: u32)
    requires
        old(buildings)@.len() > 0 ==> old(buildings)@.last().x < canvas_width,
    ensures
        final(buildings)@.len() == old(buildings)@.len(),
        forall|k: int|
            0 <= k < old(buildings)@.len() - 1 ==> final(buildings)@[k] == old(buildings)@[k],
        old(buildings)@.len() > 0 ==> {
            let before = old(buildings)@.last();
            let after = final(buildings)@.last();
            &&& after.x == before.x
            &&& after.color == before.color
            &&& after.windows == before.windows
            &&& after.dimensions.spec_height() == before.dimensions.spec_height()
            &&& after.dimensions.spec_width() == canvas_width - before.x - 1
        },
{
    match buildings.pop() {
        Some(mut last) => {
            *last.dimensions.width_mut() = canvas_width - last.x - 1;
            buildings.push(last);
        },
        None => {},
    }
}

/// Calls `SliceRandom::shuffle`, which reorders the buildings by swapping
/// pairs of them: the same buildings come out, in an order that is not
/// specified.
#[verifier::external_body]
fn shuffle_buildings(buildings: &mut Vec<Building>, rng: &mut ThreadRng)
    ensures
        final(buildings)@.to_multiset() == old(buildings)@.to_multiset(),
{
    buildings.shuffle(rng)
}

/// Puts the buildings into a random draw order: the same buildings, each as
/// it was, in an order left to chance.
pub fn shuffle_draw_order(buildings: &mut Vec<Building>, rng: &mut ThreadRng)
    ensures
        final(buildings)@.to_multiset() == old(buildings)@.to_multiset(),
        final(buildings)@.len() == old(buildings)@.len(),
{
    proof {
        old(buildings)@.to_multiset_ensures();
    }
    shuffle_buildings(buildings, rng);
    proof {
        buildings@.to_multiset_ensures();
    }
}

/// Whether the draws of a skyline can be made and placing comes to an end:
/// no range is empty, the palette holds a color, and even the narrowest
/// building at the leftmost offset moves the cursor to the right.
pub open spec fn can_compose(
    offset_range: Range<i32>,
    size_range: Dimensions2<Range<u32>>,
    palette: Seq<Color>,
) -> bool {
    &&& offset_range.start < offset_range.end
    &&& sizes_can_be_drawn(size_range)
    &&& palette.len() > 0
    &&& size_range.spec_width().start + offset_range.start >= 1
}

/// Tells whether a skyline can be composed from the given ranges and palette.
pub fn check_compose(
    offset_range: &Range<i32>,
    size_range: &Dimensions2<Range<u32>>,
    color_opts: &[Color],
) -> (ready: bool)
    ensures
        ready == can_compose(*offset_range, *size_range, color_opts@),
{
    let heights = size_range.height_ref();
    let widths = size_range.width_ref();
    offset_range.start < offset_range.end && heights.start < heights.end && widths.start
        < widths.end && color_opts.len() > 0 && widths.start as i64 + offset_range.start as i64 >= 1
}

/// Places buildings from the left edge of a canvas of the given width to its
/// right edge.
///
/// The cursor starts at column 0. While it is on the canvas, an offset is
/// drawn and a building is generated at that offset from the cursor, unless
/// that column is past the canvas's right edge, where placing stops; the
/// cursor then moves by the building's width plus the offset. At the end the
/// last building is made to end one column before the right edge.
pub fn place_buildings(
    rng: &mut ThreadRng,
    canvas_width: u32,
    offset_range: &Range<i32>,
    size_range: &Dimensions2<Range<u32>>,
    window_margin: u32,
    color_opts: &[Color],
) -> (buildings: Vec<Building>)
    requires
        can_compose(*offset_range, *size_range, color_opts@),
    ensures
        exists|steps: Seq<Step>|
            is_skyline(
                buildings@,
                steps,
                canvas_width as int,
                *offset_range,
                *size_range,
                window_margin,
                color_opts@,
            ),
{
    let mut cursor: u64 = 0;
    let mut buildings: Vec<Building> = Vec::new();
    let ghost mut steps: Seq<Step> = Seq::empty();
    while cursor < canvas_width as u64
        invariant
            can_compose(*offset_range, *size_range, color_opts@),
            cursor == cursor_after(steps, steps.len() as int),
            follows_steps(buildings@, steps, canvas_width as int),
            keeps_widths(buildings@, steps, buildings@.len() as int),
            forall|k: int|
                0 <= k < buildings@.len() ==> drawn_as(
                    #[trigger] buildings@[k],
                    steps[k],
                    *offset_range,
                    *size_range,
                    window_margin,
                    color_opts@,
                ),
        ensures
            stops_after(steps, canvas_width as int, *offset_range),
        decreases at_least_zero(canvas_width - cursor),
    {
        let offset: i32 = draw_i32(rng, offset_range.start, offset_range.end);
        let position: u64 = next_position(cursor as u32, offset);
        if position >= canvas_width as u64 {
            assert(position_from(cursor as int, offset as int) >= canvas_width);
            break;
        }
        let heights = size_range.height_ref();
        let widths = size_range.width_ref();
        let building = Building::generate(
            GenerateOpts {
                rng,
                x: position as u32,
                size_range: Dimensions2::new(heights.start..heights.end, widths.start..widths.end),
                window_margin,
                color_opts,
            },
        );
        let width: u32 = building.dimensions.width();
        let ghost step = Step { offset: offset as int, width: width as int };
        let ghost earlier = steps;
        let ghost placed = buildings@;
        let next: i64 = next_cursor(cursor as u32, width, offset);
        proof {
            steps = steps.push(step);
            assert forall|k: int| 0 <= k <= earlier.len() implies cursor_after(steps, k)
                == cursor_after(earlier, k) by {
                lemma_cursor_of_prefix(steps, earlier, k);
            }
            assert(drawn_as(building, step, *offset_range, *size_range, window_margin, color_opts@)) by {
                let pattern = choose|pattern: WindowType| building.has_layout(pattern, window_margin);
                assert(rects_of(building.windows@) == layout(
                    pattern,
                    step.width,
                    building.dimensions.spec_height() as int,
                    window_margin as int,
                ));
            }
        }
        buildings.push(building);
        cursor = next as u64;
        proof {
            assert forall|k: int| 0 <= k < buildings@.len() implies drawn_as(
                #[trigger] buildings@[k],
                steps[k],
                *offset_range,
                *size_range,
                window_margin,
                color_opts@,
            ) by {
                if k < placed.len() {
                    assert(buildings@[k] == placed[k]);
                }
            }
            assert forall|k: int| 0 <= k < buildings@.len() implies (#[trigger] buildings@[k]).x
                == position_from(cursor_after(steps, k), steps[k].offset) && buildings@[k].x
                < canvas_width && buildings@[k].dimensions.spec_width() == steps[k].width by {
                if k < placed.len() {
                    assert(buildings@[k] == placed[k]);
                }
            }
        }
    }
    let ghost drawn = buildings@;
    proof {
        if buildings@.len() > 0 {
            assert(buildings@.last() == buildings@[buildings@.len() - 1]);
        }
    }
    close_skyline(&mut buildings, canvas_width);
    proof {
        assert forall|k: int| 0 <= k < buildings@.len() implies drawn_as(
            #[trigger] buildings@[k],
            steps[k],
            *offset_range,
            *size_range,
            window_margin,
            color_opts@,
        ) by {
            assert(drawn_as(
                drawn[k],
                steps[k],
                *offset_range,
                *size_range,
                window_margin,
                color_opts@,
            ));
            if k == buildings@.len() - 1 {
                assert(buildings@[k] == buildings@.last());
                assert(drawn[k] == drawn.last());
                let pattern = choose|pattern: WindowType|
                    rects_of(drawn[k].windows@) == layout(
                        pattern,
                        steps[k].width,
                        drawn[k].dimensions.spec_height() as int,
                        window_margin as int,
                    );
                assert(rects_of(buildings@[k].windows@) == layout(
                    pattern,
                    steps[k].width,
                    buildings@[k].dimensions.spec_height() as int,
                    window_margin as int,
                ));
            }
        }
        assert forall|k: int| 0 <= k < buildings@.len() implies (#[trigger] buildings@[k]).x
            == position_from(cursor_after(steps, k), steps[k].offset) && buildings@[k].x
            < canvas_width by {
            assert(drawn[k].x == position_from(cursor_after(steps, k), steps[k].offset));
            if k == buildings@.len() - 1 {
                assert(buildings@[k] == buildings@.last());
                assert(drawn[k] == drawn.last());
            }
        }
        assert(keeps_widths(buildings@, steps, buildings@.len() - 1)) by {
            assert forall|k: int| 0 <= k < buildings@.len() - 1 implies (
            #[trigger] buildings@[k]).dimensions.spec_width() == steps[k].width by {
                assert(drawn[k].dimensions.spec_width() == steps[k].width);
            }
        }
        assert(is_skyline(
            buildings@,
            steps,
            canvas_width as int,
            *offset_range,
            *size_range,
            window_margin,
            color_opts@,
        ));
    }
    buildings
}

/// The canvas after rendering the first `count` buildings of `order` one
/// after the other: a later building paints over an earlier one.
pub open spec fn paint_all(
    raster: Raster,
    order: Seq<Building>,
    count: int,
    building_border: int,
    window_border: int,
) -> Raster
    decreases count,
{
    if count <= 0 {
        raster
    } else {
        order[count - 1].painted(
            paint_all(raster, order, count - 1, building_border, window_border),
            building_border,
            window_border,
        )
    }
}

/// Renders the buildings onto the canvas in the order of the vector.
pub fn render_buildings(
    image: &mut Canvas,
    buildings: &Vec<Building>,
    building_border_thickness: u32,
    window_border_thickness: u32,
)
    ensures
        final(image)@ == paint_all(
            old(image)@,
            buildings@,
            buildings@.len() as int,
            building_border_thickness as int,
            window_border_thickness as int,
        ),
{
    let ghost start = image@;
    let mut index: usize = 0;
    while index < buildings.len()
        invariant
            index <= buildings@.len(),
            image@ == paint_all(
                start,
                buildings@,
                index as int,
                building_border_thickness as int,
                window_border_thickness as int,
            ),
        decreases buildings@.len() - index,
    {
        buildings[index].render(
            BuildingRenderOpts {
                image,
                building_border_width: building_border_thickness,
                window_border_width: window_border_thickness,
            },
        );
        index = index + 1;
    }
}

/// Whether `after` is `before` with a skyline rendered onto it: `buildings`
/// is a skyline composed from `steps` for the canvas's width, `order` holds
/// the same buildings, and `after` is the canvas after rendering them in that
/// order.
pub open spec fn is_rendering(
    before: Raster,
    after: Raster,
    buildings: Seq<Building>,
    steps: Seq<Step>,
    order: Seq<Building>,
    offset_range: Range<i32>,
    size_range: Dimensions2<Range<u32>>,
    window_margin: u32,
    palette: Seq<Color>,
    building_border: int,
    window_border: int,
) -> bool {
    &&& is_skyline(
        buildings,
        steps,
        before.width as int,
        offset_range,
        size_range,
        window_margin,
        palette,
    )
    &&& order.to_multiset() == buildings.to_multiset()
    &&& after == paint_all(before, order, order.len() as int, building_border, window_border)
}

/// Render a randomized city skyline to the given image.
///
/// Buildings are placed from the left edge to the right edge as
/// [`place_buildings`] does, shuffled, and rendered in the shuffled order, so
/// that which of two overlapping buildings hides the other is left to chance.
pub fn render(opts: RenderOpts<'_>)
    requires
        can_compose(opts.building_offset_range, opts.building_size_range, opts.color_opts@),
    ensures
        exists|buildings: Seq<Building>, steps: Seq<Step>, order: Seq<Building>| #[trigger]
            is_rendering(
                old(opts.image)@,
                final(opts.image)@,
                buildings,
                steps,
                order,
                opts.building_offset_range,
                opts.building_size_range,
                opts.window_margin,
                opts.color_opts@,
                opts.building_border_thickness as int,
                opts.window_border_thickness as int,
            ),
{
    let image = opts.image;
    let ghost start = image@;
    let mut buildings = place_buildings(
        opts.rng,
        image.width(),
        &opts.building_offset_range,
        &opts.building_size_range,
        opts.window_margin,
        opts.color_opts,
    );
    let ghost placed = buildings@;
    let ghost steps = choose|steps: Seq<Step>|
        is_skyline(
            placed,
            steps,
            start.width as int,
            opts.building_offset_range,
            opts.building_size_range,
            opts.window_margin,
            opts.color_opts@,
        );
    // We shuffle the buildings first so that there is randomization in terms
    // of which buildings overlap each other.
    shuffle_draw_order(&mut buildings, opts.rng);
    render_buildings(
        image,
        &buildings,
        opts.building_border_thickness,
        opts.window_border_thickness,
    );
    assert(is_rendering(
        start,
        image@,
        placed,
        steps,
        buildings@,
        opts.building_offset_range,
        opts.building_size_range,
        opts.window_margin,
        opts.color_opts@,
        opts.building_border_thickness as int,
        opts.window_border_thickness as int,
    ));
}

/// The cursor never moves to the left: each placement of a skyline moves it
/// by at least one column.
proof fn lemma_cursor_moves_right(
    buildings: Seq<Building>,
    steps: Seq<Step>,
    canvas_width: int,
    offset_range: Range<i32>,
    size_range: Dimensions2<Range<u32>>,
    window_margin: u32,
    palette: Seq<Color>,
    count: int,
)
    requires
        is_skyline(buildings, steps, canvas_width, offset_range, size_range, window_margin, palette),
        can_compose(offset_range, size_range, palette),
        0 <= count <= buildings.len(),
    ensures
        0 <= cursor_after(steps, count),
        count > 0 ==> cursor_after(steps, count - 1) < cursor_after(steps, count),
    decreases count,
{
    if count > 0 {
        lemma_cursor_moves_right(
            buildings,
            steps,
            canvas_width,
            offset_range,
            size_range,
            window_margin,
            palette,
            count - 1,
        );
        assert(drawn_as(
            buildings[count - 1],
            steps[count - 1],
            offset_range,
            size_range,
            window_margin,
            palette,
        ));
    }
}

/// Whether a column of the canvas stands under one of the buildings.
pub open spec fn is_covered(buildings: Seq<Building>, column: int) -> bool {
    exists|k: int| 0 <= k < buildings.len() && (#[trigger] buildings[k]).covers_column(column)
}

/// A column at or right of the cursor of placement `from` stands under one
/// of the buildings, when no offset points to the right.
proof fn lemma_column_is_covered_from(
    buildings: Seq<Building>,
    steps: Seq<Step>,
    canvas_width: int,
    offset_range: Range<i32>,
    size_range: Dimensions2<Range<u32>>,
    window_margin: u32,
    palette: Seq<Color>,
    column: int,
    from: int,
)
    requires
        is_skyline(buildings, steps, canvas_width, offset_range, size_range, window_margin, palette),
        can_compose(offset_range, size_range, palette),
        offset_range.end <= 1,
        0 <= from < buildings.len(),
        cursor_after(steps, from) <= column < canvas_width - 1,
    ensures
        is_covered(buildings, column),
    decreases buildings.len() - from,
{
    let building = buildings[from];
    lemma_cursor_moves_right(
        buildings,
        steps,
        canvas_width,
        offset_range,
        size_range,
        window_margin,
        palette,
        from,
    );
    assert(drawn_as(building, steps[from], offset_range, size_range, window_margin, palette));
    assert(building.x <= cursor_after(steps, from));
    if from == buildings.len() - 1 {
        assert(building == buildings.last());
        assert(building.covers_column(column));
    } else if column < cursor_after(steps, from + 1) {
        assert(building.dimensions.spec_width() == steps[from].width);
        assert(building.covers_column(column));
    } else {
        lemma_column_is_covered_from(
            buildings,
            steps,
            canvas_width,
            offset_range,
            size_range,
            window_margin,
            palette,
            column,
            from + 1,
        );
    }
}

/// A skyline with a building in it ends exactly one column before the
/// canvas's right edge.
pub proof fn lemma_skyline_reaches_right_edge(
    buildings: Seq<Building>,
    steps: Seq<Step>,
    canvas_width: int,
    offset_range: Range<i32>,
    size_range: Dimensions2<Range<u32>>,
    window_margin: u32,
    palette: Seq<Color>,
)
    requires
        is_skyline(buildings, steps, canvas_width, offset_range, size_range, window_margin, palette),
        buildings.len() > 0,
    ensures
        buildings.last().x + buildings.last().dimensions.spec_width() == canvas_width - 1,
        forall|column: int| buildings.last().covers_column(column) ==> column < canvas_width - 1,
{
}

/// When no offset points to the right, a skyline for a canvas with at least
/// one column has a building in it, and every column from the left edge up to
/// the last building's right edge stands under one of its buildings.
pub proof fn lemma_skyline_covers_canvas(
    buildings: Seq<Building>,
    steps: Seq<Step>,
    canvas_width: int,
    offset_range: Range<i32>,
    size_range: Dimensions2<Range<u32>>,
    window_margin: u32,
    palette: Seq<Color>,
)
    requires
        is_skyline(buildings, steps, canvas_width, offset_range, size_range, window_margin, palette),
        can_compose(offset_range, size_range, palette),
        offset_range.end <= 1,
        0 < canvas_width,
    ensures
        buildings.len() > 0,
        forall|column: int| 0 <= column < canvas_width - 1 ==> #[trigger] is_covered(buildings, column),
{
    assert(buildings.len() > 0) by {
        if buildings.len() == 0 {
            assert(cursor_after(steps, 0) == 0);
            assert(forall|offset: int|
                offset_range.start <= offset < offset_range.end ==> #[trigger] position_from(
                    0,
                    offset,
                ) == 0);
        }
    }
    assert forall|column: int| 0 <= column < canvas_width - 1 implies #[trigger] is_covered(
        buildings,
        column,
    ) by {
        lemma_column_is_covered_from(
            buildings,
            steps,
            canvas_width,
            offset_range,
            size_range,
            window_margin,
            palette,
            column,
            0,
        );
    }
}

} // verus!
