//! The night sky: stars scattered over a grid of cells.
use vstd::prelude::*;
use vstd::arithmetic::div_mod::{lemma_fundamental_div_mod, lemma_fundamental_div_mod_converse};
use rand::rngs::ThreadRng;
use crate::canvas::{Canvas, Raster, Rect};
use crate::common::Color;
use crate::math::{Dimensions2, Vector2};
use crate::random::draw_u32;

verus! {

/// What a cell of the sky holds.
#[derive(Clone, Copy, Debug, PartialEq, Eq, Structural)]
pub enum StarKind {
    /// No star.
    Absent,
    /// A star of one pixel.
    Regular,
    /// A star of two by two pixels.
    Big,
}

impl StarKind {
    /// The side of the star's square in pixels; 0 where there is no star.
    pub open spec fn spec_size(self) -> int {
        match self {
            StarKind::Absent => 0,
            StarKind::Regular => 1,
            StarKind::Big => 2,
        }
    }

    /// The kind of a cell from its two coin flips: whether a star is present,
    /// and if so whether it is a big one.
    pub open spec fn spec_from_flips(present: bool, big: bool) -> StarKind {
        if !present {
            StarKind::Absent
        } else if big {
            StarKind::Big
        } else {
            StarKind::Regular
        }
    }

    /// The kind of a cell from its two coin flips: whether a star is present,
    /// and if so whether it is a big one.
    pub fn from_flips(present: bool, big: bool) -> (kind: StarKind)
        ensures
            kind == Self::spec_from_flips(present, big),
    {
        if !present {
            StarKind::Absent
        } else if big {
            StarKind::Big
        } else {
            StarKind::Regular
        }
    }

    /// The side of the star's square in pixels; 0 where there is no star.
    pub fn size(&self) -> (size: u32)
        ensures
            size == self.spec_size(),
    {
        match *self {
            StarKind::Absent => 0,
            StarKind::Regular => 1,
            StarKind::Big => 2,
        }
    }
}

/// Parameters for [`render`].
pub struct RenderOpts<'a> {
    /// The canvas to render to.
    pub image: &'a mut Canvas,
    /// Random number generator to use.
    pub rng: &'a mut ThreadRng,
    /// The number of cells in each dimension (x, y).
    pub cell_count: Vector2<u32>,
    /// The dimensions of each cell.
    pub cell_size: Dimensions2<u32>,
    /// What each cell holds, row by row from the top and from left to right
    /// within a row.
    pub stars: &'a [StarKind],
    /// The color to render stars with.
    pub star_color: Color,
}

/// The square of a star of the given kind in the cell with number `index`,
/// placed at `offset` from the cell's top-left corner. Cells are numbered row
/// by row, `columns` to a row.
pub open spec fn star_rect(
    index: int,
    columns: int,
    cell_width: int,
    cell_height: int,
    offset: (int, int),
    kind: StarKind,
) -> Rect {
    Rect {
        left: (index % columns) * cell_width + offset.0,
        top: (index / columns) * cell_height + offset.1,
        width: kind.spec_size(),
        height: kind.spec_size(),
    }
}

/// The canvas after placing the stars of the first `count` cells, each at its
/// offset within its cell.
pub open spec fn paint_stars(
    raster: Raster,
    stars: Seq<StarKind>,
    offsets: Seq<(int, int)>,
    columns: int,
    cell_width: int,
    cell_height: int,
    count: int,
    color: Color,
) -> Raster
    decreases count,
{
    if count <= 0 {
        raster
    } else {
        let before = paint_stars(
            raster,
            stars,
            offsets,
            columns,
            cell_width,
            cell_height,
            count - 1,
            color,
        );
        if stars[count - 1] == StarKind::Absent {
            before
        } else {
            before.fill(
                star_rect(
                    count - 1,
                    columns,
                    cell_width,
                    cell_height,
                    offsets[count - 1],
                    stars[count - 1],
                ),
                color,
            )
        }
    }
}

/// Whether each star has an offset that lies within a cell.
pub open spec fn offsets_within_cells(
    stars: Seq<StarKind>,
    offsets: Seq<(int, int)>,
    cell_width: int,
    cell_height: int,
) -> bool {
    &&& offsets.len() == stars.len()
    &&& forall|index: int|
        0 <= index < stars.len() && stars[index] != StarKind::Absent ==> 0 <= (
        #[trigger] offsets[index]).0 < cell_width && 0 <= offsets[index].1 < cell_height
}

/// Whether the star of the cell with number `index` lies on a canvas of the
/// given size wherever it is placed within its cell.
pub open spec fn star_fits(
    index: int,
    kind: StarKind,
    columns: int,
    cell_width: int,
    cell_height: int,
    canvas_width: int,
    canvas_height: int,
) -> bool {
    &&& 0 < cell_width
    &&& 0 < cell_height
    &&& (index % columns) * cell_width + cell_width - 1 + kind.spec_size() <= canvas_width
    &&& (index / columns) * cell_height + cell_height - 1 + kind.spec_size() <= canvas_height
}

/// Whether a grid of cells can be rendered onto a canvas of the given size:
/// there is one entry of `stars` for each cell, and every star lies on the
/// canvas wherever it is placed within its cell.
pub open spec fn grid_fits(
    stars: Seq<StarKind>,
    cell_count: Vector2<u32>,
    cell_size: Dimensions2<u32>,
    canvas_width: int,
    canvas_height: int,
) -> bool {
    &&& stars.len() == cell_count.spec_x() * cell_count.spec_y()
    &&& forall|index: int|
        0 <= index < stars.len() && #[trigger] stars[index] != StarKind::Absent ==> star_fits(
            index,
            stars[index],
            cell_count.spec_x() as int,
            cell_size.spec_width() as int,
            cell_size.spec_height() as int,
            canvas_width,
            canvas_height,
        )
}

/// Generate a random offset to place the star inside its cell.
///
/// Grid-locking the stars would result in a boring effect, this offset
/// generation provides some stagger to the location of each star, even if the
/// algorithm is based on grid cells.
pub fn random_star_offset(cell_size: &Dimensions2<u32>, rng: &mut ThreadRng) -> (offset: Vector2<u32>)
    requires
        0 < cell_size.spec_width(),
        0 < cell_size.spec_height(),
    ensures
        offset.spec_x() < cell_size.spec_width(),
        offset.spec_y() < cell_size.spec_height(),
{
    let x: u32 = draw_u32(rng, 0, cell_size.width());
    let y: u32 = draw_u32(rng, 0, cell_size.height());
    Vector2::new(x, y)
}

/// Writes a square of `star_size` by `star_size` pixels with its top-left
/// corner at `(x, y)`. The square has to lie on the canvas: nothing is clipped.
pub fn place_star(image: &mut Canvas, x: u32, y: u32, star_size: u32, color: Color)
    requires
        x + star_size <= old(image)@.width,
        y + star_size <= old(image)@.height,
    ensures
        final(image)@ == old(image)@.fill(
            Rect {
                left: x as int,
                top: y as int,
                width: star_size as int,
                height: star_size as int,
            },
            color,
        ),
{
    let ghost start = image@;
    let ghost rect = Rect {
        left: x as int,
        top: y as int,
        width: star_size as int,
        height: star_size as int,
    };
    let mut j: u32 = 0;
    assert(image@.pixels =~= start.fill_partly(rect, 0, 0, color).pixels);
    while j < star_size
        invariant
            j <= star_size,
            x + star_size <= start.width,
            y + star_size <= start.height,
            rect == (Rect {
                left: x as int,
                top: y as int,
                width: star_size as int,
                height: star_size as int,
            }),
            image@ == start.fill_partly(rect, j as int, 0, color),
        decreases star_size - j,
    {
        let mut i: u32 = 0;
        while i < star_size
            invariant
                j < star_size,
                i <= star_size,
                x + star_size <= start.width,
                y + star_size <= start.height,
                rect == (Rect {
                    left: x as int,
                    top: y as int,
                    width: star_size as int,
                    height: star_size as int,
                }),
                image@ == start.fill_partly(rect, j as int, i as int, color),
            decreases star_size - i,
        {
            let ghost before = image@;
            image.put_pixel(x + i, y + j, color);
            i = i + 1;
            assert forall|p: (int, int)| start.in_bounds(p.0, p.1) implies image@.pixels[p]
                == start.fill_partly(rect, j as int, i as int, color).pixels[p] by {
                assert(image@.pixels[p] == before.put(x + i - 1, y + j, color).pixels[p]);
                assert(before.pixels[p] == start.fill_partly(rect, j as int, i - 1, color).pixels[p]);
            }
            assert(image@.pixels =~= start.fill_partly(rect, j as int, i as int, color).pixels);
        }
        j = j + 1;
        assert(image@.pixels =~= start.fill_partly(rect, j as int, 0, color).pixels);
    }
    assert(image@.pixels =~= start.fill(rect, color).pixels);
}

/// Places the star of the cell in row `row` and column `column` at `offset`
/// from the cell's top-left corner; a cell without a star is left as it is.
pub fn render_cell(
    image: &mut Canvas,
    row: u32,
    column: u32,
    cell_size: &Dimensions2<u32>,
    offset: &Vector2<u32>,
    kind: StarKind,
    color: Color,
)
    requires
        kind != StarKind::Absent ==> {
            &&& column * cell_size.spec_width() + offset.spec_x() + kind.spec_size() <= old(
                image,
            )@.width
            &&& row * cell_size.spec_height() + offset.spec_y() + kind.spec_size() <= old(
                image,
            )@.height
        },
    ensures
        kind == StarKind::Absent ==> final(image)@ == old(image)@,
        kind != StarKind::Absent ==> final(image)@ == old(image)@.fill(
            Rect {
                left: column * cell_size.spec_width() + offset.spec_x(),
                top: row * cell_size.spec_height() + offset.spec_y(),
                width: kind.spec_size(),
                height: kind.spec_size(),
            },
            color,
        ),
{
    match kind {
        StarKind::Absent => {},
        _ => {
            let ghost width = image@.width;
            let ghost height = image@.height;
            assert(0 <= column * cell_size.spec_width() <= u32::MAX) by (nonlinear_arith)
                requires
                    0 <= column,
                    0 <= cell_size.spec_width(),
                    column * cell_size.spec_width() <= width <= u32::MAX,
            ;
            assert(0 <= row * cell_size.spec_height() <= u32::MAX) by (nonlinear_arith)
                requires
                    0 <= row,
                    0 <= cell_size.spec_height(),
                    row * cell_size.spec_height() <= height <= u32::MAX,
            ;
            let x: u32 = (column * cell_size.width()) + offset.x();
            let y: u32 = (row * cell_size.height()) + offset.y();
            place_star(image, x, y, kind.size(), color);
        },
    }
}

/// The canvas after placing the stars of the first `count` cells depends on
/// the first `count` offsets only.
proof fn lemma_paint_stars_of_prefix(
    raster: Raster,
    stars: Seq<StarKind>,
    longer: Seq<(int, int)>,
    shorter: Seq<(int, int)>,
    columns: int,
    cell_width: int,
    cell_height: int,
    count: int,
    color: Color,
)
    requires
        count <= shorter.len() <= longer.len(),
        forall|k: int| 0 <= k < shorter.len() ==> longer[k] == shorter[k],
    ensures
        paint_stars(raster, stars, longer, columns, cell_width, cell_height, count, color)
            == paint_stars(raster, stars, shorter, columns, cell_width, cell_height, count, color),
    decreases count,
{
    if count > 0 {
        lemma_paint_stars_of_prefix(
            raster,
            stars,
            longer,
            shorter,
            columns,
            cell_width,
            cell_height,
            count - 1,
            color,
        );
    }
}

/// The pixel of a regular star in the cell with number `index`, placed at
/// `offset` from the cell's top-left corner.
pub open spec fn star_pixel(
    index: int,
    columns: int,
    cell_width: int,
    cell_height: int,
    offset: (int, int),
) -> (int, int) {
    ((index % columns) * cell_width + offset.0, (index / columns) * cell_height + offset.1)
}

/// Whether the star of one of the first `count` cells stands at `(x, y)`.
pub open spec fn star_stands_at(
    offsets: Seq<(int, int)>,
    columns: int,
    cell_width: int,
    cell_height: int,
    count: int,
    x: int,
    y: int,
) -> bool {
    exists|k: int|
        0 <= k < count && #[trigger] star_pixel(k, columns, cell_width, cell_height, offsets[k])
            == (x, y)
}

/// Whether `(x, y)` is a pixel of the cell with number `index`.
pub open spec fn in_cell(
    index: int,
    columns: int,
    cell_width: int,
    cell_height: int,
    x: int,
    y: int,
) -> bool {
    &&& (index % columns) * cell_width <= x < (index % columns) * cell_width + cell_width
    &&& (index / columns) * cell_height <= y < (index / columns) * cell_height + cell_height
}

/// After the regular stars of the first `count` cells are placed, a pixel of
/// the canvas has the stars' color where one of them stands, and is as it
/// was everywhere else.
proof fn lemma_regular_stars_show(
    raster: Raster,
    stars: Seq<StarKind>,
    offsets: Seq<(int, int)>,
    columns: int,
    cell_width: int,
    cell_height: int,
    count: int,
    color: Color,
)
    requires
        0 <= count <= stars.len(),
        offsets.len() == stars.len(),
        forall|index: int| 0 <= index < count ==> stars[index] == StarKind::Regular,
    ensures
        paint_stars(raster, stars, offsets, columns, cell_width, cell_height, count, color).width
            == raster.width,
        paint_stars(raster, stars, offsets, columns, cell_width, cell_height, count, color).height
            == raster.height,
        forall|x: int, y: int|
            raster.in_bounds(x, y) ==> #[trigger] paint_stars(
                raster,
                stars,
                offsets,
                columns,
                cell_width,
                cell_height,
                count,
                color,
            ).pixels[(x, y)] == if star_stands_at(
                offsets,
                columns,
                cell_width,
                cell_height,
                count,
                x,
                y,
            ) {
                color
            } else {
                raster.pixels[(x, y)]
            },
    decreases count,
{
    if count > 0 {
        lemma_regular_stars_show(
            raster,
            stars,
            offsets,
            columns,
            cell_width,
            cell_height,
            count - 1,
            color,
        );
        let before = paint_stars(
            raster,
            stars,
            offsets,
            columns,
            cell_width,
            cell_height,
            count - 1,
            color,
        );
        let after = paint_stars(
            raster,
            stars,
            offsets,
            columns,
            cell_width,
            cell_height,
            count,
            color,
        );
        let last = star_pixel(count - 1, columns, cell_width, cell_height, offsets[count - 1]);
        let rect = star_rect(
            count - 1,
            columns,
            cell_width,
            cell_height,
            offsets[count - 1],
            stars[count - 1],
        );
        assert(after == before.fill(rect, color));
        assert forall|x: int, y: int| raster.in_bounds(x, y) implies #[trigger] after.pixels[(x, y)]
            == if star_stands_at(offsets, columns, cell_width, cell_height, count, x, y) {
            color
        } else {
            raster.pixels[(x, y)]
        } by {
            assert(rect.contains(x, y) <==> last == (x, y));
            assert(before.pixels[(x, y)] == if star_stands_at(
                offsets,
                columns,
                cell_width,
                cell_height,
                count - 1,
                x,
                y,
            ) {
                color
            } else {
                raster.pixels[(x, y)]
            });
            if star_stands_at(offsets, columns, cell_width, cell_height, count, x, y) {
                let k = choose|k: int|
                    0 <= k < count && #[trigger] star_pixel(
                        k,
                        columns,
                        cell_width,
                        cell_height,
                        offsets[k],
                    ) == (x, y);
                if k < count - 1 {
                    assert(star_stands_at(
                        offsets,
                        columns,
                        cell_width,
                        cell_height,
                        count - 1,
                        x,
                        y,
                    ));
                }
            } else {
                assert(star_pixel(count - 1, columns, cell_width, cell_height, offsets[count - 1])
                    != (x, y));
                if star_stands_at(offsets, columns, cell_width, cell_height, count - 1, x, y) {
                    let k = choose|k: int|
                        0 <= k < count - 1 && #[trigger] star_pixel(
                            k,
                            columns,
                            cell_width,
                            cell_height,
                            offsets[k],
                        ) == (x, y);
                    assert(0 <= k < count);
                }
            }
        }
    }
}

/// A pixel lies in one cell only: two cells that hold the same pixel have the
/// same number.
proof fn lemma_cells_are_apart(
    first: int,
    second: int,
    columns: int,
    cell_width: int,
    cell_height: int,
    x: int,
    y: int,
)
    requires
        0 <= first,
        0 <= second,
        0 < columns,
        0 < cell_width,
        0 < cell_height,
        in_cell(first, columns, cell_width, cell_height, x, y),
        in_cell(second, columns, cell_width, cell_height, x, y),
    ensures
        first == second,
{
    let a = first % columns;
    let b = second % columns;
    let c = first / columns;
    let d = second / columns;
    assert(a == b) by (nonlinear_arith)
        requires
            0 < cell_width,
            a * cell_width <= x < a * cell_width + cell_width,
            b * cell_width <= x < b * cell_width + cell_width,
    ;
    assert(c == d) by (nonlinear_arith)
        requires
            0 < cell_height,
            c * cell_height <= y < c * cell_height + cell_height,
            d * cell_height <= y < d * cell_height + cell_height,
    ;
    lemma_fundamental_div_mod(first, columns);
    lemma_fundamental_div_mod(second, columns);
}

/// In a sky of regular stars on a canvas that shows the stars' color nowhere,
/// each cell that lies on the canvas shows that color at exactly one pixel:
/// the one where its star stands.
pub proof fn lemma_one_pixel_for_each_regular_star(
    raster: Raster,
    stars: Seq<StarKind>,
    offsets: Seq<(int, int)>,
    columns: int,
    cell_width: int,
    cell_height: int,
    color: Color,
    index: int,
    x: int,
    y: int,
)
    requires
        0 < columns,
        0 < cell_width,
        0 < cell_height,
        forall|k: int| 0 <= k < stars.len() ==> stars[k] == StarKind::Regular,
        offsets_within_cells(stars, offsets, cell_width, cell_height),
        forall|u: int, v: int| raster.in_bounds(u, v) ==> raster.pixels[(u, v)] != color,
        0 <= index < stars.len(),
        in_cell(index, columns, cell_width, cell_height, x, y),
        raster.in_bounds(x, y),
    ensures
        paint_stars(
            raster,
            stars,
            offsets,
            columns,
            cell_width,
            cell_height,
            stars.len() as int,
            color,
        ).pixels[(x, y)] == color <==> (x, y) == star_pixel(
            index,
            columns,
            cell_width,
            cell_height,
            offsets[index],
        ),
{
    let count = stars.len() as int;
    lemma_regular_stars_show(raster, stars, offsets, columns, cell_width, cell_height, count, color);
    if star_stands_at(offsets, columns, cell_width, cell_height, count, x, y) {
        let k = choose|k: int|
            0 <= k < count && #[trigger] star_pixel(
                k,
                columns,
                cell_width,
                cell_height,
                offsets[k],
            ) == (x, y);
        assert(stars[k] != StarKind::Absent);
        assert(0 <= offsets[k].0 < cell_width && 0 <= offsets[k].1 < cell_height);
        assert(in_cell(k, columns, cell_width, cell_height, x, y));
        lemma_cells_are_apart(k, index, columns, cell_width, cell_height, x, y);
    } else {
        assert(star_pixel(index, columns, cell_width, cell_height, offsets[index]) != (x, y));
    }
}

/// A sky without a star leaves the canvas as it was.
pub proof fn lemma_no_stars_changes_nothing(
    raster: Raster,
    stars: Seq<StarKind>,
    offsets: Seq<(int, int)>,
    columns: int,
    cell_width: int,
    cell_height: int,
    count: int,
    color: Color,
)
    requires
        count <= stars.len(),
        forall|index: int| 0 <= index < count ==> stars[index] == StarKind::Absent,
    ensures
        paint_stars(raster, stars, offsets, columns, cell_width, cell_height, count, color)
            == raster,
    decreases count,
{
    if count > 0 {
        lemma_no_stars_changes_nothing(
            raster,
            stars,
            offsets,
            columns,
            cell_width,
            cell_height,
            count - 1,
            color,
        );
    }
}

/// Tells whether [`render`] can place the given stars on the canvas: whether
/// there is one entry for each cell and every star lies on the canvas
/// wherever it is placed within its cell.
pub fn check_grid(
    image: &Canvas,
    cell_count: &Vector2<u32>,
    cell_size: &Dimensions2<u32>,
    stars: &[StarKind],
) -> (fits: bool)
    ensures
        fits == grid_fits(
            stars@,
            *cell_count,
            *cell_size,
            image@.width as int,
            image@.height as int,
        ),
{
    let columns: u64 = cell_count.x() as u64;
    let rows: u64 = cell_count.y() as u64;
    let cell_width: u64 = cell_size.width() as u64;
    let cell_height: u64 = cell_size.height() as u64;
    let canvas_width: u64 = image.width() as u64;
    let canvas_height: u64 = image.height() as u64;
    assert(columns * rows <= u64::MAX) by (nonlinear_arith)
        requires
            columns <= u32::MAX,
            rows <= u32::MAX,
    ;
    if stars.len() as u64 != columns * rows {
        return false;
    }
    let mut index: usize = 0;
    while index < stars.len()
        invariant
            index <= stars@.len(),
            stars@.len() == columns * rows,
            columns == cell_count.spec_x(),
            rows == cell_count.spec_y(),
            cell_width == cell_size.spec_width(),
            cell_height == cell_size.spec_height(),
            canvas_width == image@.width,
            canvas_height == image@.height,
            forall|k: int|
                0 <= k < index && #[trigger] stars@[k] != StarKind::Absent ==> star_fits(
                    k,
                    stars@[k],
                    columns as int,
                    cell_width as int,
                    cell_height as int,
                    canvas_width as int,
                    canvas_height as int,
                ),
        decreases stars@.len() - index,
    {
        let kind = stars[index];
        match kind {
            StarKind::Absent => {},
            _ => {
                assert(columns > 0) by (nonlinear_arith)
                    requires
                        columns * rows > 0,
                        0 <= columns,
                ;
                let column: u64 = index as u64 % columns;
                let row: u64 = index as u64 / columns;
                assert(row <= u32::MAX) by (nonlinear_arith)
                    requires
                        row == (index as int) / (columns as int),
                        index < columns * rows,
                        0 < columns,
                        rows <= u32::MAX,
                ;
                assert(column * cell_width <= 0xffff_ffff * 0xffff_ffff) by (nonlinear_arith)
                    requires
                        column <= 0xffff_ffff,
                        cell_width <= 0xffff_ffff,
                ;
                assert(row * cell_height <= 0xffff_ffff * 0xffff_ffff) by (nonlinear_arith)
                    requires
                        row <= 0xffff_ffff,
                        cell_height <= 0xffff_ffff,
                ;
                let size: u64 = kind.size() as u64;
                let fits = cell_width > 0 && cell_height > 0 && column * cell_width + cell_width
                    - 1 + size <= canvas_width && row * cell_height + cell_height - 1 + size
                    <= canvas_height;
                if !fits {
                    assert(!star_fits(
                        index as int,
                        stars@[index as int],
                        columns as int,
                        cell_width as int,
                        cell_height as int,
                        canvas_width as int,
                        canvas_height as int,
                    ));
                    return false;
                }
            },
        }
        index = index + 1;
    }
    true
}

/// Render a randomized night sky to the given image.
///
/// The canvas is partitioned into a grid of cells, and `opts.stars` says for
/// each cell whether it holds a star and of which size. Each star is placed
/// at a random offset within its cell and written without clipping.
pub fn render(opts: RenderOpts<'_>)
    requires
        grid_fits(
            opts.stars@,
            opts.cell_count,
            opts.cell_size,
            old(opts.image)@.width as int,
            old(opts.image)@.height as int,
        ),
    ensures
        exists|offsets: Seq<(int, int)>|
            #[trigger] offsets_within_cells(
                opts.stars@,
                offsets,
                opts.cell_size.spec_width() as int,
                opts.cell_size.spec_height() as int,
            ) && final(opts.image)@ == paint_stars(
                old(opts.image)@,
                opts.stars@,
                offsets,
                opts.cell_count.spec_x() as int,
                opts.cell_size.spec_width() as int,
                opts.cell_size.spec_height() as int,
                opts.stars@.len() as int,
                opts.star_color,
            ),
{
    let RenderOpts { image, rng, cell_count, cell_size, stars, star_color } = opts;
    let ghost start = image@;
    let columns: u32 = cell_count.x();
    let rows: u32 = cell_count.y();
    let ghost cell_width = cell_size.spec_width() as int;
    let ghost cell_height = cell_size.spec_height() as int;
    let ghost mut offsets: Seq<(int, int)> = Seq::empty();
    let mut index: usize = 0;
    let mut row: u32 = 0;
    while row < rows
        invariant
            row <= rows,
            columns == cell_count.spec_x(),
            rows == cell_count.spec_y(),
            cell_width == cell_size.spec_width(),
            cell_height == cell_size.spec_height(),
            grid_fits(
                stars@,
                cell_count,
                cell_size,
                start.width as int,
                start.height as int,
            ),
            image@.width == start.width,
            image@.height == start.height,
            index == row * columns,
            offsets.len() == index,
            forall|k: int|
                0 <= k < index && stars@[k] != StarKind::Absent ==> 0 <= (
                #[trigger] offsets[k]).0 < cell_width && 0 <= offsets[k].1 < cell_height,
            image@ == paint_stars(
                start,
                stars@,
                offsets,
                columns as int,
                cell_width,
                cell_height,
                index as int,
                star_color,
            ),
        decreases rows - row,
    {
        let mut column: u32 = 0;
        while column < columns
            invariant
                row < rows,
                column <= columns,
                columns == cell_count.spec_x(),
                rows == cell_count.spec_y(),
                cell_width == cell_size.spec_width(),
                cell_height == cell_size.spec_height(),
                grid_fits(
                    stars@,
                    cell_count,
                    cell_size,
                    start.width as int,
                    start.height as int,
                ),
                image@.width == start.width,
                image@.height == start.height,
                index == row * columns + column,
                offsets.len() == index,
                forall|k: int|
                    0 <= k < index && stars@[k] != StarKind::Absent ==> 0 <= (
                    #[trigger] offsets[k]).0 < cell_width && 0 <= offsets[k].1 < cell_height,
                image@ == paint_stars(
                    start,
                    stars@,
                    offsets,
                    columns as int,
                    cell_width,
                    cell_height,
                    index as int,
                    star_color,
                ),
            decreases columns - column,
        {
            proof {
                assert(row * columns + column < rows * columns) by (nonlinear_arith)
                    requires
                        0 <= row < rows,
                        0 <= column < columns,
                ;
                assert(rows * columns == columns * rows) by (nonlinear_arith);
                lemma_fundamental_div_mod_converse(
                    index as int,
                    columns as int,
                    row as int,
                    column as int,
                );
            }
            let kind = stars[index];
            let ghost earlier = offsets;
            let ghost before = image@;
            match kind {
                StarKind::Absent => {
                    proof {
                        offsets = offsets.push((0, 0));
                    }
                },
                _ => {
                    let offset = random_star_offset(&cell_size, rng);
                    render_cell(image, row, column, &cell_size, &offset, kind, star_color);
                    proof {
                        offsets = offsets.push((offset.spec_x() as int, offset.spec_y() as int));
                    }
                },
            }
            proof {
                lemma_paint_stars_of_prefix(
                    start,
                    stars@,
                    offsets,
                    earlier,
                    columns as int,
                    cell_width,
                    cell_height,
                    index as int,
                    star_color,
                );
            }
            index = index + 1;
            column = column + 1;
        }
        row = row + 1;
        assert(row * columns == (row - 1) * columns + columns) by (nonlinear_arith);
    }
    proof {
        assert(rows * columns == columns * rows) by (nonlinear_arith);
        assert(index == stars@.len());
        assert(offsets_within_cells(
            stars@,
            offsets,
            cell_size.spec_width() as int,
            cell_size.spec_height() as int,
        ) && image@ == paint_stars(
            start,
            stars@,
            offsets,
            cell_count.spec_x() as int,
            cell_size.spec_width() as int,
            cell_size.spec_height() as int,
            stars@.len() as int,
            star_color,
        ));
    }
}

} // verus!
