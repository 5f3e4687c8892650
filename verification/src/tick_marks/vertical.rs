//! Tick marks along a vertical axis: a mark at zero lies at the bottom of
//! the bounds and a mark at one at the top, unless the axis is inverted.
//!
//! Each function appends to a list of quads; its contract gives the quads it
//! appends as a sequence.

use crate::fixed::NORMAL_ONE;
use crate::geometry::{halved, within, Bounds, Rectangle, COORD_LIMIT};
use crate::normal::{lemma_scaled_bounds, scaled, Normal};
use crate::primitive::{Color, Quad};
use crate::tick_marks::{
    marks_of, CacheModel, Group, GroupModel, Key, Placement, PrimitiveCache, Shape, Style,
};
use vstd::prelude::*;

verus! {

/// The distance below the top of a span of `height` at which a mark lies.
pub open spec fn mark_offset(mark: Normal, height: int, inverse: bool) -> int {
    if inverse {
        scaled(mark@, height)
    } else {
        scaled(NORMAL_ONE - mark@, height)
    }
}

/// The quad of one line mark: `length` wide from `x`, `width` thick, centered
/// on the position of the mark.
pub open spec fn line_quad(
    mark: Normal,
    bounds_y: int,
    bounds_height: int,
    x: int,
    width: int,
    length: int,
    color: Color,
    inverse: bool,
) -> Quad {
    Quad {
        bounds: Bounds {
            x: x as i64,
            y: (bounds_y - width / 2 + mark_offset(mark, bounds_height, inverse)) as i64,
            width: length as i64,
            height: width as i64,
        },
        color,
        border_radius: 0,
        border_width: 0,
        border_color: Color::transparent_spec(),
    }
}

/// The quad of one circle mark: a square of side `diameter` from `x`, rounded
/// by half the diameter, centered on the position of the mark.
pub open spec fn circle_quad(
    mark: Normal,
    bounds_y: int,
    bounds_height: int,
    x: int,
    diameter: int,
    color: Color,
    inverse: bool,
) -> Quad {
    Quad {
        bounds: Bounds {
            x: x as i64,
            y: (bounds_y - diameter / 2 + mark_offset(mark, bounds_height, inverse)) as i64,
            width: diameter as i64,
            height: diameter as i64,
        },
        color,
        border_radius: (diameter / 2) as i64,
        border_width: 0,
        border_color: Color::transparent_spec(),
    }
}

/// One line quad for each mark, in order.
pub open spec fn lines(
    marks: Seq<Normal>,
    bounds_y: int,
    bounds_height: int,
    x: int,
    width: int,
    length: int,
    color: Color,
    inverse: bool,
) -> Seq<Quad> {
    Seq::new(
        marks.len(),
        |i: int| line_quad(marks[i], bounds_y, bounds_height, x, width, length, color, inverse),
    )
}

/// One circle quad for each mark, in order.
pub open spec fn circles(
    marks: Seq<Normal>,
    bounds_y: int,
    bounds_height: int,
    x: int,
    diameter: int,
    color: Color,
    inverse: bool,
) -> Seq<Quad> {
    Seq::new(
        marks.len(),
        |i: int| circle_quad(marks[i], bounds_y, bounds_height, x, diameter, color, inverse),
    )
}

/// The distance below the top of a span of `height` at which `mark` lies.
fn offset_of(mark: &Normal, height: i64, inverse: bool) -> (offset: i64)
    requires
        within(height as int, COORD_LIMIT as int),
    ensures
        offset == mark_offset(*mark, height as int, inverse),
        within(offset as int, COORD_LIMIT as int),
{
    proof {
        use_type_invariant(mark);
        lemma_scaled_bounds(mark@, height as int);
        lemma_scaled_bounds(NORMAL_ONE - mark@, height as int);
    }
    if inverse {
        mark.scale(height)
    } else {
        mark.scale_inv(height)
    }
}

/// Appends one line quad for each mark.
pub fn draw_vertical_lines(
    primitives: &mut Vec<Quad>,
    tick_marks: &Vec<Normal>,
    bounds_y: i64,
    bounds_height: i64,
    x: i64,
    width: u32,
    length: i64,
    color: Color,
    inverse: bool,
)
    requires
        within(bounds_y as int, COORD_LIMIT as int),
        within(bounds_height as int, COORD_LIMIT as int),
    ensures
        final(primitives)@ == old(primitives)@ + lines(
            tick_marks@,
            bounds_y as int,
            bounds_height as int,
            x as int,
            width as int,
            length as int,
            color,
            inverse,
        ),
{
    let start_y: i64 = bounds_y - (width / 2) as i64;
    let mut i: usize = 0;
    while i < tick_marks.len()
        invariant
            i <= tick_marks.len(),
            start_y == bounds_y - width / 2,
            within(bounds_y as int, COORD_LIMIT as int),
            within(bounds_height as int, COORD_LIMIT as int),
            primitives@ == old(primitives)@ + lines(
                tick_marks@.take(i as int),
                bounds_y as int,
                bounds_height as int,
                x as int,
                width as int,
                length as int,
                color,
                inverse,
            ),
        decreases tick_marks.len() - i,
    {
        let offset = offset_of(&tick_marks[i], bounds_height, inverse);
        primitives.push(
            Quad {
                bounds: Bounds { x, y: start_y + offset, width: length, height: width as i64 },
                color,
                border_radius: 0,
                border_width: 0,
                border_color: Color::transparent(),
            },
        );
        assert(primitives@ =~= old(primitives)@ + lines(
            tick_marks@.take(i + 1),
            bounds_y as int,
            bounds_height as int,
            x as int,
            width as int,
            length as int,
            color,
            inverse,
        ));
        i += 1;
    }
    assert(tick_marks@.take(i as int) == tick_marks@);
}

/// Appends one circle quad for each mark.
pub fn draw_vertical_circles(
    primitives: &mut Vec<Quad>,
    tick_marks: &Vec<Normal>,
    bounds_y: i64,
    bounds_height: i64,
    x: i64,
    diameter: i64,
    color: Color,
    inverse: bool,
)
    requires
        within(bounds_y as int, COORD_LIMIT as int),
        within(bounds_height as int, COORD_LIMIT as int),
        within(diameter as int, COORD_LIMIT as int),
    ensures
        final(primitives)@ == old(primitives)@ + circles(
            tick_marks@,
            bounds_y as int,
            bounds_height as int,
            x as int,
            diameter as int,
            color,
            inverse,
        ),
{
    let radius: i64 = halved(diameter);
    let start_y: i64 = bounds_y - radius;
    let mut i: usize = 0;
    while i < tick_marks.len()
        invariant
            i <= tick_marks.len(),
            radius == diameter / 2,
            start_y == bounds_y - radius,
            within(bounds_y as int, COORD_LIMIT as int),
            within(bounds_height as int, COORD_LIMIT as int),
            within(diameter as int, COORD_LIMIT as int),
            primitives@ == old(primitives)@ + circles(
                tick_marks@.take(i as int),
                bounds_y as int,
                bounds_height as int,
                x as int,
                diameter as int,
                color,
                inverse,
            ),
        decreases tick_marks.len() - i,
    {
        let offset = offset_of(&tick_marks[i], bounds_height, inverse);
        primitives.push(
            Quad {
                bounds: Bounds { x, y: start_y + offset, width: diameter, height: diameter },
                color,
                border_radius: radius,
                border_width: 0,
                border_color: Color::transparent(),
            },
        );
        assert(primitives@ =~= old(primitives)@ + circles(
            tick_marks@.take(i + 1),
            bounds_y as int,
            bounds_height as int,
            x as int,
            diameter as int,
            color,
            inverse,
        ));
        i += 1;
    }
    assert(tick_marks@.take(i as int) == tick_marks@);
}

/// The quads of one tier whose marks start at `x` and extend to the right.
pub open spec fn left_aligned_tier(
    bounds: Bounds,
    x: int,
    marks: Seq<Normal>,
    shape: Shape,
    inverse: bool,
) -> Seq<Quad> {
    match shape {
        Shape::Hidden => Seq::empty(),
        Shape::Line { length, width, color } => lines(
            marks,
            bounds.y as int,
            bounds.height as int,
            x,
            width as int,
            length as int,
            color,
            inverse,
        ),
        Shape::Circle { diameter, color } => circles(
            marks,
            bounds.y as int,
            bounds.height as int,
            x,
            diameter as int,
            color,
            inverse,
        ),
    }
}

/// The quads of one tier whose marks end at `x` and extend to the left.
pub open spec fn right_aligned_tier(
    bounds: Bounds,
    x: int,
    marks: Seq<Normal>,
    shape: Shape,
    inverse: bool,
) -> Seq<Quad> {
    match shape {
        Shape::Hidden => Seq::empty(),
        Shape::Line { length, width, color } => lines(
            marks,
            bounds.y as int,
            bounds.height as int,
            x - length,
            width as int,
            length as int,
            color,
            inverse,
        ),
        Shape::Circle { diameter, color } => circles(
            marks,
            bounds.y as int,
            bounds.height as int,
            x - diameter,
            diameter as int,
            color,
            inverse,
        ),
    }
}

/// The quads of one tier whose marks are centered on `x`. With `fill_length`
/// a mark instead starts one mark length inside the left edge of the bounds
/// and ends one mark length inside the right edge.
pub open spec fn center_aligned_tier(
    bounds: Bounds,
    x: int,
    marks: Seq<Normal>,
    shape: Shape,
    fill_length: bool,
    inverse: bool,
) -> Seq<Quad> {
    match shape {
        Shape::Hidden => Seq::empty(),
        Shape::Line { length, width, color } => lines(
            marks,
            bounds.y as int,
            bounds.height as int,
            if fill_length {
                bounds.x + length
            } else {
                x - length / 2
            },
            width as int,
            if fill_length {
                bounds.width - 2 * length
            } else {
                length as int
            },
            color,
            inverse,
        ),
        Shape::Circle { diameter, color } => circles(
            marks,
            bounds.y as int,
            bounds.height as int,
            if fill_length {
                bounds.x + diameter
            } else {
                x - diameter / 2
            },
            if fill_length {
                bounds.width - 2 * diameter
            } else {
                diameter as int
            },
            color,
            inverse,
        ),
    }
}

/// The length of each half of a split mark: with `fill_length` the distance
/// from the edge of the gap to the edge of the bounds, which is half the
/// width less half the gap, else `extent`.
pub open spec fn split_extent(bounds: Bounds, extent: int, fill_length: bool, gap: int) -> int {
    if fill_length {
        bounds.width / 2 - gap / 2
    } else {
        extent
    }
}

/// The quads of one tier drawn twice: one set ends half a gap left of `x`,
/// the other starts half a gap right of `x`. All marks of the left set come
/// first.
pub open spec fn center_aligned_split_tier(
    bounds: Bounds,
    x: int,
    marks: Seq<Normal>,
    shape: Shape,
    fill_length: bool,
    gap: int,
    inverse: bool,
) -> Seq<Quad> {
    match shape {
        Shape::Hidden => Seq::empty(),
        Shape::Line { length, width, color } => {
            let extent = split_extent(bounds, length as int, fill_length, gap);
            lines(
                marks,
                bounds.y as int,
                bounds.height as int,
                x - gap / 2 - extent,
                width as int,
                extent,
                color,
                inverse,
            ) + lines(
                marks,
                bounds.y as int,
                bounds.height as int,
                x + gap / 2,
                width as int,
                extent,
                color,
                inverse,
            )
        },
        Shape::Circle { diameter, color } => {
            let extent = split_extent(bounds, diameter as int, fill_length, gap);
            circles(
                marks,
                bounds.y as int,
                bounds.height as int,
                x - gap / 2 - extent,
                extent,
                color,
                inverse,
            ) + circles(
                marks,
                bounds.y as int,
                bounds.height as int,
                x + gap / 2,
                extent,
                color,
                inverse,
            )
        },
    }
}

/// Appends the quads of one tier, its marks starting at `x`.
pub fn draw_vertical_left_aligned_tier(
    primitives: &mut Vec<Quad>,
    bounds: &Bounds,
    x: i64,
    tick_marks: Option<&Vec<Normal>>,
    shape: &Shape,
    inverse: bool,
)
    requires
        bounds.fits(),
    ensures
        final(primitives)@ == old(primitives)@ + left_aligned_tier(
            *bounds,
            x as int,
            marks_of(tick_marks),
            *shape,
            inverse,
        ),
{
    if let Some(tick_marks) = tick_marks {
        match shape {
            Shape::Hidden => {},
            Shape::Line { length, width, color } => {
                draw_vertical_lines(
                    primitives,
                    tick_marks,
                    bounds.y,
                    bounds.height,
                    x,
                    *width,
                    *length as i64,
                    *color,
                    inverse,
                );
            },
            Shape::Circle { diameter, color } => {
                draw_vertical_circles(
                    primitives,
                    tick_marks,
                    bounds.y,
                    bounds.height,
                    x,
                    *diameter as i64,
                    *color,
                    inverse,
                );
            },
        }
    }
    assert(final(primitives)@ =~= old(primitives)@ + left_aligned_tier(
        *bounds,
        x as int,
        marks_of(tick_marks),
        *shape,
        inverse,
    ));
}

/// Appends the quads of one tier, its marks ending at `x`.
pub fn draw_vertical_right_aligned_tier(
    primitives: &mut Vec<Quad>,
    bounds: &Bounds,
    x: i64,
    tick_marks: Option<&Vec<Normal>>,
    shape: &Shape,
    inverse: bool,
)
    requires
        bounds.fits(),
        within(x as int, COORD_LIMIT as int),
    ensures
        final(primitives)@ == old(primitives)@ + right_aligned_tier(
            *bounds,
            x as int,
            marks_of(tick_marks),
            *shape,
            inverse,
        ),
{
    if let Some(tick_marks) = tick_marks {
        match shape {
            Shape::Hidden => {},
            Shape::Line { length, width, color } => {
                draw_vertical_lines(
                    primitives,
                    tick_marks,
                    bounds.y,
                    bounds.height,
                    x - *length as i64,
                    *width,
                    *length as i64,
                    *color,
                    inverse,
                );
            },
            Shape::Circle { diameter, color } => {
                draw_vertical_circles(
                    primitives,
                    tick_marks,
                    bounds.y,
                    bounds.height,
                    x - *diameter as i64,
                    *diameter as i64,
                    *color,
                    inverse,
                );
            },
        }
    }
    assert(final(primitives)@ =~= old(primitives)@ + right_aligned_tier(
        *bounds,
        x as int,
        marks_of(tick_marks),
        *shape,
        inverse,
    ));
}

/// Appends the quads of one tier, its marks centered on `x` or, with
/// `fill_length`, stretched across the bounds.
pub fn draw_vertical_center_aligned_tier(
    primitives: &mut Vec<Quad>,
    bounds: &Bounds,
    x: i64,
    tick_marks: Option<&Vec<Normal>>,
    shape: &Shape,
    fill_length: bool,
    inverse: bool,
)
    requires
        bounds.fits(),
        within(x as int, COORD_LIMIT as int),
    ensures
        final(primitives)@ == old(primitives)@ + center_aligned_tier(
            *bounds,
            x as int,
            marks_of(tick_marks),
            *shape,
            fill_length,
            inverse,
        ),
{
    if let Some(tick_marks) = tick_marks {
        match shape {
            Shape::Hidden => {},
            Shape::Line { length, width, color } => {
                let (x, length): (i64, i64) = if fill_length {
                    (bounds.x + *length as i64, bounds.width - (*length as i64) * 2)
                } else {
                    (x - (*length / 2) as i64, *length as i64)
                };
                draw_vertical_lines(
                    primitives,
                    tick_marks,
                    bounds.y,
                    bounds.height,
                    x,
                    *width,
                    length,
                    *color,
                    inverse,
                );
            },
            Shape::Circle { diameter, color } => {
                let (x, diameter): (i64, i64) = if fill_length {
                    (bounds.x + *diameter as i64, bounds.width - (*diameter as i64) * 2)
                } else {
                    (x - (*diameter / 2) as i64, *diameter as i64)
                };
                draw_vertical_circles(
                    primitives,
                    tick_marks,
                    bounds.y,
                    bounds.height,
                    x,
                    diameter,
                    *color,
                    inverse,
                );
            },
        }
    }
    assert(final(primitives)@ =~= old(primitives)@ + center_aligned_tier(
        *bounds,
        x as int,
        marks_of(tick_marks),
        *shape,
        fill_length,
        inverse,
    ));
}

/// Appends the quads of one tier twice, once on each side of `x`, the sets
/// `gap` apart.
pub fn draw_vertical_center_aligned_split_tier(
    primitives: &mut Vec<Quad>,
    bounds: &Bounds,
    x: i64,
    tick_marks: Option<&Vec<Normal>>,
    shape: &Shape,
    fill_length: bool,
    gap: u32,
    inverse: bool,
)
    requires
        bounds.fits(),
        within(x as int, COORD_LIMIT as int),
    ensures
        final(primitives)@ == old(primitives)@ + center_aligned_split_tier(
            *bounds,
            x as int,
            marks_of(tick_marks),
            *shape,
            fill_length,
            gap as int,
            inverse,
        ),
{
    if let Some(tick_marks) = tick_marks {
        let half_gap: i64 = (gap / 2) as i64;
        match shape {
            Shape::Hidden => {},
            Shape::Line { length, width, color } => {
                let extent: i64 = if fill_length {
                    halved(bounds.width) - half_gap
                } else {
                    *length as i64
                };
                let left_x: i64 = x - half_gap - extent;
                let right_x: i64 = x + half_gap;
                draw_vertical_lines(
                    primitives,
                    tick_marks,
                    bounds.y,
                    bounds.height,
                    left_x,
                    *width,
                    extent,
                    *color,
                    inverse,
                );
                draw_vertical_lines(
                    primitives,
                    tick_marks,
                    bounds.y,
                    bounds.height,
                    right_x,
                    *width,
                    extent,
                    *color,
                    inverse,
                );
            },
            Shape::Circle { diameter, color } => {
                let extent: i64 = if fill_length {
                    halved(bounds.width) - half_gap
                } else {
                    *diameter as i64
                };
                let left_x: i64 = x - half_gap - extent;
                let right_x: i64 = x + half_gap;
                draw_vertical_circles(
                    primitives,
                    tick_marks,
                    bounds.y,
                    bounds.height,
                    left_x,
                    extent,
                    *color,
                    inverse,
                );
                draw_vertical_circles(
                    primitives,
                    tick_marks,
                    bounds.y,
                    bounds.height,
                    right_x,
                    extent,
                    *color,
                    inverse,
                );
            },
        }
    }
    assert(final(primitives)@ =~= old(primitives)@ + center_aligned_split_tier(
        *bounds,
        x as int,
        marks_of(tick_marks),
        *shape,
        fill_length,
        gap as int,
        inverse,
    ));
}

/// The quads of all three tiers, tier one first, marks starting at `x`.
pub open spec fn left_aligned(
    bounds: Bounds,
    x: int,
    group: GroupModel,
    style: Style,
    inverse: bool,
) -> Seq<Quad> {
    left_aligned_tier(bounds, x, group.tier_1, style.tier_1, inverse) + left_aligned_tier(
        bounds,
        x,
        group.tier_2,
        style.tier_2,
        inverse,
    ) + left_aligned_tier(bounds, x, group.tier_3, style.tier_3, inverse)
}

/// The quads of all three tiers, tier one first, marks ending at `x`.
pub open spec fn right_aligned(
    bounds: Bounds,
    x: int,
    group: GroupModel,
    style: Style,
    inverse: bool,
) -> Seq<Quad> {
    right_aligned_tier(bounds, x, group.tier_1, style.tier_1, inverse) + right_aligned_tier(
        bounds,
        x,
        group.tier_2,
        style.tier_2,
        inverse,
    ) + right_aligned_tier(bounds, x, group.tier_3, style.tier_3, inverse)
}

/// The quads of all three tiers, tier one first, marks centered on `x`.
pub open spec fn center_aligned(
    bounds: Bounds,
    x: int,
    group: GroupModel,
    style: Style,
    fill_length: bool,
    inverse: bool,
) -> Seq<Quad> {
    center_aligned_tier(bounds, x, group.tier_1, style.tier_1, fill_length, inverse)
        + center_aligned_tier(bounds, x, group.tier_2, style.tier_2, fill_length, inverse)
        + center_aligned_tier(bounds, x, group.tier_3, style.tier_3, fill_length, inverse)
}

/// The quads of all three tiers, tier one first, each tier split about `x`.
pub open spec fn center_aligned_split(
    bounds: Bounds,
    x: int,
    group: GroupModel,
    style: Style,
    fill_length: bool,
    gap: int,
    inverse: bool,
) -> Seq<Quad> {
    center_aligned_split_tier(bounds, x, group.tier_1, style.tier_1, fill_length, gap, inverse)
        + center_aligned_split_tier(
        bounds,
        x,
        group.tier_2,
        style.tier_2,
        fill_length,
        gap,
        inverse,
    ) + center_aligned_split_tier(
        bounds,
        x,
        group.tier_3,
        style.tier_3,
        fill_length,
        gap,
        inverse,
    )
}

/// Appends the quads of all three tiers, marks starting at `x`.
pub fn draw_vertical_left_aligned(
    primitives: &mut Vec<Quad>,
    bounds: &Bounds,
    x: i64,
    tick_marks: &Group,
    style: &Style,
    inverse: bool,
)
    requires
        bounds.fits(),
    ensures
        final(primitives)@ == old(primitives)@ + left_aligned(
            *bounds,
            x as int,
            tick_marks@,
            *style,
            inverse,
        ),
{
    draw_vertical_left_aligned_tier(
        primitives,
        bounds,
        x,
        tick_marks.tier_1(),
        &style.tier_1,
        inverse,
    );
    draw_vertical_left_aligned_tier(
        primitives,
        bounds,
        x,
        tick_marks.tier_2(),
        &style.tier_2,
        inverse,
    );
    draw_vertical_left_aligned_tier(
        primitives,
        bounds,
        x,
        tick_marks.tier_3(),
        &style.tier_3,
        inverse,
    );
    assert(final(primitives)@ =~= old(primitives)@ + left_aligned(
        *bounds,
        x as int,
        tick_marks@,
        *style,
        inverse,
    ));
}

/// Appends the quads of all three tiers, marks ending at `x`.
pub fn draw_vertical_right_aligned(
    primitives: &mut Vec<Quad>,
    bounds: &Bounds,
    x: i64,
    tick_marks: &Group,
    style: &Style,
    inverse: bool,
)
    requires
        bounds.fits(),
        within(x as int, COORD_LIMIT as int),
    ensures
        final(primitives)@ == old(primitives)@ + right_aligned(
            *bounds,
            x as int,
            tick_marks@,
            *style,
            inverse,
        ),
{
    draw_vertical_right_aligned_tier(
        primitives,
        bounds,
        x,
        tick_marks.tier_1(),
        &style.tier_1,
        inverse,
    );
    draw_vertical_right_aligned_tier(
        primitives,
        bounds,
        x,
        tick_marks.tier_2(),
        &style.tier_2,
        inverse,
    );
    draw_vertical_right_aligned_tier(
        primitives,
        bounds,
        x,
        tick_marks.tier_3(),
        &style.tier_3,
        inverse,
    );
    assert(final(primitives)@ =~= old(primitives)@ + right_aligned(
        *bounds,
        x as int,
        tick_marks@,
        *style,
        inverse,
    ));
}

/// Appends the quads of all three tiers, marks centered on `x`.
pub fn draw_vertical_center_aligned(
    primitives: &mut Vec<Quad>,
    bounds: &Bounds,
    x: i64,
    tick_marks: &Group,
    style: &Style,
    fill_length: bool,
    inverse: bool,
)
    requires
        bounds.fits(),
        within(x as int, COORD_LIMIT as int),
    ensures
        final(primitives)@ == old(primitives)@ + center_aligned(
            *bounds,
            x as int,
            tick_marks@,
            *style,
            fill_length,
            inverse,
        ),
{
    draw_vertical_center_aligned_tier(
        primitives,
        bounds,
        x,
        tick_marks.tier_1(),
        &style.tier_1,
        fill_length,
        inverse,
    );
    draw_vertical_center_aligned_tier(
        primitives,
        bounds,
        x,
        tick_marks.tier_2(),
        &style.tier_2,
        fill_length,
        inverse,
    );
    draw_vertical_center_aligned_tier(
        primitives,
        bounds,
        x,
        tick_marks.tier_3(),
        &style.tier_3,
        fill_length,
        inverse,
    );
    assert(final(primitives)@ =~= old(primitives)@ + center_aligned(
        *bounds,
        x as int,
        tick_marks@,
        *style,
        fill_length,
        inverse,
    ));
}

/// Appends the quads of all three tiers, each tier split about `x`.
pub fn draw_vertical_center_aligned_split(
    primitives: &mut Vec<Quad>,
    bounds: &Bounds,
    x: i64,
    tick_marks: &Group,
    style: &Style,
    fill_length: bool,
    gap: u32,
    inverse: bool,
)
    requires
        bounds.fits(),
        within(x as int, COORD_LIMIT as int),
    ensures
        final(primitives)@ == old(primitives)@ + center_aligned_split(
            *bounds,
            x as int,
            tick_marks@,
            *style,
            fill_length,
            gap as int,
            inverse,
        ),
{
    draw_vertical_center_aligned_split_tier(
        primitives,
        bounds,
        x,
        tick_marks.tier_1(),
        &style.tier_1,
        fill_length,
        gap,
        inverse,
    );
    draw_vertical_center_aligned_split_tier(
        primitives,
        bounds,
        x,
        tick_marks.tier_2(),
        &style.tier_2,
        fill_length,
        gap,
        inverse,
    );
    draw_vertical_center_aligned_split_tier(
        primitives,
        bounds,
        x,
        tick_marks.tier_3(),
        &style.tier_3,
        fill_length,
        gap,
        inverse,
    );
    assert(final(primitives)@ =~= old(primitives)@ + center_aligned_split(
        *bounds,
        x as int,
        tick_marks@,
        *style,
        fill_length,
        gap as int,
        inverse,
    ));
}

/// The quads of a group of marks on a vertical axis: none in bounds that
/// cover no area; else, in the bounds moved by the placement's offset, the
/// sets that the placement names, the left one first.
pub open spec fn vertical_tick_marks(
    bounds: Rectangle,
    group: GroupModel,
    style: Style,
    placement: Placement,
    inverse: bool,
) -> Seq<Quad> {
    if bounds.is_degenerate_spec() {
        Seq::empty()
    } else {
        match placement {
            Placement::BothSides { offset, inside } => {
                let b = offset.offset_rect_spec(bounds);
                if inside {
                    left_aligned(b, b.x as int, group, style, inverse) + right_aligned(
                        b,
                        b.x + b.width,
                        group,
                        style,
                        inverse,
                    )
                } else {
                    right_aligned(b, b.x as int, group, style, inverse) + left_aligned(
                        b,
                        b.x + b.width,
                        group,
                        style,
                        inverse,
                    )
                }
            },
            Placement::LeftOrTop { offset, inside } => {
                let b = offset.offset_rect_spec(bounds);
                if inside {
                    left_aligned(b, b.x as int, group, style, inverse)
                } else {
                    right_aligned(b, b.x as int, group, style, inverse)
                }
            },
            Placement::RightOrBottom { offset, inside } => {
                let b = offset.offset_rect_spec(bounds);
                if inside {
                    right_aligned(b, b.x + b.width, group, style, inverse)
                } else {
                    left_aligned(b, b.x + b.width, group, style, inverse)
                }
            },
            Placement::Center { offset, fill_length } => {
                let b = offset.offset_rect_spec(bounds);
                center_aligned(b, b.center_x_spec(), group, style, fill_length, inverse)
            },
            Placement::CenterSplit { offset, fill_length, gap } => {
                let b = offset.offset_rect_spec(bounds);
                center_aligned_split(
                    b,
                    b.center_x_spec(),
                    group,
                    style,
                    fill_length,
                    gap as int,
                    inverse,
                )
            },
        }
    }
}

/// Whether marks of length `extent` have room under a placement in bounds
/// `width` wide. Marks that keep their length always have; marks that fill
/// the bounds have room if what is left for them is no negative length:
/// through the middle, the width less one mark length on each side; split,
/// half the width less half the gap.
pub open spec fn has_room(width: int, extent: int, placement: Placement) -> bool {
    match placement {
        Placement::Center { offset, fill_length } => fill_length ==> width - 2 * extent >= 0,
        Placement::CenterSplit { offset, fill_length, gap } => fill_length ==> width / 2 - gap / 2
            >= 0,
        _ => true,
    }
}

/// Whether the marks of one tier have room: a tier without marks or with a
/// hidden shape always has.
pub open spec fn tier_has_room(
    width: int,
    marks: Seq<Normal>,
    shape: Shape,
    placement: Placement,
) -> bool {
    marks.len() == 0 || match shape {
        Shape::Hidden => true,
        Shape::Line { length, width: thickness, color } => has_room(
            width,
            length as int,
            placement,
        ),
        Shape::Circle { diameter, color } => has_room(width, diameter as int, placement),
    }
}

/// Whether a placement leaves the marks of a group room in the bounds: no
/// mark that is drawn comes out with a negative length. Bounds that cover no
/// area hold no marks, so every placement has room in them.
pub open spec fn track_has_room(
    bounds: Rectangle,
    group: GroupModel,
    style: Style,
    placement: Placement,
) -> bool {
    bounds.is_degenerate_spec() || {
        &&& tier_has_room(bounds.width as int, group.tier_1, style.tier_1, placement)
        &&& tier_has_room(bounds.width as int, group.tier_2, style.tier_2, placement)
        &&& tier_has_room(bounds.width as int, group.tier_3, style.tier_3, placement)
    }
}

/// Whether the marks of one tier have room under a placement in bounds
/// `width` wide.
fn tier_fits(
    width: i32,
    tick_marks: Option<&Vec<Normal>>,
    shape: &Shape,
    placement: &Placement,
) -> (room: bool)
    requires
        width > 0,
    ensures
        room == tier_has_room(width as int, marks_of(tick_marks), *shape, *placement),
{
    match tick_marks {
        None => {
            return true;
        },
        Some(marks) => {
            if marks.len() == 0 {
                return true;
            }
        },
    }
    let extent: i64 = match shape {
        Shape::Hidden => {
            return true;
        },
        Shape::Line { length, width: thickness, color } => *length as i64,
        Shape::Circle { diameter, color } => *diameter as i64,
    };
    match placement {
        Placement::Center { offset, fill_length } => !*fill_length || width as i64 - 2 * extent
            >= 0,
        Placement::CenterSplit { offset, fill_length, gap } => !*fill_length || (width / 2) as i64
            - (*gap / 2) as i64 >= 0,
        _ => true,
    }
}

/// Whether a placement leaves the marks of a group room in the bounds. A
/// placement without room is a mistake of the caller: the drawing functions
/// take no such input.
pub fn has_room_for(
    bounds: &Rectangle,
    tick_marks: &Group,
    style: &Style,
    placement: &Placement,
) -> (room: bool)
    ensures
        room == track_has_room(*bounds, tick_marks@, *style, *placement),
{
    if bounds.is_degenerate() {
        return true;
    }
    tier_fits(bounds.width, tick_marks.tier_1(), &style.tier_1, placement) && tier_fits(
        bounds.width,
        tick_marks.tier_2(),
        &style.tier_2,
        placement,
    ) && tier_fits(bounds.width, tick_marks.tier_3(), &style.tier_3, placement)
}

/// Whether no quad of a list has a negative width or height.
pub open spec fn no_negative_size(quads: Seq<Quad>) -> bool {
    forall|i: int|
        0 <= i < quads.len() ==> (#[trigger] quads[i]).bounds.width >= 0 && quads[i].bounds.height
            >= 0
}

/// Where a placement leaves the marks room, no quad comes out with a
/// negative width or height.
pub proof fn lemma_room_means_no_negative_size(
    bounds: Rectangle,
    group: GroupModel,
    style: Style,
    placement: Placement,
    inverse: bool,
)
    requires
        track_has_room(bounds, group, style, placement),
    ensures
        no_negative_size(vertical_tick_marks(bounds, group, style, placement, inverse)),
{
    if !bounds.is_degenerate_spec() {
        let width = bounds.width as int;
        match placement {
            Placement::BothSides { offset, inside } => {
                let b = offset.offset_rect_spec(bounds);
                lemma_sets_have_no_negative_size(b, b.x as int, group, style, placement, inverse);
                lemma_sets_have_no_negative_size(b, b.x + b.width, group, style, placement, inverse);
            },
            Placement::LeftOrTop { offset, inside } => {
                let b = offset.offset_rect_spec(bounds);
                lemma_sets_have_no_negative_size(b, b.x as int, group, style, placement, inverse);
            },
            Placement::RightOrBottom { offset, inside } => {
                let b = offset.offset_rect_spec(bounds);
                lemma_sets_have_no_negative_size(b, b.x + b.width, group, style, placement, inverse);
            },
            Placement::Center { offset, fill_length } => {
                let b = offset.offset_rect_spec(bounds);
                lemma_sets_have_no_negative_size(
                    b,
                    b.center_x_spec(),
                    group,
                    style,
                    placement,
                    inverse,
                );
            },
            Placement::CenterSplit { offset, fill_length, gap } => {
                let b = offset.offset_rect_spec(bounds);
                lemma_sets_have_no_negative_size(
                    b,
                    b.center_x_spec(),
                    group,
                    style,
                    placement,
                    inverse,
                );
            },
        }
    }
}

/// The fill that a placement asks for, and its gap.
spec fn fill_of(placement: Placement) -> (bool, int) {
    match placement {
        Placement::Center { offset, fill_length } => (fill_length, 0),
        Placement::CenterSplit { offset, fill_length, gap } => (fill_length, gap as int),
        _ => (false, 0),
    }
}

/// Where the tiers of a group have room, each way of aligning the group
/// that the placement can ask for yields quads of no negative size.
proof fn lemma_sets_have_no_negative_size(
    bounds: Bounds,
    x: int,
    group: GroupModel,
    style: Style,
    placement: Placement,
    inverse: bool,
)
    requires
        bounds.fits(),
        tier_has_room(bounds.width as int, group.tier_1, style.tier_1, placement),
        tier_has_room(bounds.width as int, group.tier_2, style.tier_2, placement),
        tier_has_room(bounds.width as int, group.tier_3, style.tier_3, placement),
    ensures
        no_negative_size(left_aligned(bounds, x, group, style, inverse)),
        no_negative_size(right_aligned(bounds, x, group, style, inverse)),
        placement is Center ==> no_negative_size(
            center_aligned(bounds, x, group, style, fill_of(placement).0, inverse),
        ),
        placement is CenterSplit ==> no_negative_size(
            center_aligned_split(
                bounds,
                x,
                group,
                style,
                fill_of(placement).0,
                fill_of(placement).1,
                inverse,
            ),
        ),
{
    lemma_tier_has_no_negative_size(bounds, x, group.tier_1, style.tier_1, placement, inverse);
    lemma_tier_has_no_negative_size(bounds, x, group.tier_2, style.tier_2, placement, inverse);
    lemma_tier_has_no_negative_size(bounds, x, group.tier_3, style.tier_3, placement, inverse);
}

/// Where a tier has room, each way of aligning it that the placement can
/// ask for yields quads of no negative size.
proof fn lemma_tier_has_no_negative_size(
    bounds: Bounds,
    x: int,
    marks: Seq<Normal>,
    shape: Shape,
    placement: Placement,
    inverse: bool,
)
    requires
        bounds.fits(),
        tier_has_room(bounds.width as int, marks, shape, placement),
    ensures
        no_negative_size(left_aligned_tier(bounds, x, marks, shape, inverse)),
        no_negative_size(right_aligned_tier(bounds, x, marks, shape, inverse)),
        placement is Center ==> no_negative_size(
            center_aligned_tier(bounds, x, marks, shape, fill_of(placement).0, inverse),
        ),
        placement is CenterSplit ==> no_negative_size(
            center_aligned_split_tier(
                bounds,
                x,
                marks,
                shape,
                fill_of(placement).0,
                fill_of(placement).1,
                inverse,
            ),
        ),
{
}

/// Computes the quads of a group of marks on a vertical axis. The placement
/// must leave the marks room in the bounds.
pub fn place_vertical_tick_marks(
    bounds: &Rectangle,
    tick_marks: &Group,
    style: &Style,
    placement: &Placement,
    inverse: bool,
) -> (primitives: Vec<Quad>)
    requires
        track_has_room(*bounds, tick_marks@, *style, *placement),
    ensures
        primitives@ == vertical_tick_marks(*bounds, tick_marks@, *style, *placement, inverse),
{
    let mut primitives: Vec<Quad> = Vec::new();
    if bounds.is_degenerate() {
        return primitives;
    }
    match placement {
        Placement::BothSides { offset, inside } => {
            let bounds = offset.offset_rect(bounds);
            if *inside {
                draw_vertical_left_aligned(
                    &mut primitives,
                    &bounds,
                    bounds.x,
                    tick_marks,
                    style,
                    inverse,
                );
                draw_vertical_right_aligned(
                    &mut primitives,
                    &bounds,
                    bounds.x + bounds.width,
                    tick_marks,
                    style,
                    inverse,
                );
            } else {
                draw_vertical_right_aligned(
                    &mut primitives,
                    &bounds,
                    bounds.x,
                    tick_marks,
                    style,
                    inverse,
                );
                draw_vertical_left_aligned(
                    &mut primitives,
                    &bounds,
                    bounds.x + bounds.width,
                    tick_marks,
                    style,
                    inverse,
                );
            }
        },
        Placement::LeftOrTop { offset, inside } => {
            let bounds = offset.offset_rect(bounds);
            if *inside {
                draw_vertical_left_aligned(
                    &mut primitives,
                    &bounds,
                    bounds.x,
                    tick_marks,
                    style,
                    inverse,
                );
            } else {
                draw_vertical_right_aligned(
                    &mut primitives,
                    &bounds,
                    bounds.x,
                    tick_marks,
                    style,
                    inverse,
                );
            }
        },
        Placement::RightOrBottom { offset, inside } => {
            let bounds = offset.offset_rect(bounds);
            if *inside {
                draw_vertical_right_aligned(
                    &mut primitives,
                    &bounds,
                    bounds.x + bounds.width,
                    tick_marks,
                    style,
                    inverse,
                );
            } else {
                draw_vertical_left_aligned(
                    &mut primitives,
                    &bounds,
                    bounds.x + bounds.width,
                    tick_marks,
                    style,
                    inverse,
                );
            }
        },
        Placement::Center { offset, fill_length } => {
            let bounds = offset.offset_rect(bounds);
            draw_vertical_center_aligned(
                &mut primitives,
                &bounds,
                bounds.center_x(),
                tick_marks,
                style,
                *fill_length,
                inverse,
            );
        },
        Placement::CenterSplit { offset, fill_length, gap } => {
            let bounds = offset.offset_rect(bounds);
            draw_vertical_center_aligned_split(
                &mut primitives,
                &bounds,
                bounds.center_x(),
                tick_marks,
                style,
                *fill_length,
                *gap,
                inverse,
            );
        },
    }
    assert(primitives@ =~= vertical_tick_marks(
        *bounds,
        tick_marks@,
        *style,
        *placement,
        inverse,
    ));
    primitives
}

/// The number of marks of a group that a style draws: those of the tiers
/// whose shape is not hidden.
pub open spec fn drawn_marks(group: GroupModel, style: Style) -> nat {
    let first = if style.tier_1 is Hidden {
        0
    } else {
        group.tier_1.len()
    };
    let second = if style.tier_2 is Hidden {
        0
    } else {
        group.tier_2.len()
    };
    let third = if style.tier_3 is Hidden {
        0
    } else {
        group.tier_3.len()
    };
    first + second + third
}

/// The number of sets of marks that a placement draws.
pub open spec fn sets_of(placement: Placement) -> nat {
    match placement {
        Placement::BothSides { .. } => 2,
        Placement::CenterSplit { .. } => 2,
        _ => 1,
    }
}

/// In bounds that cover an area there is one quad for each drawn mark and
/// each set of the placement.
pub proof fn lemma_one_quad_per_mark_and_set(
    bounds: Rectangle,
    group: GroupModel,
    style: Style,
    placement: Placement,
    inverse: bool,
)
    requires
        !bounds.is_degenerate_spec(),
    ensures
        vertical_tick_marks(bounds, group, style, placement, inverse).len() == sets_of(placement)
            * drawn_marks(group, style),
{
    let drawn = drawn_marks(group, style);
    match placement {
        Placement::BothSides { offset, inside } => {
            let b = offset.offset_rect_spec(bounds);
            lemma_sets_hold_the_drawn_marks(b, b.x as int, group, style, false, 0, inverse);
            lemma_sets_hold_the_drawn_marks(b, b.x + b.width, group, style, false, 0, inverse);
            assert(2 * drawn == drawn + drawn);
        },
        Placement::LeftOrTop { offset, inside } => {
            let b = offset.offset_rect_spec(bounds);
            lemma_sets_hold_the_drawn_marks(b, b.x as int, group, style, false, 0, inverse);
            assert(1 * drawn == drawn);
        },
        Placement::RightOrBottom { offset, inside } => {
            let b = offset.offset_rect_spec(bounds);
            lemma_sets_hold_the_drawn_marks(b, b.x + b.width, group, style, false, 0, inverse);
            assert(1 * drawn == drawn);
        },
        Placement::Center { offset, fill_length } => {
            let b = offset.offset_rect_spec(bounds);
            lemma_sets_hold_the_drawn_marks(
                b,
                b.center_x_spec(),
                group,
                style,
                fill_length,
                0,
                inverse,
            );
            assert(1 * drawn == drawn);
        },
        Placement::CenterSplit { offset, fill_length, gap } => {
            let b = offset.offset_rect_spec(bounds);
            lemma_sets_hold_the_drawn_marks(
                b,
                b.center_x_spec(),
                group,
                style,
                fill_length,
                gap as int,
                inverse,
            );
            assert(2 * drawn == drawn + drawn);
        },
    }
}

/// Each way of aligning a group yields one quad for each drawn mark, and
/// the split way two.
proof fn lemma_sets_hold_the_drawn_marks(
    bounds: Bounds,
    x: int,
    group: GroupModel,
    style: Style,
    fill_length: bool,
    gap: int,
    inverse: bool,
)
    ensures
        left_aligned(bounds, x, group, style, inverse).len() == drawn_marks(group, style),
        right_aligned(bounds, x, group, style, inverse).len() == drawn_marks(group, style),
        center_aligned(bounds, x, group, style, fill_length, inverse).len() == drawn_marks(
            group,
            style,
        ),
        center_aligned_split(bounds, x, group, style, fill_length, gap, inverse).len()
            == drawn_marks(group, style) + drawn_marks(group, style),
{
    lemma_tier_holds_its_marks(bounds, x, group.tier_1, style.tier_1, fill_length, gap, inverse);
    lemma_tier_holds_its_marks(bounds, x, group.tier_2, style.tier_2, fill_length, gap, inverse);
    lemma_tier_holds_its_marks(bounds, x, group.tier_3, style.tier_3, fill_length, gap, inverse);
}

/// Each way of aligning a tier yields one quad for each of its marks, and
/// the split way two, unless the shape of the tier is hidden.
proof fn lemma_tier_holds_its_marks(
    bounds: Bounds,
    x: int,
    marks: Seq<Normal>,
    shape: Shape,
    fill_length: bool,
    gap: int,
    inverse: bool,
)
    ensures
        ({
            let drawn = if shape is Hidden {
                0
            } else {
                marks.len()
            };
            &&& left_aligned_tier(bounds, x, marks, shape, inverse).len() == drawn
            &&& right_aligned_tier(bounds, x, marks, shape, inverse).len() == drawn
            &&& center_aligned_tier(bounds, x, marks, shape, fill_length, inverse).len() == drawn
            &&& center_aligned_split_tier(bounds, x, marks, shape, fill_length, gap, inverse).len()
                == drawn + drawn
        }),
{
}

/// A mark lies within the height of the bounds: no higher than the top and
/// no lower than the bottom.
pub proof fn lemma_mark_within_height(mark: Normal, height: int, inverse: bool)
    requires
        mark.wf(),
        height >= 0,
    ensures
        0 <= mark_offset(mark, height, inverse) <= height,
{
    lemma_scaled_bounds(mark@, height);
    lemma_scaled_bounds(NORMAL_ONE - mark@, height);
}

/// Inverting the axis swaps its ends: a mark at zero lies where a mark at
/// one lay, and a mark at one where a mark at zero lay.
pub proof fn lemma_inverse_swaps_ends(low: Normal, high: Normal, height: int, inverse: bool)
    requires
        low@ == 0,
        high@ == NORMAL_ONE,
    ensures
        mark_offset(low, height, inverse) == mark_offset(high, height, !inverse),
        mark_offset(high, height, inverse) == mark_offset(low, height, !inverse),
        mark_offset(low, height, true) == 0,
        mark_offset(high, height, true) == height,
{
    let one = NORMAL_ONE as int;
    assert(0 * height == 0) by (nonlinear_arith);
    assert(one * height / one == height && (-(one * height)) / one == -height)
        by (nonlinear_arith)
        requires
            one > 0,
    ;
    assert(-(one * height) == one * (-height)) by (nonlinear_arith);
}

/// Whether what a cache holds is what [`place_vertical_tick_marks`] gives
/// for the key it holds: true of an empty cache, and of every cache that
/// only [`draw_vertical_tick_marks`] has filled.
pub open spec fn holds_vertical(cache: CacheModel) -> bool {
    cache.entry is Some ==> cache.entry->0.primitives == vertical_tick_marks(
        cache.entry->0.key.bounds,
        cache.entry->0.key.marks,
        cache.entry->0.key.style,
        cache.entry->0.key.placement,
        cache.entry->0.key.inverse,
    )
}

/// The quads of a group of tick marks on a vertical axis, computed only if
/// `cache` does not hold them for these very arguments. The placement must
/// leave the marks room in the bounds.
///
/// * `bounds` - the bounds of the control to place the marks in or around
/// * `tick_marks` - the group of marks
/// * `style` - the shape of each tier
/// * `placement` - where the marks lie relative to the bounds
/// * `inverse` - whether a mark at zero lies at the top instead of the bottom
pub fn draw_vertical_tick_marks(
    bounds: &Rectangle,
    tick_marks: &Group,
    style: &Style,
    placement: &Placement,
    inverse: bool,
    cache: &mut PrimitiveCache,
) -> (primitives: Vec<Quad>)
    requires
        track_has_room(*bounds, tick_marks@, *style, *placement),
    ensures
        primitives@ == old(cache)@.answer(
            Key {
                bounds: *bounds,
                marks: tick_marks@,
                style: *style,
                placement: *placement,
                inverse,
            },
            vertical_tick_marks(*bounds, tick_marks@, *style, *placement, inverse),
        ),
        final(cache)@ == old(cache)@.after(
            Key {
                bounds: *bounds,
                marks: tick_marks@,
                style: *style,
                placement: *placement,
                inverse,
            },
            vertical_tick_marks(*bounds, tick_marks@, *style, *placement, inverse),
        ),
        holds_vertical(old(cache)@) ==> holds_vertical(final(cache)@) && primitives@
            == vertical_tick_marks(*bounds, tick_marks@, *style, *placement, inverse),
{
    let builder = || -> (computed: Vec<Quad>)
        ensures
            computed@ == vertical_tick_marks(*bounds, tick_marks@, *style, *placement, inverse),
        {
            place_vertical_tick_marks(bounds, tick_marks, style, placement, inverse)
        };
    cache.cached_linear(*bounds, tick_marks, *style, *placement, inverse, builder)
}

} // verus!
