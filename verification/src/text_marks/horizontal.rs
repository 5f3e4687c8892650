//! Text marks along a horizontal axis: a label at zero lies at the left end
//! of the bounds and a label at one at the right end, unless the axis is
//! inverted.

use crate::fixed::{round_to_whole, rounded, NORMAL_ONE};
use crate::geometry::{Bounds, Rectangle};
use crate::normal::{lemma_scaled_bounds, scaled, Normal};
use crate::primitive::{text_models, Horizontal, Text, TextModel, Vertical};
use crate::text_marks::{Align, CacheModel, Group, Key, MarkModel, Placement, PrimitiveCache, Style};
use vstd::prelude::*;

verus! {

/// The horizontal anchor of a label: its position along the width of the
/// bounds, rounded to a whole pixel.
pub open spec fn mark_x(position: Normal, bounds: Bounds, inverse: bool) -> int {
    rounded(
        bounds.x + if inverse {
            scaled(NORMAL_ONE - position@, bounds.width as int)
        } else {
            scaled(position@, bounds.width as int)
        },
    )
}

/// The text of one label, anchored at height `y` and centered horizontally
/// on its position.
pub open spec fn label_text(
    mark: MarkModel,
    bounds: Bounds,
    y: int,
    style: Style,
    inverse: bool,
    align: Vertical,
) -> TextModel {
    TextModel {
        content: mark.label,
        size: style.text_size * 65536,
        bounds: Bounds {
            x: mark_x(mark.position, bounds, inverse) as i64,
            y: y as i64,
            width: (style.bounds_width * 65536) as i64,
            height: (style.bounds_height * 65536) as i64,
        },
        color: style.color,
        font: style.font,
        horizontal_alignment: Horizontal::Center,
        vertical_alignment: align,
    }
}

/// One text for each label, in order, all anchored at height `y`.
pub open spec fn aligned(
    bounds: Bounds,
    y: int,
    marks: Seq<MarkModel>,
    style: Style,
    inverse: bool,
    align: Vertical,
) -> Seq<TextModel> {
    Seq::new(marks.len(), |i: int| label_text(marks[i], bounds, y, style, inverse, align))
}

/// Appends one text for each label of the group, anchored at height `y`.
pub fn draw_aligned(
    primitives: &mut Vec<Text>,
    bounds: &Bounds,
    y: i64,
    text_marks: &Group,
    style: &Style,
    inverse: bool,
    align: Vertical,
)
    requires
        bounds.fits(),
    ensures
        text_models(final(primitives)@) == text_models(old(primitives)@) + aligned(
            *bounds,
            y as int,
            text_marks@,
            *style,
            inverse,
            align,
        ),
{
    let color = style.color;
    let font = style.font;
    let text_size: i64 = (style.text_size as i64) * 65536;
    let text_bounds_width: i64 = (style.bounds_width as i64) * 65536;
    let text_bounds_height: i64 = (style.bounds_height as i64) * 65536;
    let mut i: usize = 0;
    while i < text_marks.len()
        invariant
            i <= text_marks@.len(),
            bounds.fits(),
            color == style.color,
            font == style.font,
            text_size == style.text_size * 65536,
            text_bounds_width == style.bounds_width * 65536,
            text_bounds_height == style.bounds_height * 65536,
            text_models(primitives@) == text_models(old(primitives)@) + aligned(
                *bounds,
                y as int,
                text_marks@.take(i as int),
                *style,
                inverse,
                align,
            ),
        decreases text_marks@.len() - i,
    {
        let position = text_marks.position(i);
        proof {
            use_type_invariant(&position);
            lemma_scaled_bounds(position@, bounds.width as int);
            lemma_scaled_bounds(NORMAL_ONE - position@, bounds.width as int);
        }
        let along: i64 = if inverse {
            position.scale_inv(bounds.width)
        } else {
            position.scale(bounds.width)
        };
        let ghost before = primitives@;
        primitives.push(
            Text {
                content: text_marks.label(i).clone(),
                size: text_size,
                bounds: Bounds {
                    x: round_to_whole(bounds.x + along),
                    y,
                    width: text_bounds_width,
                    height: text_bounds_height,
                },
                color,
                font,
                horizontal_alignment: Horizontal::Center,
                vertical_alignment: align,
            },
        );
        assert(text_models(primitives@) =~= text_models(before).push(
            label_text(text_marks@[i as int], *bounds, y as int, *style, inverse, align),
        ));
        assert(text_models(primitives@) =~= text_models(old(primitives)@) + aligned(
            *bounds,
            y as int,
            text_marks@.take(i + 1),
            *style,
            inverse,
            align,
        ));
        i += 1;
    }
    assert(text_marks@.take(i as int) == text_marks@);
}

/// The texts of a group of labels on a horizontal axis: none in bounds that
/// cover no area; else, in the bounds moved by the placement's offset, one
/// set anchored at the top edge, the bottom edge or the middle line, or two
/// sets, the top one first. A set inside the bounds hangs below the top edge
/// or stands on the bottom edge; a set outside does the opposite.
pub open spec fn horizontal_text_marks(
    bounds: Rectangle,
    marks: Seq<MarkModel>,
    style: Style,
    placement: Placement,
    inverse: bool,
) -> Seq<TextModel> {
    if bounds.is_degenerate_spec() {
        Seq::empty()
    } else {
        match placement {
            Placement::BothSides { inside, offset } => {
                let b = offset.offset_rect_spec(bounds);
                aligned(
                    b,
                    b.y as int,
                    marks,
                    style,
                    inverse,
                    if inside {
                        Vertical::Top
                    } else {
                        Vertical::Bottom
                    },
                ) + aligned(
                    b,
                    b.y + b.height,
                    marks,
                    style,
                    inverse,
                    if inside {
                        Vertical::Bottom
                    } else {
                        Vertical::Top
                    },
                )
            },
            Placement::LeftOrTop { inside, offset } => {
                let b = offset.offset_rect_spec(bounds);
                aligned(
                    b,
                    b.y as int,
                    marks,
                    style,
                    inverse,
                    if inside {
                        Vertical::Top
                    } else {
                        Vertical::Bottom
                    },
                )
            },
            Placement::RightOrBottom { inside, offset } => {
                let b = offset.offset_rect_spec(bounds);
                aligned(
                    b,
                    b.y + b.height,
                    marks,
                    style,
                    inverse,
                    if inside {
                        Vertical::Bottom
                    } else {
                        Vertical::Top
                    },
                )
            },
            Placement::Center { align, offset } => {
                let b = offset.offset_rect_spec(bounds);
                aligned(
                    b,
                    b.center_y_spec(),
                    marks,
                    style,
                    inverse,
                    match align {
                        Align::Start => Vertical::Top,
                        Align::End => Vertical::Bottom,
                        Align::Center => Vertical::Center,
                    },
                )
            },
        }
    }
}

/// Computes the texts of a group of labels on a horizontal axis.
pub fn place_horizontal_text_marks(
    bounds: &Rectangle,
    text_marks: &Group,
    style: &Style,
    placement: &Placement,
    inverse: bool,
) -> (primitives: Vec<Text>)
    ensures
        text_models(primitives@) == horizontal_text_marks(
            *bounds,
            text_marks@,
            *style,
            *placement,
            inverse,
        ),
{
    let mut primitives: Vec<Text> = Vec::new();
    assert(text_models(primitives@) =~= Seq::empty());
    if bounds.is_degenerate() {
        return primitives;
    }
    match placement {
        Placement::BothSides { inside, offset } => {
            let bounds = offset.offset_rect(bounds);
            if *inside {
                draw_aligned(
                    &mut primitives,
                    &bounds,
                    bounds.y,
                    text_marks,
                    style,
                    inverse,
                    Vertical::Top,
                );
                draw_aligned(
                    &mut primitives,
                    &bounds,
                    bounds.y + bounds.height,
                    text_marks,
                    style,
                    inverse,
                    Vertical::Bottom,
                );
            } else {
                draw_aligned(
                    &mut primitives,
                    &bounds,
                    bounds.y,
                    text_marks,
                    style,
                    inverse,
                    Vertical::Bottom,
                );
                draw_aligned(
                    &mut primitives,
                    &bounds,
                    bounds.y + bounds.height,
                    text_marks,
                    style,
                    inverse,
                    Vertical::Top,
                );
            }
        },
        Placement::LeftOrTop { inside, offset } => {
            let bounds = offset.offset_rect(bounds);
            if *inside {
                draw_aligned(
                    &mut primitives,
                    &bounds,
                    bounds.y,
                    text_marks,
                    style,
                    inverse,
                    Vertical::Top,
                );
            } else {
                draw_aligned(
                    &mut primitives,
                    &bounds,
                    bounds.y,
                    text_marks,
                    style,
                    inverse,
                    Vertical::Bottom,
                );
            }
        },
        Placement::RightOrBottom { inside, offset } => {
            let bounds = offset.offset_rect(bounds);
            if *inside {
                draw_aligned(
                    &mut primitives,
                    &bounds,
                    bounds.y + bounds.height,
                    text_marks,
                    style,
                    inverse,
                    Vertical::Bottom,
                );
            } else {
                draw_aligned(
                    &mut primitives,
                    &bounds,
                    bounds.y + bounds.height,
                    text_marks,
                    style,
                    inverse,
                    Vertical::Top,
                );
            }
        },
        Placement::Center { align, offset } => {
            let bounds = offset.offset_rect(bounds);
            match align {
                Align::Start => {
                    draw_aligned(
                        &mut primitives,
                        &bounds,
                        bounds.center_y(),
                        text_marks,
                        style,
                        inverse,
                        Vertical::Top,
                    );
                },
                Align::End => {
                    draw_aligned(
                        &mut primitives,
                        &bounds,
                        bounds.center_y(),
                        text_marks,
                        style,
                        inverse,
                        Vertical::Bottom,
                    );
                },
                Align::Center => {
                    draw_aligned(
                        &mut primitives,
                        &bounds,
                        bounds.center_y(),
                        text_marks,
                        style,
                        inverse,
                        Vertical::Center,
                    );
                },
            }
        },
    }
    assert(text_models(primitives@) =~= horizontal_text_marks(
        *bounds,
        text_marks@,
        *style,
        *placement,
        inverse,
    ));
    primitives
}

/// The number of sets of labels that a placement draws.
pub open spec fn sets_of(placement: Placement) -> nat {
    match placement {
        Placement::BothSides { .. } => 2,
        _ => 1,
    }
}

/// In bounds that cover an area there is one text for each label and each
/// set of the placement, and each text says what its label says.
pub proof fn lemma_one_text_per_label_and_set(
    bounds: Rectangle,
    marks: Seq<MarkModel>,
    style: Style,
    placement: Placement,
    inverse: bool,
)
    requires
        !bounds.is_degenerate_spec(),
    ensures
        horizontal_text_marks(bounds, marks, style, placement, inverse).len() == sets_of(placement)
            * marks.len(),
        forall|i: int|
            0 <= i < sets_of(placement) * marks.len() ==> (#[trigger] horizontal_text_marks(
                bounds,
                marks,
                style,
                placement,
                inverse,
            )[i]).content == marks[i % (marks.len() as int)].label,
{
    let texts = horizontal_text_marks(bounds, marks, style, placement, inverse);
    let n = marks.len() as int;
    match placement {
        Placement::BothSides { .. } => {
            assert(2 * marks.len() == marks.len() + marks.len());
            assert(texts.len() == n + n);
        },
        _ => {
            assert(1 * marks.len() == marks.len());
            assert(texts.len() == n);
        },
    }
    assert forall|i: int| 0 <= i < texts.len() implies (#[trigger] texts[i]).content == marks[i
        % n].label by {
        if i < n {
            assert(i % n == i) by (nonlinear_arith)
                requires
                    0 <= i < n,
            ;
        } else {
            assert(i % n == i - n) by (nonlinear_arith)
                requires
                    n <= i < 2 * n,
            ;
        }
    }
}

/// Whether what a cache holds is what [`place_horizontal_text_marks`] gives
/// for the key it holds: true of an empty cache, and of every cache that
/// only [`draw_horizontal_text_marks`] has filled.
pub open spec fn holds_horizontal(cache: CacheModel) -> bool {
    cache.entry is Some ==> cache.entry->0.primitives == horizontal_text_marks(
        cache.entry->0.key.bounds,
        cache.entry->0.key.marks,
        cache.entry->0.key.style,
        cache.entry->0.key.placement,
        cache.entry->0.key.inverse,
    )
}

/// The texts of a group of text marks on a horizontal axis, computed only if
/// `cache` does not hold them for these very arguments.
///
/// * `bounds` - the bounds of the control to place the labels in or around
/// * `text_marks` - the group of labels
/// * `style` - how the labels are set
/// * `placement` - where the labels lie relative to the bounds
/// * `inverse` - whether a label at zero lies at the right end instead of
///   the left
pub fn draw_horizontal_text_marks(
    bounds: &Rectangle,
    text_marks: &Group,
    style: &Style,
    placement: &Placement,
    inverse: bool,
    cache: &mut PrimitiveCache,
) -> (primitives: Vec<Text>)
    ensures
        text_models(primitives@) == old(cache)@.answer(
            Key {
                bounds: *bounds,
                marks: text_marks@,
                style: *style,
                placement: *placement,
                inverse,
            },
            horizontal_text_marks(*bounds, text_marks@, *style, *placement, inverse),
        ),
        final(cache)@ == old(cache)@.after(
            Key {
                bounds: *bounds,
                marks: text_marks@,
                style: *style,
                placement: *placement,
                inverse,
            },
            horizontal_text_marks(*bounds, text_marks@, *style, *placement, inverse),
        ),
        holds_horizontal(old(cache)@) ==> holds_horizontal(final(cache)@) && text_models(
            primitives@,
        ) == horizontal_text_marks(*bounds, text_marks@, *style, *placement, inverse),
{
    let builder = || -> (computed: Vec<Text>)
        ensures
            text_models(computed@) == horizontal_text_marks(
                *bounds,
                text_marks@,
                *style,
                *placement,
                inverse,
            ),
        {
            place_horizontal_text_marks(bounds, text_marks, style, placement, inverse)
        };
    cache.cached_linear(*bounds, text_marks, *style, *placement, inverse, builder)
}

} // verus!
