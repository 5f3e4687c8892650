//! Tick marks: graduation marks along the axis of a control.
//!
//! A [`Group`] holds the marks by tier, a [`Style`] says what shape each tier
//! takes, and a [`Placement`] says where they lie relative to the bounds of
//! the control. [`vertical`] turns the three into quads.

use crate::geometry::{Offset, Rectangle};
use crate::normal::Normal;
use crate::primitive::{Color, Quad};
use vstd::prelude::*;

pub mod vertical;

verus! {

/// How prominent a mark is; tier one is the most prominent.
#[derive(Clone, Copy, Debug, PartialEq, Eq, Structural)]
pub enum Tier {
    /// The most prominent marks.
    One,
    /// Marks of middle prominence.
    Two,
    /// The least prominent marks.
    Three,
}

/// The shape of the marks of one tier. Lengths are 16.16 fixed-point pixels.
#[derive(Clone, Copy, Debug, PartialEq, Eq, Structural)]
pub enum Shape {
    /// The tier is not drawn.
    Hidden,
    /// A straight line across the axis.
    Line {
        /// Extent across the axis.
        length: u32,
        /// Thickness along the axis.
        width: u32,
        /// Fill color.
        color: Color,
    },
    /// A filled circle.
    Circle {
        /// Diameter of the circle.
        diameter: u32,
        /// Fill color.
        color: Color,
    },
}

/// The shapes of the three tiers.
#[derive(Clone, Copy, Debug, PartialEq, Eq, Structural)]
pub struct Style {
    /// Shape of the marks of tier one.
    pub tier_1: Shape,
    /// Shape of the marks of tier two.
    pub tier_2: Shape,
    /// Shape of the marks of tier three.
    pub tier_3: Shape,
}

/// Where marks lie relative to the bounds of a control. Every variant moves
/// the bounds by its `offset` first.
#[derive(Clone, Copy, Debug, PartialEq, Eq, Structural)]
pub enum Placement {
    /// One set of marks along each of the two edges that run along the axis.
    BothSides {
        /// Displacement of the bounds.
        offset: Offset,
        /// Whether the marks point into the bounds or away from them.
        inside: bool,
    },
    /// One set of marks along the left edge (top edge on a horizontal axis).
    LeftOrTop {
        /// Displacement of the bounds.
        offset: Offset,
        /// Whether the marks point into the bounds or away from them.
        inside: bool,
    },
    /// One set of marks along the right edge (bottom edge on a horizontal
    /// axis).
    RightOrBottom {
        /// Displacement of the bounds.
        offset: Offset,
        /// Whether the marks point into the bounds or away from them.
        inside: bool,
    },
    /// One set of marks through the middle of the bounds.
    Center {
        /// Displacement of the bounds.
        offset: Offset,
        /// Whether marks stretch across the bounds instead of keeping the
        /// length that their shape gives.
        fill_length: bool,
    },
    /// Two sets of marks, one on each side of the middle, `gap` apart.
    CenterSplit {
        /// Displacement of the bounds.
        offset: Offset,
        /// Whether each mark stretches from the gap to the edge of the bounds
        /// instead of keeping the length that its shape gives.
        fill_length: bool,
        /// Distance between the two sets.
        gap: u32,
    },
}

/// The marks of a control: positions along its axis, by tier, each tier in
/// the order in which it was given.
#[derive(Debug)]
pub struct Group {
    tier_1: Vec<Normal>,
    tier_2: Vec<Normal>,
    tier_3: Vec<Normal>,
}

/// What a [`Group`] holds.
pub struct GroupModel {
    /// The marks of tier one, in order.
    pub tier_1: Seq<Normal>,
    /// The marks of tier two, in order.
    pub tier_2: Seq<Normal>,
    /// The marks of tier three, in order.
    pub tier_3: Seq<Normal>,
}

impl GroupModel {
    /// The number of marks in all three tiers.
    pub open spec fn count(self) -> nat {
        self.tier_1.len() + self.tier_2.len() + self.tier_3.len()
    }

    /// The marks of one tier.
    pub open spec fn tier(self, tier: Tier) -> Seq<Normal> {
        match tier {
            Tier::One => self.tier_1,
            Tier::Two => self.tier_2,
            Tier::Three => self.tier_3,
        }
    }
}

impl View for Group {
    type V = GroupModel;

    closed spec fn view(&self) -> GroupModel {
        GroupModel { tier_1: self.tier_1@, tier_2: self.tier_2@, tier_3: self.tier_3@ }
    }
}

/// The positions of those of `marks` that belong to `tier`, order kept.
pub open spec fn positions_of(marks: Seq<(Normal, Tier)>, tier: Tier) -> Seq<Normal>
    decreases marks.len(),
{
    if marks.len() == 0 {
        Seq::empty()
    } else {
        let before = positions_of(marks.drop_last(), tier);
        if marks.last().1 == tier {
            before.push(marks.last().0)
        } else {
            before
        }
    }
}

/// The marks that an optional list stands for: none where it is absent.
pub open spec fn marks_of(tier: Option<&Vec<Normal>>) -> Seq<Normal> {
    match tier {
        Some(marks) => marks@,
        None => Seq::empty(),
    }
}

impl Group {
    /// The marks of a group fit in one count.
    #[verifier::type_invariant]
    closed spec fn inv(self) -> bool {
        self.tier_1.len() + self.tier_2.len() + self.tier_3.len() <= usize::MAX
    }

    /// A group of the given marks, each in the tier named beside it.
    pub fn new(tick_marks: Vec<(Normal, Tier)>) -> (group: Self)
        ensures
            group@.tier_1 == positions_of(tick_marks@, Tier::One),
            group@.tier_2 == positions_of(tick_marks@, Tier::Two),
            group@.tier_3 == positions_of(tick_marks@, Tier::Three),
            group@.count() == tick_marks@.len(),
    {
        let mut tier_1: Vec<Normal> = Vec::new();
        let mut tier_2: Vec<Normal> = Vec::new();
        let mut tier_3: Vec<Normal> = Vec::new();
        let mut i: usize = 0;
        while i < tick_marks.len()
            invariant
                i <= tick_marks.len(),
                tier_1@ == positions_of(tick_marks@.take(i as int), Tier::One),
                tier_2@ == positions_of(tick_marks@.take(i as int), Tier::Two),
                tier_3@ == positions_of(tick_marks@.take(i as int), Tier::Three),
                tier_1.len() + tier_2.len() + tier_3.len() == i,
            decreases tick_marks.len() - i,
        {
            let mark = tick_marks[i];
            assert(tick_marks@.take(i + 1).drop_last() == tick_marks@.take(i as int));
            assert(tick_marks@.take(i + 1).last() == mark);
            match mark.1 {
                Tier::One => tier_1.push(mark.0),
                Tier::Two => tier_2.push(mark.0),
                Tier::Three => tier_3.push(mark.0),
            }
            i += 1;
        }
        assert(tick_marks@.take(i as int) == tick_marks@);
        Group { tier_1, tier_2, tier_3 }
    }

    /// The marks of tier one, if there are any.
    pub fn tier_1(&self) -> (marks: Option<&Vec<Normal>>)
        ensures
            marks is Some <==> self@.tier_1.len() > 0,
            marks_of(marks) == self@.tier_1,
    {
        if self.tier_1.len() > 0 {
            Some(&self.tier_1)
        } else {
            None
        }
    }

    /// The marks of tier two, if there are any.
    pub fn tier_2(&self) -> (marks: Option<&Vec<Normal>>)
        ensures
            marks is Some <==> self@.tier_2.len() > 0,
            marks_of(marks) == self@.tier_2,
    {
        if self.tier_2.len() > 0 {
            Some(&self.tier_2)
        } else {
            None
        }
    }

    /// The marks of tier three, if there are any.
    pub fn tier_3(&self) -> (marks: Option<&Vec<Normal>>)
        ensures
            marks is Some <==> self@.tier_3.len() > 0,
            marks_of(marks) == self@.tier_3,
    {
        if self.tier_3.len() > 0 {
            Some(&self.tier_3)
        } else {
            None
        }
    }

    /// The number of marks in all three tiers.
    pub fn len(&self) -> (count: usize)
        ensures
            count == self@.count(),
    {
        proof {
            use_type_invariant(self);
        }
        self.tier_1.len() + self.tier_2.len() + self.tier_3.len()
    }
}

impl Clone for Group {
    /// A group with the same marks.
    fn clone(&self) -> (copy: Self)
        ensures
            copy@ == self@,
    {
        proof {
            use_type_invariant(self);
        }
        Group {
            tier_1: copy_marks(&self.tier_1),
            tier_2: copy_marks(&self.tier_2),
            tier_3: copy_marks(&self.tier_3),
        }
    }
}

/// A new list with the same marks in the same order.
pub fn copy_marks(marks: &Vec<Normal>) -> (copy: Vec<Normal>)
    ensures
        copy@ == marks@,
{
    let mut copy: Vec<Normal> = Vec::new();
    let mut i: usize = 0;
    while i < marks.len()
        invariant
            i <= marks.len(),
            copy@ == marks@.take(i as int),
        decreases marks.len() - i,
    {
        copy.push(marks[i]);
        assert(marks@.take(i + 1) == marks@.take(i as int).push(marks@[i as int]));
        i += 1;
    }
    assert(marks@.take(i as int) == marks@);
    copy
}

/// Whether two lists hold the same marks in the same order.
pub fn same_marks(a: &Vec<Normal>, b: &Vec<Normal>) -> (same: bool)
    ensures
        same == (a@ == b@),
{
    if a.len() != b.len() {
        return false;
    }
    let mut i: usize = 0;
    while i < a.len()
        invariant
            i <= a.len(),
            a.len() == b.len(),
            a@.take(i as int) == b@.take(i as int),
        decreases a.len() - i,
    {
        if a[i] != b[i] {
            return false;
        }
        assert(a@.take(i + 1) == a@.take(i as int).push(a@[i as int]));
        assert(b@.take(i + 1) == b@.take(i as int).push(b@[i as int]));
        i += 1;
    }
    assert(a@.take(i as int) == a@);
    assert(b@.take(i as int) == b@);
    true
}

impl Group {
    /// Whether two groups hold the same marks in the same tiers and order.
    pub fn same(&self, other: &Group) -> (same: bool)
        ensures
            same == (self@ == other@),
    {
        same_marks(&self.tier_1, &other.tier_1) && same_marks(&self.tier_2, &other.tier_2)
            && same_marks(&self.tier_3, &other.tier_3)
    }
}

/// A new list with the same quads in the same order.
pub fn copy_quads(quads: &Vec<Quad>) -> (copy: Vec<Quad>)
    ensures
        copy@ == quads@,
{
    let mut copy: Vec<Quad> = Vec::new();
    let mut i: usize = 0;
    while i < quads.len()
        invariant
            i <= quads.len(),
            copy@ == quads@.take(i as int),
        decreases quads.len() - i,
    {
        copy.push(quads[i]);
        assert(quads@.take(i + 1) == quads@.take(i as int).push(quads@[i as int]));
        i += 1;
    }
    assert(quads@.take(i as int) == quads@);
    copy
}

/// Everything that the quads of a group of marks depend on.
pub struct Key {
    /// The bounds of the control.
    pub bounds: Rectangle,
    /// The marks.
    pub marks: GroupModel,
    /// The shapes of the tiers.
    pub style: Style,
    /// Where the marks lie relative to the bounds.
    pub placement: Placement,
    /// Whether the axis is inverted.
    pub inverse: bool,
}

/// The quads that were computed for a key.
pub struct Entry {
    /// What the quads were computed for.
    pub key: Key,
    /// The quads.
    pub primitives: Seq<Quad>,
}

/// What a [`PrimitiveCache`] holds: the entry of the last computation, if
/// there was one, and how many computations it has asked for so far.
pub struct CacheModel {
    /// The entry of the last computation.
    pub entry: Option<Entry>,
    /// How many computations the cache has asked for.
    pub computed: nat,
}

impl CacheModel {
    /// Whether the cache holds the quads of `key`.
    pub open spec fn hit(self, key: Key) -> bool {
        self.entry is Some && self.entry->0.key == key
    }

    /// The quads that the cache answers a request for `key` with, where a
    /// computation would give `computed`.
    pub open spec fn answer(self, key: Key, computed: Seq<Quad>) -> Seq<Quad> {
        if self.hit(key) {
            self.entry->0.primitives
        } else {
            computed
        }
    }

    /// The cache after a request for `key`, where a computation would give
    /// `computed`: unchanged on a hit; else it holds the new entry alone and
    /// has counted one more computation.
    pub open spec fn after(self, key: Key, computed: Seq<Quad>) -> CacheModel {
        if self.hit(key) {
            self
        } else {
            CacheModel {
                entry: Some(Entry { key, primitives: computed }),
                computed: self.computed + 1,
            }
        }
    }
}

/// Remembers the quads of the last group of marks that was placed, so that
/// drawing the same marks in the same bounds again computes nothing.
pub struct PrimitiveCache {
    filled: bool,
    bounds: Rectangle,
    marks: Group,
    style: Style,
    placement: Placement,
    inverse: bool,
    primitives: Vec<Quad>,
    computed: Ghost<nat>,
}

impl View for PrimitiveCache {
    type V = CacheModel;

    closed spec fn view(&self) -> CacheModel {
        CacheModel {
            entry: if self.filled {
                Some(
                    Entry {
                        key: Key {
                            bounds: self.bounds,
                            marks: self.marks@,
                            style: self.style,
                            placement: self.placement,
                            inverse: self.inverse,
                        },
                        primitives: self.primitives@,
                    },
                )
            } else {
                None
            },
            computed: self.computed@,
        }
    }
}

impl PrimitiveCache {
    /// An empty cache that has asked for no computation yet.
    pub fn new() -> (cache: Self)
        ensures
            cache@.entry is None,
            cache@.computed == 0,
    {
        let hidden = Shape::Hidden;
        PrimitiveCache {
            filled: false,
            bounds: Rectangle { x: 0, y: 0, width: 0, height: 0 },
            marks: Group::new(Vec::new()),
            style: Style { tier_1: hidden, tier_2: hidden, tier_3: hidden },
            placement: Placement::Center { offset: Offset { x: 0, y: 0 }, fill_length: false },
            inverse: false,
            primitives: Vec::new(),
            computed: Ghost(0),
        }
    }

    /// Whether the cache holds the quads of this key.
    pub fn holds(
        &self,
        bounds: &Rectangle,
        tick_marks: &Group,
        style: &Style,
        placement: &Placement,
        inverse: bool,
    ) -> (hit: bool)
        ensures
            hit == self@.hit(
                Key {
                    bounds: *bounds,
                    marks: tick_marks@,
                    style: *style,
                    placement: *placement,
                    inverse,
                },
            ),
    {
        self.filled && self.bounds == *bounds && self.style == *style && self.placement
            == *placement && self.inverse == inverse && self.marks.same(tick_marks)
    }

    /// The quads of the key: those that the cache holds if it holds this
    /// very key, else those that `builder` computes, which the cache then
    /// holds in place of what it held. On a hit `builder` is not called.
    pub fn cached_linear<F: FnOnce() -> Vec<Quad>>(
        &mut self,
        bounds: Rectangle,
        tick_marks: &Group,
        style: Style,
        placement: Placement,
        inverse: bool,
        builder: F,
    ) -> (primitives: Vec<Quad>)
        requires
            !old(self)@.hit(Key { bounds, marks: tick_marks@, style, placement, inverse })
                ==> builder.requires(()),
        ensures
            final(self)@ == old(self)@.after(
                Key { bounds, marks: tick_marks@, style, placement, inverse },
                primitives@,
            ),
            primitives@ == old(self)@.answer(
                Key { bounds, marks: tick_marks@, style, placement, inverse },
                primitives@,
            ),
            !old(self)@.hit(Key { bounds, marks: tick_marks@, style, placement, inverse })
                ==> builder.ensures((), primitives),
    {
        if self.holds(&bounds, tick_marks, &style, &placement, inverse) {
            copy_quads(&self.primitives)
        } else {
            let primitives = builder();
            self.filled = true;
            self.bounds = bounds;
            self.marks = tick_marks.clone();
            self.style = style;
            self.placement = placement;
            self.inverse = inverse;
            self.primitives = copy_quads(&primitives);
            self.computed = Ghost((self.computed@ + 1) as nat);
            primitives
        }
    }
}

impl Default for PrimitiveCache {
    /// An empty cache.
    fn default() -> (cache: Self)
        ensures
            cache@.entry is None,
            cache@.computed == 0,
    {
        PrimitiveCache::new()
    }
}

impl Clone for PrimitiveCache {
    /// A cache that holds the same entry.
    fn clone(&self) -> (copy: Self)
        ensures
            copy@ == self@,
    {
        PrimitiveCache {
            filled: self.filled,
            bounds: self.bounds,
            marks: self.marks.clone(),
            style: self.style,
            placement: self.placement,
            inverse: self.inverse,
            primitives: copy_quads(&self.primitives),
            computed: self.computed,
        }
    }
}

/// Asking twice for the same key computes at most once: the second request
/// leaves the cache as the first left it, counts no computation and is
/// answered with what the first was answered with.
pub proof fn lemma_same_key_computes_once(
    cache: CacheModel,
    key: Key,
    first: Seq<Quad>,
    second: Seq<Quad>,
)
    ensures
        cache.after(key, first).after(key, second) == cache.after(key, first),
        cache.after(key, first).after(key, second).computed == cache.after(key, first).computed,
        cache.after(key, first).answer(key, second) == cache.answer(key, first),
{
}

/// Asking for a key that differs from the one last asked for, in any one of
/// its parts, computes anew: the cache counts one more computation, answers
/// with what was computed and holds the new key.
pub proof fn lemma_changed_key_recomputes(
    cache: CacheModel,
    key: Key,
    first: Seq<Quad>,
    changed: Key,
    second: Seq<Quad>,
)
    requires
        changed != key,
    ensures
        !cache.after(key, first).hit(changed),
        cache.after(key, first).after(changed, second).computed == cache.after(
            key,
            first,
        ).computed + 1,
        cache.after(key, first).answer(changed, second) == second,
        cache.after(key, first).after(changed, second).hit(changed),
{
}

} // verus!
