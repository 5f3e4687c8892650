//! Text marks: labels along the axis of a control.
//!
//! A [`Group`] holds the labels with their positions, a [`Style`] says how
//! they are set, and a [`Placement`] says where they lie relative to the
//! bounds of the control. [`horizontal`] turns the three into runs of text.

use crate::geometry::{Offset, Rectangle};
use crate::normal::Normal;
use crate::primitive::{text_models, Color, Font, Text, TextModel};
use vstd::prelude::*;

pub mod horizontal;

verus! {

/// Which side of the middle line a centered label lies on.
#[derive(Clone, Copy, Debug, PartialEq, Eq, Structural)]
pub enum Align {
    /// The label starts at the middle line.
    Start,
    /// The label ends at the middle line.
    End,
    /// The label is centered on the middle line.
    Center,
}

/// Where labels lie relative to the bounds of a control. Every variant moves
/// the bounds by its `offset` first.
#[derive(Clone, Copy, Debug, PartialEq, Eq, Structural)]
pub enum Placement {
    /// One set of labels along each of the two edges that run along the axis.
    BothSides {
        /// Whether the labels lie inside the bounds or outside them.
        inside: bool,
        /// Displacement of the bounds.
        offset: Offset,
    },
    /// One set of labels along the top edge (left edge on a vertical axis).
    LeftOrTop {
        /// Whether the labels lie inside the bounds or outside them.
        inside: bool,
        /// Displacement of the bounds.
        offset: Offset,
    },
    /// One set of labels along the bottom edge (right edge on a vertical
    /// axis).
    RightOrBottom {
        /// Whether the labels lie inside the bounds or outside them.
        inside: bool,
        /// Displacement of the bounds.
        offset: Offset,
    },
    /// One set of labels along the middle line of the bounds.
    Center {
        /// Which side of the middle line the labels lie on.
        align: Align,
        /// Displacement of the bounds.
        offset: Offset,
    },
}

/// How labels are set. Sizes are whole pixels.
#[derive(Clone, Copy, Debug, PartialEq, Eq, Structural)]
pub struct Style {
    /// Color of the type.
    pub color: Color,
    /// Height of the type.
    pub text_size: u16,
    /// The font to set the labels in.
    pub font: Font,
    /// Width of the box that a label may fill.
    pub bounds_width: u16,
    /// Height of the box that a label may fill.
    pub bounds_height: u16,
}

/// The labels of a control, each with its position along the axis, in the
/// order in which they were given.
#[derive(Debug)]
pub struct Group {
    group: Vec<(Normal, String)>,
}

/// One label: its position and its characters.
pub struct MarkModel {
    /// Where the label lies along the axis.
    pub position: Normal,
    /// The characters of the label.
    pub label: Seq<char>,
}

impl View for Group {
    type V = Seq<MarkModel>;

    closed spec fn view(&self) -> Seq<MarkModel> {
        mark_models(self.group@)
    }
}

/// The models of a list of labels, in order.
pub open spec fn mark_models(marks: Seq<(Normal, String)>) -> Seq<MarkModel> {
    Seq::new(marks.len(), |i: int| MarkModel { position: marks[i].0, label: marks[i].1@ })
}

impl Group {
    /// A group of the given labels.
    pub fn new(text_marks: Vec<(Normal, String)>) -> (group: Self)
        ensures
            group@ == mark_models(text_marks@),
    {
        Group { group: text_marks }
    }

    /// The number of labels.
    pub fn len(&self) -> (count: usize)
        ensures
            count == self@.len(),
    {
        self.group.len()
    }

    /// The position of label `index`.
    pub fn position(&self, index: usize) -> (position: Normal)
        requires
            index < self@.len(),
        ensures
            position == self@[index as int].position,
    {
        self.group[index].0
    }

    /// The characters of label `index`.
    pub fn label(&self, index: usize) -> (label: &String)
        requires
            index < self@.len(),
        ensures
            label@ == self@[index as int].label,
    {
        &self.group[index].1
    }

    /// Whether two groups hold the same labels at the same positions in the
    /// same order.
    pub fn same(&self, other: &Group) -> (same: bool)
        ensures
            same == (self@ == other@),
    {
        if self.group.len() != other.group.len() {
            assert(self@.len() != other@.len());
            return false;
        }
        let mut i: usize = 0;
        while i < self.group.len()
            invariant
                i <= self.group.len(),
                self.group.len() == other.group.len(),
                forall|k: int| 0 <= k < i ==> self@[k] == other@[k],
            decreases self.group.len() - i,
        {
            if self.group[i].0 != other.group[i].0 || self.group[i].1 != other.group[i].1 {
                assert(self@[i as int] != other@[i as int]);
                return false;
            }
            i += 1;
        }
        assert(self@ =~= other@);
        true
    }
}

impl Clone for Group {
    /// A group with the same labels.
    fn clone(&self) -> (copy: Self)
        ensures
            copy@ == self@,
    {
        let mut group: Vec<(Normal, String)> = Vec::new();
        let mut i: usize = 0;
        while i < self.group.len()
            invariant
                i <= self.group.len(),
                group.len() == i,
                forall|k: int|
                    0 <= k < i ==> (#[trigger] group@[k]).0 == self.group@[k].0 && group@[k].1@
                        == self.group@[k].1@,
            decreases self.group.len() - i,
        {
            group.push((self.group[i].0, self.group[i].1.clone()));
            i += 1;
        }
        assert(mark_models(group@) =~= mark_models(self.group@));
        Group { group }
    }
}

/// A new list of texts that say the same, in the same order.
pub fn copy_texts(texts: &Vec<Text>) -> (copy: Vec<Text>)
    ensures
        text_models(copy@) == text_models(texts@),
{
    let mut copy: Vec<Text> = Vec::new();
    let mut i: usize = 0;
    while i < texts.len()
        invariant
            i <= texts.len(),
            copy.len() == i,
            forall|k: int| 0 <= k < i ==> (#[trigger] copy@[k])@ == texts@[k]@,
        decreases texts.len() - i,
    {
        copy.push(texts[i].clone());
        i += 1;
    }
    assert(text_models(copy@) =~= text_models(texts@));
    copy
}

/// Everything that the texts of a group of labels depend on.
pub struct Key {
    /// The bounds of the control.
    pub bounds: Rectangle,
    /// The labels.
    pub marks: Seq<MarkModel>,
    /// How the labels are set.
    pub style: Style,
    /// Where the labels lie relative to the bounds.
    pub placement: Placement,
    /// Whether the axis is inverted.
    pub inverse: bool,
}

/// The texts that were computed for a key.
pub struct Entry {
    /// What the texts were computed for.
    pub key: Key,
    /// The texts.
    pub primitives: Seq<TextModel>,
}

/// What a [`PrimitiveCache`] holds: the entry of the last computation, if
/// there was one, and how many computations it has asked for so far.
pub struct CacheModel {
    /// The entry of the last computation.
    pub entry: Option<Entry>,
    /// How many computations the cache has asked for.
    pub computed: nat,
}

impl CacheModel {
    /// Whether the cache holds the texts of `key`.
    pub open spec fn hit(self, key: Key) -> bool {
        self.entry is Some && self.entry->0.key == key
    }

    /// The texts that the cache answers a request for `key` with, where a
    /// computation would give `computed`.
    pub open spec fn answer(self, key: Key, computed: Seq<TextModel>) -> Seq<TextModel> {
        if self.hit(key) {
            self.entry->0.primitives
        } else {
            computed
        }
    }

    /// The cache after a request for `key`, where a computation would give
    /// `computed`: unchanged on a hit; else it holds the new entry alone and
    /// has counted one more computation.
    pub open spec fn after(self, key: Key, computed: Seq<TextModel>) -> CacheModel {
        if self.hit(key) {
            self
        } else {
            CacheModel {
                entry: Some(Entry { key, primitives: computed }),
                computed: self.computed + 1,
            }
        }
    }
}

/// Remembers the texts of the last group of labels that was placed, so that
/// drawing the same labels in the same bounds again computes nothing.
pub struct PrimitiveCache {
    filled: bool,
    bounds: Rectangle,
    marks: Group,
    style: Style,
    placement: Placement,
    inverse: bool,
    primitives: Vec<Text>,
    computed: Ghost<nat>,
}

impl View for PrimitiveCache {
    type V = CacheModel;

    closed spec fn view(&self) -> CacheModel {
        CacheModel {
            entry: if self.filled {
                Some(
                    Entry {
                        key: Key {
                            bounds: self.bounds,
                            marks: self.marks@,
                            style: self.style,
                            placement: self.placement,
                            inverse: self.inverse,
                        },
                        primitives: text_models(self.primitives@),
                    },
                )
            } else {
                None
            },
            computed: self.computed@,
        }
    }
}

impl PrimitiveCache {
    /// An empty cache that has asked for no computation yet.
    pub fn new() -> (cache: Self)
        ensures
            cache@.entry is None,
            cache@.computed == 0,
    {
        let none = Color { r: 0, g: 0, b: 0, a: 0 };
        PrimitiveCache {
            filled: false,
            bounds: Rectangle { x: 0, y: 0, width: 0, height: 0 },
            marks: Group::new(Vec::new()),
            style: Style {
                color: none,
                text_size: 0,
                font: Font { id: 0 },
                bounds_width: 0,
                bounds_height: 0,
            },
            placement: Placement::Center { align: Align::Center, offset: Offset { x: 0, y: 0 } },
            inverse: false,
            primitives: Vec::new(),
            computed: Ghost(0),
        }
    }

    /// Whether the cache holds the texts of this key.
    pub fn holds(
        &self,
        bounds: &Rectangle,
        text_marks: &Group,
        style: &Style,
        placement: &Placement,
        inverse: bool,
    ) -> (hit: bool)
        ensures
            hit == self@.hit(
                Key {
                    bounds: *bounds,
                    marks: text_marks@,
                    style: *style,
                    placement: *placement,
                    inverse,
                },
            ),
    {
        self.filled && self.bounds == *bounds && self.style == *style && self.placement
            == *placement && self.inverse == inverse && self.marks.same(text_marks)
    }

    /// The texts of the key: those that the cache holds if it holds this
    /// very key, else those that `builder` computes, which the cache then
    /// holds in place of what it held. On a hit `builder` is not called.
    pub fn cached_linear<F: FnOnce() -> Vec<Text>>(
        &mut self,
        bounds: Rectangle,
        text_marks: &Group,
        style: Style,
        placement: Placement,
        inverse: bool,
        builder: F,
    ) -> (primitives: Vec<Text>)
        requires
            !old(self)@.hit(Key { bounds, marks: text_marks@, style, placement, inverse })
                ==> builder.requires(()),
        ensures
            final(self)@ == old(self)@.after(
                Key { bounds, marks: text_marks@, style, placement, inverse },
                text_models(primitives@),
            ),
            text_models(primitives@) == old(self)@.answer(
                Key { bounds, marks: text_marks@, style, placement, inverse },
                text_models(primitives@),
            ),
            !old(self)@.hit(Key { bounds, marks: text_marks@, style, placement, inverse })
                ==> builder.ensures((), primitives),
    {
        if self.holds(&bounds, text_marks, &style, &placement, inverse) {
            copy_texts(&self.primitives)
        } else {
            let primitives = builder();
            self.filled = true;
            self.bounds = bounds;
            self.marks = text_marks.clone();
            self.style = style;
            self.placement = placement;
            self.inverse = inverse;
            self.primitives = copy_texts(&primitives);
            self.computed = Ghost((self.computed@ + 1) as nat);
            primitives
        }
    }
}

impl Default for PrimitiveCache {
    /// An empty cache.
    fn default() -> (cache: Self)
        ensures
            cache@.entry is None,
            cache@.computed == 0,
    {
        PrimitiveCache::new()
    }
}

impl Clone for PrimitiveCache {
    /// A cache that holds the same entry.
    fn clone(&self) -> (copy: Self)
        ensures
            copy@ == self@,
    {
        PrimitiveCache {
            filled: self.filled,
            bounds: self.bounds,
            marks: self.marks.clone(),
            style: self.style,
            placement: self.placement,
            inverse: self.inverse,
            primitives: copy_texts(&self.primitives),
            computed: self.computed,
        }
    }
}

/// Asking twice for the same key computes at most once: the second request
/// leaves the cache as the first left it, counts no computation and is
/// answered with what the first was answered with.
pub proof fn lemma_same_key_computes_once(
    cache: CacheModel,
    key: Key,
    first: Seq<TextModel>,
    second: Seq<TextModel>,
)
    ensures
        cache.after(key, first).after(key, second) == cache.after(key, first),
        cache.after(key, first).after(key, second).computed == cache.after(key, first).computed,
        cache.after(key, first).answer(key, second) == cache.answer(key, first),
{
}

/// Asking for a key that differs from the one last asked for, in any one of
/// its parts, computes anew: the cache counts one more computation, answers
/// with what was computed and holds the new key.
pub proof fn lemma_changed_key_recomputes(
    cache: CacheModel,
    key: Key,
    first: Seq<TextModel>,
    changed: Key,
    second: Seq<TextModel>,
)
    requires
        changed != key,
    ensures
        !cache.after(key, first).hit(changed),
        cache.after(key, first).after(changed, second).computed == cache.after(
            key,
            first,
        ).computed + 1,
        cache.after(key, first).answer(changed, second) == second,
        cache.after(key, first).after(changed, second).hit(changed),
{
}

} // verus!
