//! Audio-style interactive controls: sliders and dots that set a normalized
//! parameter, with the marks that are drawn along them.
//!
//! The crate has three parts.
//!
//! * The value domain: a [`Normal`] is a value between zero and one, a
//!   [`NormalParam`] pairs it with its default, and an [`IntRange`] converts
//!   between raw whole-number units and normals ([`normal`],
//!   [`normal_param`], [`range`], [`mod_range`]).
//! * The control state machine: one machine turns pointer and keyboard
//!   events into changes of the value, for every family of controls
//!   ([`control`], [`input`], [`click`]); [`h_slider`] and
//!   [`mod_range_input`] are the families.
//! * Mark placement: where tick marks and text marks lie relative to the
//!   bounds of a control, with a cache that remembers the last placement
//!   ([`tick_marks`], [`text_marks`], [`primitive`], [`geometry`]).
//!
//! All arithmetic is fixed point ([`fixed`]): coordinates, lengths and
//! sensitivity scalars count units of 1/65536, normals count units of
//! 1/4294967296. Every function is proved to do what its contract says and
//! to stay clear of overflow.

pub mod click;
pub mod control;
pub mod fixed;
pub mod geometry;
pub mod h_slider;
pub mod input;
pub mod mod_range;
pub mod mod_range_input;
pub mod normal;
pub mod normal_param;
pub mod primitive;
pub mod range;
pub mod text_marks;
pub mod tick_marks;

pub use mod_range::ModulationRange;
pub use normal::Normal;
pub use normal_param::NormalParam;
pub use range::IntRange;
