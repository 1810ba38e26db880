//! A widget appearance engine.
//!
//! A theme is a palette of six semantic colors. For each kind of widget the
//! crate defines the record of drawing attributes that a renderer needs, the
//! closed set of interaction states the widget can be in, and the capability
//! a theme must offer to be asked for those records. The shipped [`theme::Theme`]
//! offers every capability, and its answers are stated exactly and proved.
//!
//! Everything here is integer arithmetic on plain values: a color channel
//! counts steps on a fixed grid (see [`color`]) and a length counts whole
//! pixels.

pub mod button;
pub mod checkbox;
pub mod color;
pub mod container;
pub mod progress_bar;
pub mod radio;
pub mod rule;
pub mod scrollable;
pub mod slider;
pub mod text_input;
pub mod theme;
pub mod vector;
