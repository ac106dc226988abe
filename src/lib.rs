//! Cutting a filmstrip of equally sized frames out of one source image.
//!
//! A sampling window of fixed size starts at a given origin and is moved by a
//! constant vector after every frame; the frames are later stacked top to
//! bottom on one canvas. This crate holds the decisions of that process: the
//! validation of positive integer options, the walk of the window with its
//! stop rules, and the stacking of the frames onto the output canvas.

mod canvas;
mod posint;
mod walk;

pub use canvas::{canvas_dims, canvas_rgba, source_rgba, source_size, Canvas};
pub use posint::{
    digits_value, is_decimal_text, non_digit_is_malformed, parse_positive_int, signed_is_malformed,
    zeros_are_zero, PosIntError,
};
pub use walk::{
    stationary_walk_repeats_first_frame, walk_windows, walk_within_limit, AssembleError, Geometry,
    Probe, Step, WalkError, Walker, Window,
};
