//! A scoped drawing session over an immediate-mode vector-graphics backend.
//!
//! Every drawing primitive is recorded as a [`Call`] on the session's log, in
//! the order the backend must receive it. Frames, paths and sub-paths are
//! opened by handing a fresh scope to a handler and closed when the handler
//! gives it back, so the log always has the nesting the backend expects.
//! Floating-point values travel as their IEEE-754 bit patterns ([`Scalar`]):
//! this layer never interprets them.

mod call;
mod flags;
mod laws;
mod scope;
mod values;

pub use call::{
    begin_frames, begin_paths, close_paths, count, creates, deletes, end_frames, frame_block,
    is_frame_item, is_paint_step, is_path_item, is_segment, is_session_item, is_shape,
    path_block, rounded_rect_args, sub_path_block, Backend, Call,
};
pub use flags::{CreateFlags, ANTIALIAS, DEBUG, STENCIL_STROKES};
pub use laws::{lemma_flags_order_independent, lemma_uniform_corner_radii};
pub use scope::{fill_calls, stroke_calls, Context, Frame, Path, SubPath};
pub use values::{
    Color, ColoringStyle, Direction, Paint, Scalar, StrokeStyle, ONE_BITS, TEN_BITS, WINDING_CCW,
    WINDING_CW, ZERO_BITS,
};
