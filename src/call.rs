use vstd::prelude::*;
use crate::values::{Color, Direction, Paint, Scalar};

verus! {

/// The GPU binding a session runs on. A session keeps the backend it was
/// created with until it is torn down.
#[derive(Clone, Copy, Debug, PartialEq, Eq, Structural)]
pub enum Backend {
    Gl2,
    Gl3,
    Gles2,
    Gles3,
}

/// One call into the rendering backend, with its arguments.
#[derive(Clone, Copy, Debug, PartialEq, Eq)]
pub enum Call {
    /// The factory call that made the session's context.
    Create { backend: Backend, flags: u32 },
    /// The teardown call that releases the session's context.
    Delete { backend: Backend },
    BeginFrame { width: i32, height: i32, pixel_ratio: Scalar },
    EndFrame,
    GlobalAlpha { alpha: Scalar },
    BeginPath,
    ClosePath,
    PathWinding { winding: i32 },
    MoveTo { x: Scalar, y: Scalar },
    LineTo { x: Scalar, y: Scalar },
    BezierTo { c1x: Scalar, c1y: Scalar, c2x: Scalar, c2y: Scalar, x: Scalar, y: Scalar },
    QuadTo { cx: Scalar, cy: Scalar, x: Scalar, y: Scalar },
    ArcTo { x1: Scalar, y1: Scalar, x2: Scalar, y2: Scalar, radius: Scalar },
    Arc { cx: Scalar, cy: Scalar, r: Scalar, a0: Scalar, a1: Scalar, winding: i32 },
    Rect { x: Scalar, y: Scalar, w: Scalar, h: Scalar },
    RoundedRect { x: Scalar, y: Scalar, w: Scalar, h: Scalar, r: Scalar },
    /// Radii in the backend's order: top left, top right, bottom right,
    /// bottom left.
    RoundedRectVarying {
        x: Scalar,
        y: Scalar,
        w: Scalar,
        h: Scalar,
        top_left: Scalar,
        top_right: Scalar,
        bottom_right: Scalar,
        bottom_left: Scalar,
    },
    Ellipse { cx: Scalar, cy: Scalar, rx: Scalar, ry: Scalar },
    Circle { cx: Scalar, cy: Scalar, r: Scalar },
    FillColor { color: Color },
    FillPaint { paint: Paint },
    Fill,
    StrokeColor { color: Color },
    StrokePaint { paint: Paint },
    StrokeWidth { size: Scalar },
    MiterLimit { limit: Scalar },
    Stroke,
}

/// The calls that extend the open contour of a sub-path, or set its winding.
pub open spec fn is_segment(c: Call) -> bool {
    ||| c is LineTo
    ||| c is BezierTo
    ||| c is QuadTo
    ||| c is ArcTo
    ||| c is PathWinding
}

/// The calls that add a closed figure to the current path on their own.
pub open spec fn is_shape(c: Call) -> bool {
    ||| c is Arc
    ||| c is Rect
    ||| c is RoundedRect
    ||| c is RoundedRectVarying
    ||| c is Ellipse
    ||| c is Circle
}

/// The calls that paint the current path, or set how it is painted.
pub open spec fn is_paint_step(c: Call) -> bool {
    ||| c is FillColor
    ||| c is FillPaint
    ||| c is Fill
    ||| c is StrokeColor
    ||| c is StrokePaint
    ||| c is StrokeWidth
    ||| c is MiterLimit
    ||| c is Stroke
}

/// The calls that may stand inside a path, after its begin-path.
pub open spec fn is_path_item(c: Call) -> bool {
    ||| is_segment(c)
    ||| is_shape(c)
    ||| is_paint_step(c)
    ||| c is MoveTo
    ||| c is ClosePath
}

/// The calls that may stand inside a frame, between begin-frame and end-frame.
pub open spec fn is_frame_item(c: Call) -> bool {
    is_path_item(c) || c is BeginPath
}

/// The calls that may stand in a session's log between its creation and its
/// teardown.
pub open spec fn is_session_item(c: Call) -> bool {
    is_frame_item(c) || c is BeginFrame || c is EndFrame || c is GlobalAlpha
}

/// The corner geometry a rounded-rectangle call hands the backend:
/// position, size and the four radii (top left, top right, bottom right,
/// bottom left). A uniform radius stands for four equal ones.
pub open spec fn rounded_rect_args(c: Call) -> Option<(Scalar, Scalar, Scalar, Scalar, Scalar, Scalar, Scalar, Scalar)> {
    match c {
        Call::RoundedRect { x, y, w, h, r } => Some((x, y, w, h, r, r, r, r)),
        Call::RoundedRectVarying { x, y, w, h, top_left, top_right, bottom_right, bottom_left } =>
            Some((x, y, w, h, top_left, top_right, bottom_right, bottom_left)),
        _ => None,
    }
}

/// How many calls of `s` satisfy `p`.
pub open spec fn count(s: Seq<Call>, p: spec_fn(Call) -> bool) -> nat
    decreases s.len(),
{
    if s.len() == 0 {
        0
    } else {
        count(s.drop_last(), p) + if p(s.last()) { 1nat } else { 0nat }
    }
}

pub proof fn lemma_count_concat(a: Seq<Call>, b: Seq<Call>, p: spec_fn(Call) -> bool)
    ensures
        count(a + b, p) == count(a, p) + count(b, p),
    decreases b.len(),
{
    if b.len() == 0 {
        assert(a + b =~= a);
    } else {
        assert((a + b).drop_last() =~= a + b.drop_last());
        lemma_count_concat(a, b.drop_last(), p);
    }
}

pub proof fn lemma_count_none(s: Seq<Call>, p: spec_fn(Call) -> bool)
    requires
        forall|i: int| 0 <= i < s.len() ==> !p(#[trigger] s[i]),
    ensures
        count(s, p) == 0,
    decreases s.len(),
{
    if s.len() > 0 {
        lemma_count_none(s.drop_last(), p);
    }
}

pub proof fn lemma_count_single(c: Call, p: spec_fn(Call) -> bool)
    ensures
        count(seq![c], p) == if p(c) { 1nat } else { 0nat },
{
    assert(seq![c].drop_last() =~= Seq::<Call>::empty());
    assert(count(Seq::<Call>::empty(), p) == 0);
    assert(seq![c].last() == c);
}

} // verus!

verus! {

pub open spec fn begin_frames(s: Seq<Call>) -> nat {
    count(s, |c: Call| c is BeginFrame)
}

pub open spec fn end_frames(s: Seq<Call>) -> nat {
    count(s, |c: Call| c is EndFrame)
}

pub open spec fn begin_paths(s: Seq<Call>) -> nat {
    count(s, |c: Call| c is BeginPath)
}

pub open spec fn close_paths(s: Seq<Call>) -> nat {
    count(s, |c: Call| c is ClosePath)
}

pub open spec fn creates(s: Seq<Call>) -> nat {
    count(s, |c: Call| c is Create)
}

pub open spec fn deletes(s: Seq<Call>) -> nat {
    count(s, |c: Call| c is Delete)
}

/// A frame as the backend receives it: begin-frame, what the frame drew, end-frame.
pub open spec fn frame_block(width: i32, height: i32, pixel_ratio: Scalar, body: Seq<Call>) -> Seq<Call> {
    seq![Call::BeginFrame { width, height, pixel_ratio }] + body + seq![Call::EndFrame]
}

/// A path as the backend receives it: begin-path, then what the path drew.
pub open spec fn path_block(body: Seq<Call>) -> Seq<Call> {
    seq![Call::BeginPath] + body
}

/// A sub-path as the backend receives it: move-to its start, its segments,
/// close-path.
pub open spec fn sub_path_block(x: Scalar, y: Scalar, body: Seq<Call>) -> Seq<Call> {
    seq![Call::MoveTo { x, y }] + body + seq![Call::ClosePath]
}

} // verus!
