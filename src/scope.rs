use vstd::prelude::*;
use crate::call::{
    begin_frames, begin_paths, close_paths, count, creates, deletes, end_frames, frame_block,
    is_frame_item, is_path_item, is_segment, is_session_item, lemma_count_concat, lemma_count_none,
    lemma_count_single, path_block, sub_path_block, Backend, Call,
};
use crate::flags::CreateFlags;
use crate::values::{ColoringStyle, Direction, Scalar, StrokeStyle};

verus! {

/// The calls that set the paint of a fill and then fill the current path.
pub open spec fn fill_calls(style: ColoringStyle) -> Seq<Call> {
    match style {
        ColoringStyle::Color(color) => seq![Call::FillColor { color }, Call::Fill],
        ColoringStyle::Paint(paint) => seq![Call::FillPaint { paint }, Call::Fill],
    }
}

/// The calls that set up a stroke (paint, width, miter limit) and then stroke
/// the current path.
pub open spec fn stroke_calls(style: StrokeStyle) -> Seq<Call> {
    let paint_call = match style.coloring_style {
        ColoringStyle::Color(color) => Call::StrokeColor { color },
        ColoringStyle::Paint(paint) => Call::StrokePaint { paint },
    };
    seq![
        paint_call,
        Call::StrokeWidth { size: style.width },
        Call::MiterLimit { limit: style.miter_limit },
        Call::Stroke,
    ]
}

/// One contour of a path, open from its start point until the handler that
/// received it gives it back.
pub struct SubPath {
    calls: Vec<Call>,
}

impl SubPath {
    #[verifier::type_invariant]
    spec fn inv(self) -> bool {
        forall|i: int| 0 <= i < self.calls@.len() ==> is_segment(#[trigger] self.calls@[i])
    }

    /// The calls this sub-path has made since its move-to.
    pub closed spec fn view(&self) -> Seq<Call> {
        self.calls@
    }

    fn new() -> (s: SubPath)
        ensures
            s@ == Seq::<Call>::empty(),
    {
        SubPath { calls: Vec::new() }
    }

    fn emit(&mut self, c: Call)
        requires
            is_segment(c),
        ensures
            final(self)@ == old(self)@.push(c),
    {
        proof { use_type_invariant(&*self); }
        let mut calls = Vec::new();
        std::mem::swap(&mut calls, &mut self.calls);
        calls.push(c);
        self.calls = calls;
    }

    pub fn line_to(&mut self, point: (Scalar, Scalar))
        ensures
            final(self)@ == old(self)@.push(Call::LineTo { x: point.0, y: point.1 }),
    {
        self.emit(Call::LineTo { x: point.0, y: point.1 });
    }

    /// A cubic bezier segment to `point`, through `control1` and `control2`.
    pub fn cubic_bezier_to(&mut self, point: (Scalar, Scalar), control1: (Scalar, Scalar), control2: (Scalar, Scalar))
        ensures
            final(self)@ == old(self)@.push(
                Call::BezierTo {
                    c1x: control1.0,
                    c1y: control1.1,
                    c2x: control2.0,
                    c2y: control2.1,
                    x: point.0,
                    y: point.1,
                },
            ),
    {
        self.emit(
            Call::BezierTo {
                c1x: control1.0,
                c1y: control1.1,
                c2x: control2.0,
                c2y: control2.1,
                x: point.0,
                y: point.1,
            },
        );
    }

    /// A quadratic bezier segment to `point`, through `control`.
    pub fn quad_bezier_to(&mut self, point: (Scalar, Scalar), control: (Scalar, Scalar))
        ensures
            final(self)@ == old(self)@.push(
                Call::QuadTo { cx: control.0, cy: control.1, x: point.0, y: point.1 },
            ),
    {
        self.emit(Call::QuadTo { cx: control.0, cy: control.1, x: point.0, y: point.1 });
    }

    /// An arc of the given radius, tangent to the lines from the pen to `p1`
    /// and from `p1` to `p2`.
    pub fn arc_to(&mut self, p1: (Scalar, Scalar), p2: (Scalar, Scalar), radius: Scalar)
        ensures
            final(self)@ == old(self)@.push(
                Call::ArcTo { x1: p1.0, y1: p1.1, x2: p2.0, y2: p2.1, radius },
            ),
    {
        self.emit(Call::ArcTo { x1: p1.0, y1: p1.1, x2: p2.0, y2: p2.1, radius });
    }

    pub fn winding(&mut self, direction: Direction)
        ensures
            final(self)@ == old(self)@.push(Call::PathWinding { winding: direction.spec_into_raw() }),
    {
        let winding = direction.into_raw();
        self.emit(Call::PathWinding { winding });
    }
}

/// One path definition, open from its begin-path until the handler that
/// received it gives it back. Its geometry stays defined on the backend until
/// the next begin-path, so it may be filled and stroked any number of times.
pub struct Path {
    calls: Vec<Call>,
}

impl Path {
    #[verifier::type_invariant]
    spec fn inv(self) -> bool {
        forall|i: int| 0 <= i < self.calls@.len() ==> is_path_item(#[trigger] self.calls@[i])
    }

    /// The calls this path has made since its begin-path.
    pub closed spec fn view(&self) -> Seq<Call> {
        self.calls@
    }

    fn new() -> (p: Path)
        ensures
            p@ == Seq::<Call>::empty(),
    {
        Path { calls: Vec::new() }
    }

    fn emit(&mut self, c: Call)
        requires
            is_path_item(c),
        ensures
            final(self)@ == old(self)@.push(c),
    {
        proof { use_type_invariant(&*self); }
        let mut calls = Vec::new();
        std::mem::swap(&mut calls, &mut self.calls);
        calls.push(c);
        self.calls = calls;
    }

    /// Fills the path's geometry with a colour or a paint.
    pub fn fill(&mut self, coloring_style: ColoringStyle)
        ensures
            final(self)@ == old(self)@ + fill_calls(coloring_style),
    {
        match coloring_style {
            ColoringStyle::Color(color) => self.emit(Call::FillColor { color }),
            ColoringStyle::Paint(paint) => self.emit(Call::FillPaint { paint }),
        }
        self.emit(Call::Fill);
        proof {
            assert(final(self)@ =~= old(self)@ + fill_calls(coloring_style));
        }
    }

    /// Strokes the path's outline with the given colouring, width and miter limit.
    pub fn stroke(&mut self, style: StrokeStyle)
        ensures
            final(self)@ == old(self)@ + stroke_calls(style),
    {
        match style.coloring_style {
            ColoringStyle::Color(color) => self.emit(Call::StrokeColor { color }),
            ColoringStyle::Paint(paint) => self.emit(Call::StrokePaint { paint }),
        }
        self.emit(Call::StrokeWidth { size: style.width });
        self.emit(Call::MiterLimit { limit: style.miter_limit });
        self.emit(Call::Stroke);
        proof {
            assert(final(self)@ =~= old(self)@ + stroke_calls(style));
        }
    }

    /// A circular arc around `center` from `start_angle` to `end_angle`
    /// (radians), drawn in the given direction.
    pub fn arc(&mut self, center: (Scalar, Scalar), radius: Scalar, start_angle: Scalar, end_angle: Scalar, direction: Direction)
        ensures
            final(self)@ == old(self)@.push(
                Call::Arc {
                    cx: center.0,
                    cy: center.1,
                    r: radius,
                    a0: start_angle,
                    a1: end_angle,
                    winding: direction.spec_into_raw(),
                },
            ),
    {
        let winding = direction.into_raw();
        self.emit(Call::Arc { cx: center.0, cy: center.1, r: radius, a0: start_angle, a1: end_angle, winding });
    }

    /// A rectangle with its top-left corner at `position`.
    pub fn rect(&mut self, position: (Scalar, Scalar), size: (Scalar, Scalar))
        ensures
            final(self)@ == old(self)@.push(
                Call::Rect { x: position.0, y: position.1, w: size.0, h: size.1 },
            ),
    {
        self.emit(Call::Rect { x: position.0, y: position.1, w: size.0, h: size.1 });
    }

    /// A rectangle whose four corners are rounded with the same radius.
    pub fn rounded_rect(&mut self, position: (Scalar, Scalar), size: (Scalar, Scalar), radius: Scalar)
        ensures
            final(self)@ == old(self)@.push(
                Call::RoundedRect { x: position.0, y: position.1, w: size.0, h: size.1, r: radius },
            ),
    {
        self.emit(Call::RoundedRect { x: position.0, y: position.1, w: size.0, h: size.1, r: radius });
    }

    /// A rectangle with a radius per corner. `top_radii` and `bottom_radii`
    /// are both (left, right).
    pub fn rounded_rect_varying(
        &mut self,
        position: (Scalar, Scalar),
        size: (Scalar, Scalar),
        top_radii: (Scalar, Scalar),
        bottom_radii: (Scalar, Scalar),
    )
        ensures
            final(self)@ == old(self)@.push(
                Call::RoundedRectVarying {
                    x: position.0,
                    y: position.1,
                    w: size.0,
                    h: size.1,
                    top_left: top_radii.0,
                    top_right: top_radii.1,
                    bottom_right: bottom_radii.1,
                    bottom_left: bottom_radii.0,
                },
            ),
    {
        self.emit(
            Call::RoundedRectVarying {
                x: position.0,
                y: position.1,
                w: size.0,
                h: size.1,
                top_left: top_radii.0,
                top_right: top_radii.1,
                bottom_right: bottom_radii.1,
                bottom_left: bottom_radii.0,
            },
        );
    }

    pub fn ellipse(&mut self, center: (Scalar, Scalar), radius_x: Scalar, radius_y: Scalar)
        ensures
            final(self)@ == old(self)@.push(
                Call::Ellipse { cx: center.0, cy: center.1, rx: radius_x, ry: radius_y },
            ),
    {
        self.emit(Call::Ellipse { cx: center.0, cy: center.1, rx: radius_x, ry: radius_y });
    }

    pub fn circle(&mut self, center: (Scalar, Scalar), radius: Scalar)
        ensures
            final(self)@ == old(self)@.push(Call::Circle { cx: center.0, cy: center.1, r: radius }),
    {
        self.emit(Call::Circle { cx: center.0, cy: center.1, r: radius });
    }

    /// Opens a contour at `start`, hands it to `handler`, and closes it when
    /// the handler gives it back, whatever the handler drew (nothing
    /// included).
    pub fn sub_path<F: FnOnce(SubPath) -> SubPath>(&mut self, start: (Scalar, Scalar), handler: F)
        requires
            forall|s: SubPath| handler.requires((s,)),
        ensures
            exists|given: SubPath, returned: SubPath|
                given@ == Seq::<Call>::empty() && #[trigger] handler.ensures((given,), returned)
                    && final(self)@ == old(self)@ + sub_path_block(start.0, start.1, returned@)
                    && forall|i: int| 0 <= i < returned@.len() ==> is_segment(#[trigger] returned@[i]),
            close_paths(final(self)@.skip(old(self)@.len() as int)) == 1,
            final(self)@.last() == Call::ClosePath,
    {
        proof { use_type_invariant(&*self); }
        let given = SubPath::new();
        let ghost given_g = given;
        let returned = handler(given);
        proof { use_type_invariant(&returned); }
        let mut calls = Vec::new();
        std::mem::swap(&mut calls, &mut self.calls);
        let ghost before = calls@;
        calls.push(Call::MoveTo { x: start.0, y: start.1 });
        let mut body = returned.calls;
        calls.append(&mut body);
        calls.push(Call::ClosePath);
        self.calls = calls;
        proof {
            let block = sub_path_block(start.0, start.1, returned@);
            assert(self.calls@ =~= before + block);
            assert(self.calls@.skip(before.len() as int) =~= block);
            let p = |c: Call| c is ClosePath;
            lemma_count_none(returned@, p);
            lemma_count_single(Call::MoveTo { x: start.0, y: start.1 }, p);
            lemma_count_single(Call::ClosePath, p);
            lemma_count_concat(seq![Call::MoveTo { x: start.0, y: start.1 }], returned@, p);
            lemma_count_concat(seq![Call::MoveTo { x: start.0, y: start.1 }] + returned@, seq![Call::ClosePath], p);
            assert(handler.ensures((given_g,), returned));
        }
    }
}

/// One rendering cycle, open from its begin-frame until the handler that
/// received it gives it back.
pub struct Frame {
    calls: Vec<Call>,
}

impl Frame {
    #[verifier::type_invariant]
    spec fn inv(self) -> bool {
        &&& forall|i: int| 0 <= i < self.calls@.len() ==> is_frame_item(#[trigger] self.calls@[i])
        &&& self.calls@.len() > 0 ==> self.calls@[0] == Call::BeginPath
    }

    /// The calls this frame has made since its begin-frame.
    pub closed spec fn view(&self) -> Seq<Call> {
        self.calls@
    }

    fn new() -> (f: Frame)
        ensures
            f@ == Seq::<Call>::empty(),
    {
        Frame { calls: Vec::new() }
    }

    /// Starts a new path (clearing the backend's current one) and hands it
    /// to `handler`.
    pub fn path<F: FnOnce(Path) -> Path>(&mut self, handler: F)
        requires
            forall|p: Path| handler.requires((p,)),
        ensures
            exists|given: Path, returned: Path|
                given@ == Seq::<Call>::empty() && #[trigger] handler.ensures((given,), returned)
                    && final(self)@ == old(self)@ + path_block(returned@)
                    && forall|i: int| 0 <= i < returned@.len() ==> is_path_item(#[trigger] returned@[i]),
            begin_paths(final(self)@.skip(old(self)@.len() as int)) == 1,
            final(self)@[old(self)@.len() as int] == Call::BeginPath,
    {
        proof { use_type_invariant(&*self); }
        let given = Path::new();
        let ghost given_g = given;
        let returned = handler(given);
        proof { use_type_invariant(&returned); }
        let mut calls = Vec::new();
        std::mem::swap(&mut calls, &mut self.calls);
        let ghost before = calls@;
        calls.push(Call::BeginPath);
        let mut body = returned.calls;
        calls.append(&mut body);
        self.calls = calls;
        proof {
            let block = path_block(returned@);
            assert(self.calls@ =~= before + block);
            assert(self.calls@.skip(before.len() as int) =~= block);
            let p = |c: Call| c is BeginPath;
            lemma_count_none(returned@, p);
            lemma_count_single(Call::BeginPath, p);
            lemma_count_concat(seq![Call::BeginPath], returned@, p);
            assert(handler.ensures((given_g,), returned));
        }
    }
}

/// A drawing session: the owner of one backend context, from the factory
/// call that made it to the teardown call that releases it.
///
/// Its log is every call the session has made, in order; it starts with the
/// factory call and holds only whole frames after it.
pub struct Context {
    backend: Backend,
    flags: u32,
    handle: usize,
    calls: Vec<Call>,
}

impl Context {
    #[verifier::type_invariant]
    spec fn inv(self) -> bool {
        &&& self.handle != 0
        &&& forall|i: int| 0 <= i < self.calls@.len() ==> is_session_item(#[trigger] self.calls@[i])
        &&& begin_frames(self.calls@) == end_frames(self.calls@)
    }

    /// Every call the session has made, starting with its factory call.
    pub closed spec fn view(&self) -> Seq<Call> {
        seq![Call::Create { backend: self.backend, flags: self.flags }] + self.calls@
    }

    pub closed spec fn spec_backend(&self) -> Backend {
        self.backend
    }

    pub closed spec fn spec_handle(&self) -> usize {
        self.handle
    }

    /// Takes over the context that the factory of `backend` returned for
    /// `flags`, as its address. A null address means that the factory failed.
    pub fn create(backend: Backend, flags: CreateFlags, handle: usize) -> (r: Result<Context, ()>)
        ensures
            r is Err <==> handle == 0,
            r matches Ok(c) ==> c.spec_backend() == backend && c.spec_handle() == handle
                && c@ == seq![Call::Create { backend, flags: flags@ }],
    {
        if handle == 0 {
            Err(())
        } else {
            Ok(Context { backend, flags: flags.bits(), handle, calls: Vec::new() })
        }
    }

    pub fn with_gl3(flags: CreateFlags, handle: usize) -> (r: Result<Context, ()>)
        ensures
            r is Err <==> handle == 0,
            r matches Ok(c) ==> c.spec_backend() == Backend::Gl3 && c.spec_handle() == handle
                && c@ == seq![Call::Create { backend: Backend::Gl3, flags: flags@ }],
    {
        Context::create(Backend::Gl3, flags, handle)
    }

    pub fn with_gl2(flags: CreateFlags, handle: usize) -> (r: Result<Context, ()>)
        ensures
            r is Err <==> handle == 0,
            r matches Ok(c) ==> c.spec_backend() == Backend::Gl2 && c.spec_handle() == handle
                && c@ == seq![Call::Create { backend: Backend::Gl2, flags: flags@ }],
    {
        Context::create(Backend::Gl2, flags, handle)
    }

    pub fn with_gles3(flags: CreateFlags, handle: usize) -> (r: Result<Context, ()>)
        ensures
            r is Err <==> handle == 0,
            r matches Ok(c) ==> c.spec_backend() == Backend::Gles3 && c.spec_handle() == handle
                && c@ == seq![Call::Create { backend: Backend::Gles3, flags: flags@ }],
    {
        Context::create(Backend::Gles3, flags, handle)
    }

    pub fn with_gles2(flags: CreateFlags, handle: usize) -> (r: Result<Context, ()>)
        ensures
            r is Err <==> handle == 0,
            r matches Ok(c) ==> c.spec_backend() == Backend::Gles2 && c.spec_handle() == handle
                && c@ == seq![Call::Create { backend: Backend::Gles2, flags: flags@ }],
    {
        Context::create(Backend::Gles2, flags, handle)
    }

    /// The address of the backend context this session owns.
    pub fn raw(&mut self) -> (handle: usize)
        ensures
            handle == old(self).spec_handle(),
            handle != 0,
            *final(self) == *old(self),
    {
        proof { use_type_invariant(&*self); }
        self.handle
    }

    pub fn backend(&self) -> (b: Backend)
        ensures
            b == self.spec_backend(),
    {
        self.backend
    }

    /// The calls made since the factory call, in order.
    pub fn calls(&self) -> (calls: &Vec<Call>)
        ensures
            calls@ == self@.skip(1),
    {
        &self.calls
    }

    /// Opens a frame of `size` (width, height) at `pixel_ratio` physical
    /// pixels per unit, hands it to `handler`, and ends it when the handler
    /// gives it back, whatever the handler did.
    pub fn frame<F: FnOnce(Frame) -> Frame>(&mut self, size: (i32, i32), pixel_ratio: Scalar, handler: F)
        requires
            forall|f: Frame| handler.requires((f,)),
        ensures
            exists|given: Frame, returned: Frame|
                given@ == Seq::<Call>::empty() && #[trigger] handler.ensures((given,), returned)
                    && final(self)@ == old(self)@ + frame_block(size.0, size.1, pixel_ratio, returned@)
                    && forall|i: int| 0 <= i < returned@.len() ==> is_frame_item(#[trigger] returned@[i]),
            begin_frames(final(self)@.skip(old(self)@.len() as int)) == 1,
            end_frames(final(self)@.skip(old(self)@.len() as int)) == 1,
            final(self)@.last() == Call::EndFrame,
            begin_frames(final(self)@) == end_frames(final(self)@),
            final(self).spec_backend() == old(self).spec_backend(),
            final(self).spec_handle() == old(self).spec_handle(),
    {
        proof { use_type_invariant(&*self); }
        let given = Frame::new();
        let ghost given_g = given;
        let returned = handler(given);
        proof { use_type_invariant(&returned); }
        let mut calls = Vec::new();
        std::mem::swap(&mut calls, &mut self.calls);
        let ghost before = calls@;
        calls.push(Call::BeginFrame { width: size.0, height: size.1, pixel_ratio });
        let mut body = returned.calls;
        calls.append(&mut body);
        calls.push(Call::EndFrame);
        proof {
            let block = frame_block(size.0, size.1, pixel_ratio, returned@);
            assert(calls@ =~= before + block);
            let bf = |c: Call| c is BeginFrame;
            let ef = |c: Call| c is EndFrame;
            let head = seq![Call::BeginFrame { width: size.0, height: size.1, pixel_ratio }];
            let create = seq![Call::Create { backend: self.backend, flags: self.flags }];
            lemma_count_none(returned@, bf);
            lemma_count_none(returned@, ef);
            lemma_count_single(head[0], bf);
            lemma_count_single(head[0], ef);
            lemma_count_single(Call::EndFrame, bf);
            lemma_count_single(Call::EndFrame, ef);
            lemma_count_single(create[0], bf);
            lemma_count_single(create[0], ef);
            lemma_count_concat(head, returned@, bf);
            lemma_count_concat(head, returned@, ef);
            lemma_count_concat(head + returned@, seq![Call::EndFrame], bf);
            lemma_count_concat(head + returned@, seq![Call::EndFrame], ef);
            lemma_count_concat(before, block, bf);
            lemma_count_concat(before, block, ef);
            lemma_count_concat(create, before, bf);
            lemma_count_concat(create, before, ef);
            lemma_count_concat(create, before + block, bf);
            lemma_count_concat(create, before + block, ef);
            assert(create + (before + block) =~= (create + before) + block);
            assert((create + before + block).skip((create + before).len() as int) =~= block);
            assert(handler.ensures((given_g,), returned));
        }
        self.calls = calls;
    }

    /// Sets the opacity that multiplies everything the session draws from now on.
    pub fn global_alpha(&mut self, alpha: Scalar)
        ensures
            final(self)@ == old(self)@.push(Call::GlobalAlpha { alpha }),
            final(self).spec_backend() == old(self).spec_backend(),
            final(self).spec_handle() == old(self).spec_handle(),
    {
        proof { use_type_invariant(&*self); }
        let mut calls = Vec::new();
        std::mem::swap(&mut calls, &mut self.calls);
        let ghost before = calls@;
        calls.push(Call::GlobalAlpha { alpha });
        proof {
            let ga = seq![Call::GlobalAlpha { alpha }];
            assert(calls@ =~= before + ga);
            lemma_count_single(ga[0], |c: Call| c is BeginFrame);
            lemma_count_single(ga[0], |c: Call| c is EndFrame);
            lemma_count_concat(before, ga, |c: Call| c is BeginFrame);
            lemma_count_concat(before, ga, |c: Call| c is EndFrame);
        }
        self.calls = calls;
        proof {
            assert(self@ =~= old(self)@.push(Call::GlobalAlpha { alpha }));
        }
    }

    /// Ends the session: the teardown call of its backend is made once, last,
    /// and the session can no longer be used. Returns the whole log.
    pub fn destroy(self) -> (log: Vec<Call>)
        ensures
            log@ == self@.push(Call::Delete { backend: self.spec_backend() }),
            creates(log@) == 1,
            deletes(log@) == 1,
            log@[0] is Create,
            log@.last() is Delete,
            begin_frames(log@) == end_frames(log@),
    {
        proof { use_type_invariant(&self); }
        let ghost whole = self@;
        let ghost body_before = self.calls@;
        let mut log = Vec::new();
        log.push(Call::Create { backend: self.backend, flags: self.flags });
        let mut body = self.calls;
        log.append(&mut body);
        log.push(Call::Delete { backend: self.backend });
        proof {
            let head = seq![Call::Create { backend: self.backend, flags: self.flags }];
            let tail = seq![Call::Delete { backend: self.backend }];
            let mid = whole.skip(1);
            assert(whole =~= head + mid);
            assert(mid =~= body_before);
            assert(log@ =~= head + mid + tail);
            let cr = |c: Call| c is Create;
            let de = |c: Call| c is Delete;
            let bf = |c: Call| c is BeginFrame;
            let ef = |c: Call| c is EndFrame;
            lemma_count_none(mid, cr);
            lemma_count_none(mid, de);
            lemma_count_single(head[0], cr);
            lemma_count_single(head[0], de);
            lemma_count_single(head[0], bf);
            lemma_count_single(head[0], ef);
            lemma_count_single(tail[0], cr);
            lemma_count_single(tail[0], de);
            lemma_count_single(tail[0], bf);
            lemma_count_single(tail[0], ef);
            lemma_count_concat(head, mid, cr);
            lemma_count_concat(head, mid, de);
            lemma_count_concat(head, mid, bf);
            lemma_count_concat(head, mid, ef);
            lemma_count_concat(head + mid, tail, cr);
            lemma_count_concat(head + mid, tail, de);
            lemma_count_concat(head + mid, tail, bf);
            lemma_count_concat(head + mid, tail, ef);
        }
        log
    }
}

} // verus!
