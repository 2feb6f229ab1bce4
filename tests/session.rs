use nanovg::{
    Backend, Call, Color, ColoringStyle, Context, CreateFlags, Direction, Frame, Paint, Path,
    Scalar, StrokeStyle, SubPath, WINDING_CCW, WINDING_CW,
};

fn s(v: f32) -> Scalar {
    Scalar::from_bits(v.to_bits())
}

fn pt(x: f32, y: f32) -> (Scalar, Scalar) {
    (s(x), s(y))
}

fn rgba(r: f32, g: f32, b: f32, a: f32) -> Color {
    Color::new(s(r), s(g), s(b), s(a))
}

fn session() -> Context {
    Context::with_gl3(CreateFlags::new().antialias(), 0x1000).unwrap()
}

fn count(calls: &[Call], wanted: Call) -> usize {
    calls.iter().filter(|c| **c == wanted).count()
}

#[test]
fn flags_start_empty() {
    assert_eq!(CreateFlags::new().bits(), 0);
}

#[test]
fn each_flag_sets_its_own_bit() {
    assert_eq!(CreateFlags::new().antialias().bits(), 1);
    assert_eq!(CreateFlags::new().stencil_strokes().bits(), 2);
    assert_eq!(CreateFlags::new().debug().bits(), 4);
}

#[test]
fn flags_compose_in_any_order() {
    let a = CreateFlags::new().antialias().debug();
    let b = CreateFlags::new().debug().antialias();
    assert_eq!(a, b);
    assert_eq!(a.bits(), 5);
    let all = [
        CreateFlags::new().antialias().stencil_strokes().debug(),
        CreateFlags::new().debug().stencil_strokes().antialias(),
        CreateFlags::new().stencil_strokes().antialias().debug(),
    ];
    for f in all.iter() {
        assert_eq!(f.bits(), 7);
    }
}

#[test]
fn setting_a_flag_twice_changes_nothing() {
    assert_eq!(CreateFlags::new().debug().debug().bits(), 4);
}

#[test]
fn null_handle_is_a_creation_error() {
    assert!(Context::with_gl3(CreateFlags::new(), 0).is_err());
    assert!(Context::with_gl2(CreateFlags::new(), 0).is_err());
    assert!(Context::with_gles3(CreateFlags::new(), 0).is_err());
    assert!(Context::with_gles2(CreateFlags::new(), 0).is_err());
    assert!(Context::create(Backend::Gl3, CreateFlags::new(), 0).is_err());
}

#[test]
fn each_backend_is_created_and_deleted_once() {
    let flags = CreateFlags::new().antialias().stencil_strokes();
    let made = [
        (Backend::Gl3, Context::with_gl3(flags, 8)),
        (Backend::Gl2, Context::with_gl2(flags, 8)),
        (Backend::Gles3, Context::with_gles3(flags, 8)),
        (Backend::Gles2, Context::with_gles2(flags, 8)),
    ];
    for (backend, made) in made {
        let mut ctx = made.unwrap();
        assert_eq!(ctx.backend(), backend);
        assert_eq!(ctx.raw(), 8);
        assert!(ctx.calls().is_empty());
        ctx.frame((10, 10), s(1.0), |f: Frame| f);
        let log = ctx.destroy();
        assert_eq!(log[0], Call::Create { backend, flags: 3 });
        assert_eq!(*log.last().unwrap(), Call::Delete { backend });
        assert_eq!(count(&log, Call::Create { backend, flags: 3 }), 1);
        assert_eq!(count(&log, Call::Delete { backend }), 1);
    }
}

#[test]
fn empty_frame_begins_and_ends() {
    let mut ctx = session();
    ctx.frame((800, 600), s(2.0), |f: Frame| f);
    assert_eq!(
        ctx.calls().clone(),
        vec![Call::BeginFrame { width: 800, height: 600, pixel_ratio: s(2.0) }, Call::EndFrame]
    );
}

#[test]
fn frame_ends_when_the_handler_leaves_early() {
    let mut ctx = session();
    let stop_early = true;
    ctx.frame((100, 50), s(1.0), |mut f: Frame| {
        if stop_early {
            return f;
        }
        f.path(|mut p: Path| {
            p.circle(pt(1.0, 1.0), s(1.0));
            p
        });
        f
    });
    let calls = ctx.calls().clone();
    assert_eq!(calls.len(), 2);
    assert_eq!(calls[1], Call::EndFrame);
}

#[test]
fn frames_stay_balanced() {
    let mut ctx = session();
    for i in 0..3 {
        ctx.frame((i, i), s(1.0), |mut f: Frame| {
            f.path(|p: Path| p);
            f
        });
        ctx.global_alpha(s(0.5));
    }
    let calls = ctx.destroy();
    let begins = calls.iter().filter(|c| matches!(c, Call::BeginFrame { .. })).count();
    assert_eq!(begins, 3);
    assert_eq!(count(&calls, Call::EndFrame), 3);
    assert_eq!(count(&calls, Call::GlobalAlpha { alpha: s(0.5) }), 3);
}

#[test]
fn rect_fill_scenario() {
    let mut ctx = session();
    ctx.frame((800, 600), s(1.0), |mut f: Frame| {
        f.path(|mut p: Path| {
            p.rect(pt(10.0, 10.0), pt(50.0, 50.0));
            p.fill(ColoringStyle::Color(rgba(1.0, 0.0, 0.0, 1.0)));
            p
        });
        f
    });
    assert_eq!(
        ctx.calls().clone(),
        vec![
            Call::BeginFrame { width: 800, height: 600, pixel_ratio: s(1.0) },
            Call::BeginPath,
            Call::Rect { x: s(10.0), y: s(10.0), w: s(50.0), h: s(50.0) },
            Call::FillColor { color: rgba(1.0, 0.0, 0.0, 1.0) },
            Call::Fill,
            Call::EndFrame,
        ]
    );
}

#[test]
fn begin_path_comes_once_before_the_path_draws() {
    let mut ctx = session();
    ctx.frame((1, 1), s(1.0), |mut f: Frame| {
        f.path(|mut p: Path| {
            p.circle(pt(5.0, 5.0), s(2.0));
            p.ellipse(pt(5.0, 5.0), s(2.0), s(3.0));
            p.fill(ColoringStyle::Color(rgba(0.0, 0.0, 1.0, 1.0)));
            p.stroke(StrokeStyle::default());
            p
        });
        f.path(|mut p: Path| {
            p.rect(pt(0.0, 0.0), pt(1.0, 1.0));
            p
        });
        f
    });
    let calls = ctx.calls().clone();
    assert_eq!(count(&calls, Call::BeginPath), 2);
    assert_eq!(calls[1], Call::BeginPath);
    assert_eq!(calls[2], Call::Circle { cx: s(5.0), cy: s(5.0), r: s(2.0) });
    assert_eq!(calls[9], Call::Stroke);
    assert_eq!(calls[10], Call::BeginPath);
}

#[test]
fn sub_path_scenario() {
    let mut ctx = session();
    ctx.frame((1, 1), s(1.0), |mut f: Frame| {
        f.path(|mut p: Path| {
            p.sub_path(pt(1.0, 2.0), |mut sp: SubPath| {
                sp.line_to(pt(3.0, 4.0));
                sp
            });
            p
        });
        f
    });
    let calls = ctx.calls().clone();
    assert_eq!(
        calls[2..5].to_vec(),
        vec![
            Call::MoveTo { x: s(1.0), y: s(2.0) },
            Call::LineTo { x: s(3.0), y: s(4.0) },
            Call::ClosePath,
        ]
    );
}

#[test]
fn empty_sub_path_still_closes() {
    let mut ctx = session();
    ctx.frame((1, 1), s(1.0), |mut f: Frame| {
        f.path(|mut p: Path| {
            p.sub_path(pt(7.0, 8.0), |sp: SubPath| sp);
            p
        });
        f
    });
    let calls = ctx.calls().clone();
    assert_eq!(calls[2], Call::MoveTo { x: s(7.0), y: s(8.0) });
    assert_eq!(calls[3], Call::ClosePath);
    assert_eq!(count(&calls, Call::ClosePath), 1);
}

#[test]
fn sub_path_closes_once_after_every_segment() {
    let mut ctx = session();
    ctx.frame((1, 1), s(1.0), |mut f: Frame| {
        f.path(|mut p: Path| {
            p.sub_path(pt(0.0, 0.0), |mut sp: SubPath| {
                sp.line_to(pt(1.0, 0.0));
                sp.cubic_bezier_to(pt(2.0, 2.0), pt(1.0, 1.0), pt(1.5, 1.5));
                sp.quad_bezier_to(pt(3.0, 0.0), pt(2.5, 1.0));
                sp.arc_to(pt(4.0, 0.0), pt(4.0, 4.0), s(1.0));
                sp.winding(Direction::CounterClockwise);
                sp
            });
            p
        });
        f
    });
    let calls = ctx.calls().clone();
    assert_eq!(count(&calls, Call::ClosePath), 1);
    assert_eq!(calls[calls.len() - 2], Call::ClosePath);
    assert_eq!(
        calls[4],
        Call::BezierTo { c1x: s(1.0), c1y: s(1.0), c2x: s(1.5), c2y: s(1.5), x: s(2.0), y: s(2.0) }
    );
    assert_eq!(calls[5], Call::QuadTo { cx: s(2.5), cy: s(1.0), x: s(3.0), y: s(0.0) });
    assert_eq!(
        calls[6],
        Call::ArcTo { x1: s(4.0), y1: s(0.0), x2: s(4.0), y2: s(4.0), radius: s(1.0) }
    );
    assert_eq!(calls[7], Call::PathWinding { winding: WINDING_CCW });
}

fn one_path_calls(draw: fn(&mut Path)) -> Vec<Call> {
    let mut ctx = session();
    ctx.frame((1, 1), s(1.0), |mut f: Frame| {
        f.path(|mut p: Path| {
            draw(&mut p);
            p
        });
        f
    });
    let calls = ctx.calls().clone();
    calls[2..calls.len() - 1].to_vec()
}

#[test]
fn uniform_varying_radii_match_rounded_rect() {
    let uniform = one_path_calls(|p| p.rounded_rect(pt(1.0, 2.0), pt(30.0, 40.0), s(5.0)));
    let varying = one_path_calls(|p| {
        p.rounded_rect_varying(pt(1.0, 2.0), pt(30.0, 40.0), pt(5.0, 5.0), pt(5.0, 5.0))
    });
    assert_eq!(uniform, vec![Call::RoundedRect { x: s(1.0), y: s(2.0), w: s(30.0), h: s(40.0), r: s(5.0) }]);
    match (uniform[0], varying[0]) {
        (
            Call::RoundedRect { x, y, w, h, r },
            Call::RoundedRectVarying { x: vx, y: vy, w: vw, h: vh, top_left, top_right, bottom_right, bottom_left },
        ) => {
            assert_eq!((x, y, w, h), (vx, vy, vw, vh));
            assert_eq!([r, r, r, r], [top_left, top_right, bottom_right, bottom_left]);
        }
        _ => panic!("unexpected calls"),
    }
}

#[test]
fn varying_radii_follow_corner_order() {
    let calls = one_path_calls(|p| {
        p.rounded_rect_varying(pt(0.0, 0.0), pt(10.0, 10.0), pt(1.0, 2.0), pt(4.0, 3.0))
    });
    assert_eq!(
        calls,
        vec![Call::RoundedRectVarying {
            x: s(0.0),
            y: s(0.0),
            w: s(10.0),
            h: s(10.0),
            top_left: s(1.0),
            top_right: s(2.0),
            bottom_right: s(3.0),
            bottom_left: s(4.0),
        }]
    );
}

#[test]
fn arc_carries_its_winding_code() {
    let calls = one_path_calls(|p| p.arc(pt(1.0, 1.0), s(2.0), s(0.0), s(3.0), Direction::Clockwise));
    assert_eq!(
        calls,
        vec![Call::Arc { cx: s(1.0), cy: s(1.0), r: s(2.0), a0: s(0.0), a1: s(3.0), winding: WINDING_CW }]
    );
}

#[test]
fn direction_codes() {
    assert_eq!(Direction::Clockwise.into_raw(), 2);
    assert_eq!(Direction::CounterClockwise.into_raw(), 1);
}

#[test]
fn fill_with_paint_and_fill_twice() {
    let paint = Paint {
        xform: (s(1.0), s(0.0), s(0.0), s(1.0), s(0.0), s(0.0)),
        extent: (s(10.0), s(10.0)),
        radius: s(0.0),
        feather: s(1.0),
        inner_color: rgba(1.0, 1.0, 1.0, 1.0),
        outer_color: rgba(0.0, 0.0, 0.0, 1.0),
        image: 0,
    };
    let mut ctx = session();
    ctx.frame((1, 1), s(1.0), |mut f: Frame| {
        f.path(|mut p: Path| {
            p.fill(ColoringStyle::Paint(paint));
            p.fill(ColoringStyle::Color(rgba(0.0, 1.0, 0.0, 1.0)));
            p
        });
        f
    });
    let calls = ctx.calls().clone();
    assert_eq!(
        calls[2..6].to_vec(),
        vec![
            Call::FillPaint { paint },
            Call::Fill,
            Call::FillColor { color: rgba(0.0, 1.0, 0.0, 1.0) },
            Call::Fill,
        ]
    );
}

#[test]
fn stroke_sets_paint_width_and_miter_limit() {
    let style = StrokeStyle {
        coloring_style: ColoringStyle::Color(rgba(0.0, 0.0, 0.0, 1.0)),
        width: s(3.0),
        miter_limit: s(4.0),
    };
    let mut ctx = session();
    ctx.frame((1, 1), s(1.0), |mut f: Frame| {
        f.path(|mut p: Path| {
            p.stroke(style);
            p
        });
        f
    });
    let calls = ctx.calls().clone();
    assert_eq!(
        calls[2..6].to_vec(),
        vec![
            Call::StrokeColor { color: rgba(0.0, 0.0, 0.0, 1.0) },
            Call::StrokeWidth { size: s(3.0) },
            Call::MiterLimit { limit: s(4.0) },
            Call::Stroke,
        ]
    );
}

#[test]
fn default_stroke_style() {
    let style = StrokeStyle::default();
    assert_eq!(style.coloring_style, ColoringStyle::Color(rgba(1.0, 0.0, 0.0, 1.0)));
    assert_eq!(style.width, s(1.0));
    assert_eq!(style.miter_limit, s(10.0));
}

#[test]
fn color_channels_get_and_set() {
    let mut c = rgba(0.1, 0.2, 0.3, 0.4);
    assert_eq!(f32::from_bits(c.red().to_bits()), 0.1);
    assert_eq!(f32::from_bits(c.green().to_bits()), 0.2);
    assert_eq!(f32::from_bits(c.blue().to_bits()), 0.3);
    assert_eq!(f32::from_bits(c.alpha().to_bits()), 0.4);
    c.set_red(s(0.5));
    c.set_green(s(0.6));
    c.set_blue(s(0.7));
    c.set_alpha(s(2.0));
    assert_eq!(c, rgba(0.5, 0.6, 0.7, 2.0));
}

#[test]
fn scalar_keeps_bits() {
    assert_eq!(s(1.5).to_bits(), 1.5f32.to_bits());
    assert_eq!(Scalar::from_bits(7).to_bits(), 7);
}
