use std::cell::RefCell;

use framework::bitmap;
use framework::bitmap::{
    decode_chunk, png_dimensions, record_bitmap, DecodeStep, BITMAP_DECODE_MAX_BYTES,
};
use framework::bitmap_registry::{BitmapRegistry, BitmapRegistryError};
use framework::canvas_registry::{
    path_segments, with_canvas, CanvasRegistry, PaintConfig, PathGeometry, Segment, Verb,
};
use framework::draw::{
    begin_draw, canvas_draw_supported, draws_anything, finish_draw, set_canvas_draw_supported,
    DrawSupport, DrawTarget, DrawnCanvas,
};
use framework::host::{
    clock_reading, elapsed_cpu_millis, log_accepts, log_level, log_result, LogLevel,
};
use framework::input::{
    engine_surface_view_handle, engine_touch_outcome, peer_answer, refresh_rates, surface_events,
    surface_destroyed, surface_ready, touch_times, EngineTouchOutcome, PeerReply, SurfaceEvent, SurfaceTouch,
    RBX_SURFACE_VIEW_CLASS,
};
use framework::layout::{
    layout_view, measure, measure_default_size, needs_suggested_minimum, request_layout,
    suggested_minimum_if_needed, visible_display_frame, GlobalLayoutObserver,
    MEASURE_SPEC_AT_MOST, MEASURE_SPEC_EXACTLY, MEASURE_SPEC_MODE_MASK,
};
use framework::lifecycle::NativeGroup;
use framework::matrix_registry;
use framework::matrix_registry::{Affine, MatrixRegistry};
use framework::names::{
    VIEW_NATIVE_CONSTRUCTOR_NAME, VIEW_NATIVE_CONSTRUCTOR_SIG, VIEW_NATIVE_DESTRUCTOR_NAME,
    VIEW_NATIVE_DESTRUCTOR_SIG, VIEW_SET_BACKGROUND_COLOR_NAME, VIEW_SET_BACKGROUND_COLOR_SIG,
};
use framework::natives::{fold_best_effort, natives_of, BindPolicy, NativeName};
use framework::paint;
use framework::paint::{paint_color_with_alpha, paint_config_from_handle};
use framework::paint_registry;
use framework::paint_registry::{PaintRegistry, PaintStyle};
use framework::path;
use framework::path::PathRegistry;
use framework::slots::{pack, unpack, SlotTable};
use framework::view_registry;
use framework::view_registry::ViewRegistry;
use framework::window;
use framework::window::WindowRegistry;

fn png(width: u32, height: u32) -> Vec<u8> {
    let mut png = vec![0x89, b'P', b'N', b'G', b'\r', b'\n', 0x1a, b'\n'];
    png.extend_from_slice(&13u32.to_be_bytes());
    png.extend_from_slice(b"IHDR");
    png.extend_from_slice(&width.to_be_bytes());
    png.extend_from_slice(&height.to_be_bytes());
    png
}

#[test]
fn png_dimensions_parses_ihdr_and_rejects_non_png() {
    let png = png(48, 24);
    assert_eq!(png_dimensions(&png), Some((48, 24)));

    assert_eq!(png_dimensions(b"not a png at all"), None, "wrong signature");
    assert_eq!(png_dimensions(&png[..12]), None, "truncated before IHDR");
    let mut wrong_chunk = png.clone();
    wrong_chunk[12..16].copy_from_slice(b"IDAT");
    assert_eq!(png_dimensions(&wrong_chunk), None, "first chunk not IHDR");
}

#[test]
fn record_bitmap_from_file_records_dimensions_and_is_total_on_bad_paths() {
    let mut bitmaps = BitmapRegistry::new();
    let handle = record_bitmap(&mut bitmaps, png(64, 32));
    assert_ne!(handle, 0, "a readable PNG must yield a live handle");
    let (w, h) = (
        bitmap::get_width(&bitmaps, handle),
        bitmap::get_height(&bitmaps, handle),
    );
    assert_eq!((w, h), (64, 32), "IHDR dimensions recorded");
    bitmaps.free(handle).expect("free recorded bitmap");
    assert_eq!(
        record_bitmap(&mut bitmaps, vec![0u8; BITMAP_DECODE_MAX_BYTES + 1]),
        0,
        "too many bytes"
    );
    let unknown = record_bitmap(&mut bitmaps, b"GIF89a".to_vec());
    assert_eq!(bitmap::get_width(&bitmaps, unknown), 0);
    let huge = record_bitmap(&mut bitmaps, png(u32::MAX, 1));
    assert_eq!(bitmap::get_width(&bitmaps, huge), i32::MAX);
}

#[test]
fn a_stream_is_read_to_its_end_or_to_the_limit() {
    let mut bytes = Vec::new();
    assert_eq!(decode_chunk(&mut bytes, 2, &[1, -1, 3]), DecodeStep::More);
    assert_eq!(bytes, [1, 255]);
    assert_eq!(decode_chunk(&mut bytes, 99, &[4]), DecodeStep::More);
    assert_eq!(bytes, [1, 255, 4]);
    assert_eq!(decode_chunk(&mut bytes, -1, &[9]), DecodeStep::End);
    assert_eq!(bytes.len(), 3);
    let mut full = vec![0u8; BITMAP_DECODE_MAX_BYTES];
    assert_eq!(decode_chunk(&mut full, 1, &[0]), DecodeStep::TooLarge);
}

#[test]
fn textures_and_snapshots_share_a_bitmap() {
    let mut bitmaps = BitmapRegistry::new();
    let texture = bitmap::create_texture(&mut bitmaps, 0, 5, 6);
    assert_eq!(bitmap::get_height(&bitmaps, texture), 6);
    let snapshot = bitmap::create_snapshot(&bitmaps, texture);
    assert_eq!(snapshot, texture);
    assert_eq!(
        bitmap::create_texture(&mut bitmaps, snapshot, 1, 1),
        texture
    );
    assert_eq!(bitmap::nine_patch_from_chunk(&bitmaps, texture), texture);
    let copy = bitmap::ref_texture(&mut bitmaps, texture);
    assert_ne!(copy, texture);
    bitmap::recycle(&mut bitmaps, texture, snapshot);
    assert_eq!(bitmap::get_width(&bitmaps, texture), 0);
    assert_eq!(bitmap::get_width(&bitmaps, copy), 5);
    assert_eq!(bitmap::create_snapshot(&bitmaps, texture), 0);
    assert_eq!(bitmap::create_snapshot(&bitmaps, 0), 0);
    assert_eq!(bitmap::create_texture(&mut bitmaps, texture, 1, 1), 0);
    assert_eq!(bitmap::ref_texture(&mut bitmaps, texture), 0);
    assert_eq!(
        BitmapRegistryError::Poisoned.message(),
        "bitmap registry mutex was poisoned"
    );
}

#[test]
fn measure_default_size_serves_installed_get_default_size_semantics() {
    assert_eq!(measure_default_size(MEASURE_SPEC_EXACTLY | 240, 17), 240);

    let s = MEASURE_SPEC_AT_MOST | 800;
    assert!(
        s < 0,
        "an AT_MOST spec must be a negative jint (sign-bit mode encoding)"
    );

    let mask: i32 = MEASURE_SPEC_MODE_MASK;
    assert!(mask < 0);
    assert_eq!(measure_default_size(s, 17), 800);

    assert_eq!(measure_default_size(0, 0), 0);
    assert_eq!(measure_default_size(55, 17), 17);

    assert_eq!(measure_default_size(MEASURE_SPEC_MODE_MASK | 320, 17), 17);

    assert_eq!(
        measure_default_size(MEASURE_SPEC_AT_MOST | 0x3FFF_FFFF, 17),
        0x3FFF_FFFF
    );
    assert_eq!(
        measure_default_size(MEASURE_SPEC_EXACTLY | 0x3FFF_FFFF, 17),
        0x3FFF_FFFF
    );
}

#[test]
fn views_are_measured_and_laid_out() {
    assert!(needs_suggested_minimum(5));
    assert!(!needs_suggested_minimum(MEASURE_SPEC_EXACTLY));
    assert_eq!(suggested_minimum_if_needed(5, Some(3)), 3);
    assert_eq!(suggested_minimum_if_needed(5, None), 0);
    assert_eq!(suggested_minimum_if_needed(MEASURE_SPEC_AT_MOST, Some(3)), 0);
    assert_eq!(
        measure(MEASURE_SPEC_EXACTLY | 10, 0, Some(1), Some(2)),
        (10, 2)
    );
    assert_eq!(visible_display_frame(None), [0, 0, 800, 600]);
    assert_eq!(visible_display_frame(Some((3, 4))), [0, 0, 3, 4]);
    let mut views = ViewRegistry::new();
    let view = view_registry::allocate(&mut views, "v").expect("a view");
    let mut observers = vec![GlobalLayoutObserver { object: (), pending: false }];
    assert!(!request_layout(&views, &mut observers, 0));
    assert!(!observers[0].pending);
    assert!(request_layout(&views, &mut observers, view));
    assert!(observers[0].pending);
    observers[0].pending = false;
    assert!(layout_view(&mut views, &mut observers, view, [1, 2, 3, 4]));
    assert!(observers[0].pending);
    assert_eq!(views.views.get(view).expect("live").frame, Some([1, 2, 3, 4]));
    assert!(!layout_view(&mut views, &mut observers, 0, [1, 2, 3, 4]));
}

#[test]
fn paint_color_with_alpha_replaces_only_the_alpha_channel() {
    assert_eq!(
        paint_color_with_alpha(0x1234_5678, 0xFF),
        0xFF34_5678u32 as i32
    );
    assert_eq!(
        paint_color_with_alpha(0xFF34_5678u32 as i32, 0),
        0x0034_5678
    );
    assert_eq!(
        paint_color_with_alpha(0x8000_0001u32 as i32, 0x80),
        0x8000_0001u32 as i32
    );

    assert_eq!(
        paint_color_with_alpha(0x0034_5678, 0x1FF),
        0xFF34_5678u32 as i32
    );

    let merged = paint_color_with_alpha(0x0012_3456, 0xAB);
    assert_eq!((merged >> 24) & 0xFF, 0xAB);
}

#[test]
fn paint_config_from_handle_reads_paint_then_defaults_when_invalid() {
    let mut paints = PaintRegistry::new();
    let p = paint_registry::allocate(&mut paints).expect("allocate paint");
    paint_registry::with_paint(&mut paints, p, |s| {
        s.color = 0x80AB_CDEFu32 as i32;
        s.style = PaintStyle::Stroke;
        s.stroke_width_bits = 3.5f32.to_bits();
    })
    .expect("configure paint");
    let cfg = paint_config_from_handle(&paints, p);
    assert_eq!(cfg.argb, 0x80AB_CDEFu32 as i32);
    assert_eq!(cfg.style, PaintStyle::Stroke);
    assert_eq!(cfg.stroke_width_bits, 3.5f32.to_bits());
    paint_registry::free(&mut paints, p).expect("free paint");

    let def = paint_config_from_handle(&paints, 0);
    assert_eq!(def.argb, PaintConfig::default().argb);
    assert_eq!(def.style, PaintStyle::Fill);
}

#[test]
fn paints_are_set_and_read() {
    let mut paints = PaintRegistry::new();
    let p = paint::create(&mut paints);
    assert_eq!(paint::get_color(&paints, p), 0xFF00_0000u32 as i32);
    assert_eq!(paint::get_alpha(&paints, p), 255);
    assert!(paint::set_color(&mut paints, p, 0x0102_0304));
    assert!(paint::set_alpha(&mut paints, p, 0x80));
    assert_eq!(paint::get_color(&paints, p), 0x8002_0304u32 as i32);
    assert_eq!(paint::get_alpha(&paints, p), 0x80);
    assert!(paint::set_style(&mut paints, p, 2));
    assert!(paint::set_stroke_cap(&mut paints, p, 1));
    assert!(paint::set_stroke_join(&mut paints, p, 2));
    assert!(paint::set_stroke_width(&mut paints, p, 2.0f32.to_bits()));
    assert!(paint::set_text_size(&mut paints, p, 9.0f32.to_bits()));
    let q = paint::clone_paint(&mut paints, p);
    assert_ne!(p, q);
    assert!(paint::recycle(&mut paints, p));
    assert!(!paint::recycle(&mut paints, p));
    assert!(!paint::recycle(&mut paints, 0));
    assert!(!paint::set_color(&mut paints, p, 1));
    assert_eq!(paint::get_style(&paints, q), 2);
    assert_eq!(paint::get_stroke_cap(&paints, q), 1);
    assert_eq!(paint::get_stroke_join(&paints, q), 2);
    assert_eq!(paint::get_stroke_width(&paints, q), 2.0f32.to_bits());
    assert_eq!(paint::get_text_size(&paints, q), 9.0f32.to_bits());
    assert_eq!(paint::get_alpha(&paints, p), 255, "a paint that is gone");
    let fresh = paint::clone_paint(&mut paints, p);
    assert_eq!(paint::get_color(&paints, fresh), 0xFF00_0000u32 as i32);
    assert!(paint::set_style(&mut paints, q, 77));
    assert_eq!(paint::get_style(&paints, q), 0);
}

#[test]
fn paths_are_drawn_and_copied() {
    let mut paths = PathRegistry::new();
    let builder = path::path_clone_handle(&mut paths, 0);
    assert!(path::move_to(&mut paths, builder, 1, 2));
    assert!(path::line_to(&mut paths, builder, 3, 4));
    let copy = path::path_clone_handle(&mut paths, builder);
    assert!(path::quad_to(&mut paths, builder, 5, 6, 7, 8));
    assert!(path::cubic_to(&mut paths, builder, (1, 2), (3, 4), 5, 6));
    assert!(path::close(&mut paths, builder));
    assert_eq!(
        paths.get(builder).expect("live").verbs,
        [Verb::MoveTo, Verb::LineTo, Verb::QuadTo, Verb::CubicTo, Verb::Close]
    );
    assert_eq!(paths.get(builder).expect("live").points.len(), 14);
    assert_eq!(paths.get(copy).expect("live").points, [1, 2, 3, 4]);
    assert!(path::line_to(&mut paths, copy, 9, 9));
    assert_eq!(paths.get(builder).expect("live").points.len(), 14);
    path::reset(&mut paths, 0, builder);
    assert!(paths.get(builder).is_err());
    assert!(!path::close(&mut paths, builder));
    let empty = path::path_clone_handle(&mut paths, builder);
    assert!(paths.get(empty).expect("live").verbs.is_empty());
}

#[test]
fn a_path_that_lacks_points_is_cut_off() {
    let geometry = PathGeometry {
        verbs: vec![Verb::MoveTo, Verb::LineTo, Verb::Close],
        points: vec![1, 2, 3],
    };
    let segments = path_segments(&geometry);
    assert_eq!(segments.len(), 1);
    assert!(matches!(segments[0], Segment::MoveTo(1, 2)));
}

#[test]
fn matrices_are_made_from_others() {
    let mut matrices = MatrixRegistry::new();
    let mut shifted = Affine::identity();
    shifted.set_translate(1, 2);
    let a = matrix_registry::allocate(&mut matrices, shifted).expect("a matrix");
    let b = matrix_registry::create(&mut matrices, a);
    assert_eq!(matrix_registry::get(&matrices, b).map(|a| a.m), Ok(shifted.m));
    let c = matrix_registry::create(&mut matrices, 12345 << 32);
    assert_eq!(
        matrix_registry::get(&matrices, c).map(|a| a.m),
        Ok(Affine::identity().m)
    );
}

#[test]
fn draw_target_and_drawn_canvas_are_plain_copy_values() {
    let t = DrawTarget {
        handle: 42,
        width: 100,
        height: 50,
    };
    let t2 = t;
    assert_eq!(t, t2);
    assert_eq!(t.width, 100);
    assert_eq!(t.height, 50);
    let d = DrawnCanvas {
        view: 42,
        canvas: 7,
    };
    assert_eq!(d.view, t.handle);
    assert_eq!(d.canvas, 7);
}

#[test]
fn a_view_that_cannot_be_drawn_leaves_no_canvas() {
    let mut canvases = CanvasRegistry::new();
    let mut support = DrawSupport { bound: false };
    let target = DrawTarget { handle: 1, width: 2, height: 2 };
    assert!(!canvas_draw_supported(&support));
    assert!(!draws_anything(&support, &[target]));
    set_canvas_draw_supported(&mut support, true);
    assert!(draws_anything(&support, &[target]));
    assert!(!draws_anything(&support, &[]));
    let mut drawn = Vec::new();
    let first = begin_draw(&mut canvases, target).expect("a canvas");
    with_canvas(&mut canvases, first, |c| c.draw_color(0x80FF_0000u32 as i32)).expect("drawn");
    finish_draw(&mut canvases, &mut drawn, target, first, true);
    let second = begin_draw(&mut canvases, target).expect("a canvas");
    finish_draw(&mut canvases, &mut drawn, target, second, false);
    assert_eq!(drawn, [DrawnCanvas { view: 1, canvas: first }]);
    assert!(canvases.get(second).is_err());
    assert!(canvases.get(first).is_ok(), "the canvas that was drawn stays");
    assert_eq!(
        begin_draw(&mut canvases, DrawTarget { handle: 1, width: 0, height: 2 }),
        None
    );
    let pixels = with_canvas(&mut canvases, first, |c| c.rgba()).expect("pixels");
    assert_eq!(pixels.len(), 16);
    assert_eq!(&pixels[..4], [255, 0, 0, 128]);
}

#[test]
fn view_subclass_constructor_classes_are_slashed_internal_names() {
    let natives = natives_of(NativeGroup::ViewSubclassConstructors);
    let names: Vec<&str> = natives.iter().map(|c| c.class).collect();
    assert_eq!(
        names,
        vec![
            "android/widget/Button",
            "android/widget/EditText",
            "android/widget/ProgressBar",
            "android/widget/CheckBox",
            "android/widget/RadioButton",
            "android/widget/SeekBar",
            "android/widget/Spinner",
            "android/widget/ScrollView",
        ],
    );

    assert!(!names.iter().any(|n| *n == "android/widget/CompoundButton"));
    assert!(!names.iter().any(|n| *n == "android/widget/PopupWindow"));

    assert!(!names.iter().any(|n| *n == "android/webkit/WebView"));
}

#[test]
fn register_class_natives_best_effort_skips_unbindable_method_and_continues() {
    let bindings = [
        NativeName {
            name: VIEW_NATIVE_CONSTRUCTOR_NAME,
            signature: VIEW_NATIVE_CONSTRUCTOR_SIG,
        },
        NativeName {
            name: VIEW_SET_BACKGROUND_COLOR_NAME,
            signature: VIEW_SET_BACKGROUND_COLOR_SIG,
        },
        NativeName {
            name: VIEW_NATIVE_DESTRUCTOR_NAME,
            signature: VIEW_NATIVE_DESTRUCTOR_SIG,
        },
    ];

    let visited: RefCell<Vec<String>> = RefCell::new(Vec::new());
    let bound = fold_best_effort(&bindings, |binding: &NativeName| {
        visited.borrow_mut().push(binding.name.to_string());

        binding.name != VIEW_SET_BACKGROUND_COLOR_NAME
    });

    assert_eq!(
        visited.into_inner(),
        vec![
            VIEW_NATIVE_CONSTRUCTOR_NAME.to_string(),
            VIEW_SET_BACKGROUND_COLOR_NAME.to_string(),
            VIEW_NATIVE_DESTRUCTOR_NAME.to_string(),
        ],
        "a single unbindable entry must not short-circuit the remaining methods"
    );

    assert_eq!(
        bound, 2,
        "skipped entry is not counted; the rest still bind"
    );
}

#[test]
fn every_group_of_natives_has_its_classes() {
    let view = natives_of(NativeGroup::View);
    assert_eq!(view.len(), 1);
    assert_eq!(view[0].class, "android/view/View");
    assert_eq!(view[0].policy, BindPolicy::BestEffort);
    assert_eq!(view[0].methods.len(), 27);
    assert_eq!(view[0].methods[0].name, "native_constructor");
    assert_eq!(natives_of(NativeGroup::AssetManager)[0].methods.len(), 16);
    assert_eq!(
        natives_of(NativeGroup::AssetManager)[0].policy,
        BindPolicy::Required
    );
    assert_eq!(natives_of(NativeGroup::Canvas)[0].policy, BindPolicy::Optional);
    assert_eq!(natives_of(NativeGroup::WidgetPropertySetters).len(), 8);
    assert_eq!(natives_of(NativeGroup::Paint)[0].methods.len(), 19);
    assert!(natives_of(NativeGroup::Sqlite).is_empty());
}

#[test]
fn monotonic_anchor_clock_is_non_decreasing() {
    let anchor = std::time::Instant::now();
    let first = clock_reading(anchor.elapsed().as_millis());
    let second = clock_reading(anchor.elapsed().as_millis());
    assert!(
        second >= first,
        "elapsedRealtime must be monotonic: {first} then {second}"
    );

    let first_nanos = clock_reading(anchor.elapsed().as_nanos());
    let second_nanos = clock_reading(anchor.elapsed().as_nanos());
    assert!(
        second_nanos >= first_nanos,
        "elapsedRealtimeNanos must be monotonic: {first_nanos} then {second_nanos}"
    );
}

#[test]
fn the_host_answers_for_itself() {
    assert_eq!(clock_reading(u128::MAX), i64::MAX);
    assert_eq!(elapsed_cpu_millis(None), 0);
    assert_eq!(elapsed_cpu_millis(Some((2, 3_999_999))), 2003);
    assert_eq!(elapsed_cpu_millis(Some((i64::MAX, 0))), i64::MAX);
    assert!(log_accepts(0, true));
    assert!(log_accepts(3, true));
    assert!(!log_accepts(4, true));
    assert!(!log_accepts(-1, true));
    assert!(!log_accepts(0, false));
    assert_eq!(log_level(2), LogLevel::Trace);
    assert_eq!(log_level(3), LogLevel::Debug);
    assert_eq!(log_level(4), LogLevel::Info);
    assert_eq!(log_level(5), LogLevel::Warn);
    assert_eq!(log_level(6), LogLevel::Error);
    assert_eq!(log_level(7), LogLevel::Error);
    assert_eq!(log_level(99), LogLevel::Info);
    assert_eq!(log_result(12), 12);
    assert_eq!(log_result(usize::MAX), i32::MAX);
}

#[test]
fn touches_reach_the_engines_view() {
    let mut views = ViewRegistry::new();
    assert_eq!(engine_surface_view_handle(&views), None);
    let surface = view_registry::allocate(&mut views, RBX_SURFACE_VIEW_CLASS).expect("a view");
    assert_eq!(engine_surface_view_handle(&views), Some(surface));
    assert_eq!(touch_times(None, 9), (9, 9));
    assert_eq!(touch_times(Some(4), 9), (4, 9));
    assert_eq!(
        engine_touch_outcome(None, SurfaceTouch::Delivered(9, true)),
        EngineTouchOutcome { consumed: true, down_time_ms: 9 }
    );
    assert_eq!(
        engine_touch_outcome(Some(4), SurfaceTouch::Delivered(9, false)),
        EngineTouchOutcome { consumed: false, down_time_ms: 4 }
    );
    assert_eq!(
        engine_touch_outcome(None, SurfaceTouch::NotDelivered),
        EngineTouchOutcome { consumed: false, down_time_ms: 0 }
    );
    assert_eq!(peer_answer::<&str>(PeerReply::NoObject), Ok(false));
    assert_eq!(peer_answer::<&str>(PeerReply::NotLive), Ok(false));
    assert_eq!(peer_answer::<&str>(PeerReply::Answered(Ok(true))), Ok(true));
    assert_eq!(peer_answer(PeerReply::Answered(Err("x"))), Err("x"));
    assert!(surface_ready(1));
    assert!(!surface_ready(0));
    assert_eq!(
        surface_events(1, 7, 8),
        [SurfaceEvent::Created, SurfaceEvent::Changed(1, 7, 8)]
    );
    assert!(surface_events(0, 7, 8).is_empty());
    assert_eq!(surface_destroyed(0, Some("x")), Ok(false));
    assert_eq!(surface_destroyed(2, Some("x")), Err("x"));
    assert_eq!(surface_destroyed::<&str>(2, None), Ok(true));
}

#[test]
fn only_rates_are_told_to_the_engine() {
    let bits = |rates: &[f32]| rates.iter().map(|r| r.to_bits()).collect::<Vec<u32>>();
    assert_eq!(refresh_rates(None, &bits(&[0.0, -60.0, f32::NAN])), None);
    let (now, rates) = refresh_rates(
        Some(60.0f32.to_bits()),
        &bits(&[60.0, f32::INFINITY, 144.0, -0.0]),
    )
    .expect("told");
    assert_eq!(now, Some(60.0f32.to_bits()));
    assert_eq!(rates, bits(&[60.0, 144.0]));
    let (now, _) = refresh_rates(Some(f32::NAN.to_bits()), &bits(&[60.0])).expect("told");
    assert_eq!(now, None);
}

#[test]
fn windows_show_views() {
    let mut windows = WindowRegistry::new();
    let mut views = ViewRegistry::new();
    let w = window::allocate(&mut windows).expect("a window");
    let v = view_registry::allocate(&mut views, "v").expect("a view");
    assert!(window::set_title(&mut windows, w, Some("Title".to_string())));
    assert_eq!(windows.get(w).expect("live").title, "Title");
    assert!(window::set_title(&mut windows, w, None));
    assert_eq!(windows.get(w).expect("live").title, "");
    assert!(!window::set_title(&mut windows, 0, None));
    assert!(window::set_widget_as_root(&mut windows, &mut views, w, v));
    assert_eq!(views.active_root, v);
    assert_eq!(windows.get(w).expect("live").root_view, Some(v));
    assert!(window::set_widget_as_root(&mut windows, &mut views, w, 99));
    assert_eq!(views.active_root, 0);
    assert_eq!(windows.get(w).expect("live").root_view, None);
    assert!(!window::set_widget_as_root(&mut windows, &mut views, 0, v));
    assert_eq!(views.active_root, v);
    let mut observers = vec![GlobalLayoutObserver { object: (), pending: false }];
    assert!(!window::set_layout(&windows, &mut observers, 0));
    assert!(window::set_layout(&windows, &mut observers, w));
    assert!(observers[0].pending);
}

#[test]
fn the_view_tree_is_kept() {
    let mut views = ViewRegistry::new();
    let parent = view_registry::allocate(&mut views, "group").expect("a view");
    let a = view_registry::allocate(&mut views, "a").expect("a view");
    let b = view_registry::allocate(&mut views, "b").expect("a view");
    assert_eq!(view_registry::find_by_class(&views, "b"), Some(b));
    assert_eq!(view_registry::find_by_class(&views, "c"), None);
    assert!(view_registry::add_view(&mut views, parent, a, -1));
    assert!(view_registry::add_view(&mut views, parent, b, 0));
    assert_eq!(views.views.get(parent).expect("live").children, [b, a]);
    assert!(view_registry::remove_view(&mut views, parent, a));
    assert_eq!(views.views.get(parent).expect("live").children, [b]);
    view_registry::request_focus(&mut views, b);
    assert!(view_registry::is_focused(&views, b));
    assert!(!view_registry::is_focused(&views, a));
    assert!(view_registry::set_padding(&mut views, a, [1, 2, 3, 4]));
    assert_eq!(views.views.get(a).expect("live").layout.padding, [1, 2, 3, 4]);
    assert!(view_registry::set_layout_params(
        &mut views,
        a,
        10,
        20,
        3,
        1.5f32.to_bits(),
        [5, 6, 7, 8]
    ));
    assert_eq!(views.views.get(a).expect("live").layout.margins, [5, 6, 7, 8]);
    assert!(view_registry::set_background_color(&mut views, a, 77));
    assert_eq!(views.views.get(a).expect("live").background_color, Some(77));
    assert!(view_registry::free(&mut views, a));
    assert!(!view_registry::free(&mut views, a));
    assert!(!view_registry::set_padding(&mut views, a, [0; 4]));
}

#[test]
fn handles_of_ended_things_never_come_back() {
    let mut table: SlotTable<u8> = SlotTable::new();
    let a = table.store(1).expect("stored");
    let b = table.store(2).expect("stored");
    table.free(a).expect("ended");
    let c = table.store(3).expect("stored");
    assert_ne!(a, c);
    assert_eq!(unpack(a).0, unpack(c).0, "the slot is used again");
    assert_eq!(table.get(b), Ok(&2));
    assert_eq!(table.get(c), Ok(&3));
    assert!(table.get(a).is_err());
    assert_eq!(unpack(pack(3, 7)), (3, 7));
}
