use framework::canvas_registry::{
    allocate, free, pack, unpack, with_canvas, CanvasHandle, CanvasRegistry, CanvasRegistryError,
    MAX_CANVAS_DIMENSION,
};

fn pixel(r: &mut CanvasRegistry, handle: CanvasHandle, x: u32, y: u32) -> [u8; 4] {
    with_canvas(r, handle, |c| {
        let (w, _h) = c.dimensions();
        let rgba = c.rgba();
        let off = ((y * w + x) * 4) as usize;
        [rgba[off], rgba[off + 1], rgba[off + 2], rgba[off + 3]]
    })
    .expect("read pixel")
}

#[test]
fn allocate_returns_distinct_nonzero_handles_and_rejects_bad_dimensions() {
    let mut r = CanvasRegistry::new();
    let a = allocate(&mut r, 10, 10).expect("allocate a");
    let b = allocate(&mut r, 10, 10).expect("allocate b");
    assert_ne!(a, b);
    assert_ne!(a, 0);
    assert_eq!(allocate(&mut r, 0, 10), Err(CanvasRegistryError::BadDimensions));
    assert_eq!(
        allocate(&mut r, MAX_CANVAS_DIMENSION + 1, 10),
        Err(CanvasRegistryError::BadDimensions)
    );
    free(&mut r, a).expect("free a");
    free(&mut r, b).expect("free b");
}

#[test]
fn draw_color_fills_the_whole_target() {
    let mut r = CanvasRegistry::new();
    let h = allocate(&mut r, 4, 4).expect("allocate");

    with_canvas(&mut r, h, |c| c.draw_color(0xFFFF_0000u32 as i32)).expect("draw_color");
    for (x, y) in [(0, 0), (3, 3), (2, 1)] {
        assert_eq!(
            pixel(&mut r, h, x, y),
            [255, 0, 0, 255],
            "every pixel is opaque red"
        );
    }
    free(&mut r, h).expect("free");
}

#[test]
fn canvas_registry_freed_handle_is_stale_and_does_not_alias_reused_slot() {
    let mut r = CanvasRegistry::new();
    let old = allocate(&mut r, 8, 8).expect("allocate old");
    with_canvas(&mut r, old, |c| c.draw_color(0x11u32 as i32)).expect("draw old");
    free(&mut r, old).expect("free old");
    let new = allocate(&mut r, 8, 8).expect("allocate new");
    assert_eq!(
        with_canvas(&mut r, old, |_| ()),
        Err(CanvasRegistryError::StaleHandle),
        "a freed handle must be StaleHandle, never alias the reused slot"
    );

    assert_eq!(
        pixel(&mut r, new, 0, 0),
        [0, 0, 0, 0],
        "reused slot is fresh/transparent"
    );
    free(&mut r, new).expect("free new");
}

#[test]
fn out_of_range_and_double_free_return_err_not_panic() {
    let mut r = CanvasRegistry::new();
    let fabricated = pack(u32::MAX, 1);
    assert_eq!(
        with_canvas(&mut r, fabricated, |_| ()),
        Err(CanvasRegistryError::OutOfRange)
    );
    let h = allocate(&mut r, 4, 4).expect("allocate");
    free(&mut r, h).expect("first free");
    assert_eq!(free(&mut r, h), Err(CanvasRegistryError::StaleHandle));
}

#[test]
fn canvas_registry_pack_unpack_round_trips() {
    for &(index, generation) in &[(0u32, 1u32), (1, 1), (5, 42), (u32::MAX, u32::MAX), (3, 7)] {
        let handle = pack(index, generation);
        assert_eq!(unpack(handle), (index, generation));
    }
}

#[test]
fn circle_needs_a_finite_center_and_a_finite_radius_above_zero() {
    let shows = |cx: f32, cy: f32, r: f32| {
        framework::canvas_registry::circle_shows(cx.to_bits(), cy.to_bits(), r.to_bits())
    };
    assert!(shows(-3.5, 0.0, 2.0));
    assert!(shows(-0.0, 1.0, f32::MIN_POSITIVE));
    assert!(shows(f32::MIN, f32::MAX, f32::MAX));
    assert!(!shows(0.0, 0.0, 0.0));
    assert!(!shows(0.0, 0.0, -0.0));
    assert!(!shows(0.0, 0.0, -1.0));
    assert!(!shows(0.0, 0.0, f32::INFINITY));
    assert!(!shows(0.0, 0.0, f32::NAN));
    assert!(!shows(f32::NAN, 0.0, 1.0));
    assert!(!shows(0.0, f32::NEG_INFINITY, 1.0));
}
