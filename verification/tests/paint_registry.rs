use framework::paint_registry::{
    allocate, clone_of, free, pack, unpack, with_paint, PaintRegistry, PaintRegistryError,
    PaintStyle, StrokeCap, StrokeJoin,
};

#[test]
fn paint_registry_allocate_returns_distinct_nonzero_handles() {
    let mut r = PaintRegistry::new();
    let a = allocate(&mut r).expect("allocate a");
    let b = allocate(&mut r).expect("allocate b");
    assert_ne!(a, b, "distinct allocations must yield distinct handles");
    assert_ne!(a, 0, "a valid handle is never the reserved null 0");
    assert_ne!(b, 0, "a valid handle is never the reserved null 0");
    free(&mut r, a).expect("free a");
    free(&mut r, b).expect("free b");
}

#[test]
fn with_paint_mutates_the_right_slot() {
    let mut r = PaintRegistry::new();
    let a = allocate(&mut r).expect("allocate a");
    let b = allocate(&mut r).expect("allocate b");
    with_paint(&mut r, a, |s| s.color = 0x00ff_00ff).expect("with_paint a");
    with_paint(&mut r, b, |s| s.text_size_bits = 14.0f32.to_bits()).expect("with_paint b");
    let ca = with_paint(&mut r, a, |s| s.color).expect("read a");
    let tb = with_paint(&mut r, b, |s| s.text_size_bits).expect("read b");
    assert_eq!(ca, 0x00ff_00ff, "handle a addresses its own slot");
    assert_eq!(tb, 14.0f32.to_bits(), "handle b addresses its own slot");
    free(&mut r, a).expect("free a");
    free(&mut r, b).expect("free b");
}

#[test]
fn paint_registry_freed_handle_is_stale_and_does_not_alias_reused_slot() {
    let mut r = PaintRegistry::new();
    let old = allocate(&mut r).expect("allocate old");
    with_paint(&mut r, old, |s| s.color = 0x11).expect("write old");
    free(&mut r, old).expect("free old");

    let new = allocate(&mut r).expect("allocate new");
    assert_eq!(
        with_paint(&mut r, old, |s| s.color),
        Err(PaintRegistryError::StaleHandle),
        "a freed handle must be StaleHandle, never alias the reused slot"
    );
    assert_eq!(
        with_paint(&mut r, new, |s| s.color),
        Ok(0xFF00_0000u32 as i32),
        "the live handle's reused slot is fresh (default opaque black, 2026-07-02)"
    );
    free(&mut r, new).expect("free new");
}

#[test]
fn paint_registry_out_of_range_and_fabricated_handles_return_err_not_panic() {
    let mut r = PaintRegistry::new();
    let fabricated = pack(u32::MAX, 1);
    assert_eq!(
        with_paint(&mut r, fabricated, |_| ()),
        Err(PaintRegistryError::OutOfRange),
        "a fabricated out-of-range index must be OutOfRange, never an out-of-bounds deref"
    );
    let null_lookup = with_paint(&mut r, 0, |_| ());
    assert!(
        matches!(
            null_lookup,
            Err(PaintRegistryError::StaleHandle) | Err(PaintRegistryError::OutOfRange)
        ),
        "the reserved null handle 0 must be rejected, got {null_lookup:?}"
    );
    assert_eq!(free(&mut r, fabricated), Err(PaintRegistryError::OutOfRange));
}

#[test]
fn paint_registry_double_free_is_rejected() {
    let mut r = PaintRegistry::new();
    let h = allocate(&mut r).expect("allocate");
    free(&mut r, h).expect("first free");
    assert_eq!(free(&mut r, h), Err(PaintRegistryError::StaleHandle));
}

#[test]
fn paint_style_from_ordinal_maps_aosp_values_and_defaults_to_fill() {
    assert_eq!(PaintStyle::from_ordinal(0), PaintStyle::Fill);
    assert_eq!(PaintStyle::from_ordinal(1), PaintStyle::Stroke);
    assert_eq!(PaintStyle::from_ordinal(2), PaintStyle::FillAndStroke);
    assert_eq!(PaintStyle::from_ordinal(99), PaintStyle::Fill);
    assert_eq!(PaintStyle::from_ordinal(-1), PaintStyle::Fill);
    assert_eq!(PaintStyle::default(), PaintStyle::Fill);
}

#[test]
fn style_cap_join_ordinals_round_trip_and_stay_in_java_values_range() {
    for ordinal in 0..=2 {
        assert_eq!(PaintStyle::from_ordinal(ordinal).ordinal(), ordinal);
        assert_eq!(StrokeCap::from_ordinal(ordinal).ordinal(), ordinal);
        assert_eq!(StrokeJoin::from_ordinal(ordinal).ordinal(), ordinal);
    }

    assert_eq!(StrokeCap::from_ordinal(0), StrokeCap::Butt);
    assert_eq!(StrokeCap::from_ordinal(1), StrokeCap::Round);
    assert_eq!(StrokeCap::from_ordinal(2), StrokeCap::Square);
    assert_eq!(StrokeJoin::from_ordinal(0), StrokeJoin::Miter);
    assert_eq!(StrokeJoin::from_ordinal(1), StrokeJoin::Round);
    assert_eq!(StrokeJoin::from_ordinal(2), StrokeJoin::Bevel);

    assert_eq!(StrokeCap::from_ordinal(99).ordinal(), 0);
    assert_eq!(StrokeCap::from_ordinal(-1).ordinal(), 0);
    assert_eq!(StrokeJoin::from_ordinal(99).ordinal(), 0);
    assert_eq!(StrokeJoin::from_ordinal(-1).ordinal(), 0);
}

#[test]
fn fresh_paint_defaults_are_aosp_reference_values() {
    let mut r = PaintRegistry::new();
    let h = allocate(&mut r).expect("allocate");
    let s = with_paint(&mut r, h, |s| s.clone()).expect("read");
    assert_eq!(
        s.color, 0xFF00_0000u32 as i32,
        "default color = opaque black"
    );
    assert_eq!((s.color >> 24) & 0xFF, 0xFF, "default alpha byte = 255");
    assert_eq!(s.style, PaintStyle::Fill);
    assert_eq!(s.stroke_cap, StrokeCap::Butt);
    assert_eq!(s.stroke_join, StrokeJoin::Miter);
    assert_eq!(s.stroke_width_bits, 0.0f32.to_bits());
    assert_eq!(s.text_size_bits, 0.0f32.to_bits());
    free(&mut r, h).expect("free");
}

#[test]
fn clone_of_copies_state_into_an_independent_slot() {
    let mut r = PaintRegistry::new();
    let src = allocate(&mut r).expect("allocate src");
    with_paint(&mut r, src, |s| {
        s.color = 0x80AB_CDEFu32 as i32;
        s.stroke_width_bits = 2.5f32.to_bits();
        s.stroke_cap = StrokeCap::Square;
        s.stroke_join = StrokeJoin::Bevel;
        s.style = PaintStyle::Stroke;
        s.text_size_bits = 11.0f32.to_bits();
    })
    .expect("configure src");
    let dup = clone_of(&mut r, src).expect("clone_of");
    assert_ne!(dup, src, "the clone is its own handle");
    let copied = with_paint(&mut r, dup, |s| s.clone()).expect("read dup");
    assert_eq!(copied.color, 0x80AB_CDEFu32 as i32);
    assert_eq!(copied.stroke_width_bits, 2.5f32.to_bits());
    assert_eq!(copied.stroke_cap, StrokeCap::Square);
    assert_eq!(copied.stroke_join, StrokeJoin::Bevel);
    assert_eq!(copied.style, PaintStyle::Stroke);
    assert_eq!(copied.text_size_bits, 11.0f32.to_bits());

    with_paint(&mut r, src, |s| s.color = 0).expect("mutate src");
    assert_eq!(
        with_paint(&mut r, dup, |s| s.color).expect("re-read dup"),
        0x80AB_CDEFu32 as i32,
        "the clone is a copy, not an alias"
    );
    free(&mut r, src).expect("free src");
    free(&mut r, dup).expect("free dup");
}

#[test]
fn clone_of_rejects_stale_null_and_fabricated_sources() {
    let mut r = PaintRegistry::new();
    let h = allocate(&mut r).expect("allocate");
    free(&mut r, h).expect("free");
    assert_eq!(clone_of(&mut r, h), Err(PaintRegistryError::StaleHandle));
    assert!(matches!(
        clone_of(&mut r, 0),
        Err(PaintRegistryError::StaleHandle) | Err(PaintRegistryError::OutOfRange)
    ));
    assert_eq!(
        clone_of(&mut r, pack(u32::MAX, 1)),
        Err(PaintRegistryError::OutOfRange)
    );
}

#[test]
fn with_paint_records_stroke_width_and_style() {
    let mut r = PaintRegistry::new();
    let h = allocate(&mut r).expect("allocate");
    with_paint(&mut r, h, |s| {
        s.stroke_width_bits = 6.5f32.to_bits();
        s.style = PaintStyle::Stroke;
    })
    .expect("write");
    let (w, st) = with_paint(&mut r, h, |s| (s.stroke_width_bits, s.style)).expect("read");
    assert_eq!(w, 6.5f32.to_bits());
    assert_eq!(st, PaintStyle::Stroke);
    free(&mut r, h).expect("free");
}

#[test]
fn paint_registry_pack_unpack_round_trips() {
    for &(index, generation) in &[(0u32, 1u32), (1, 1), (5, 42), (u32::MAX, u32::MAX), (3, 7)] {
        let handle = pack(index, generation);
        assert_eq!(unpack(handle), (index, generation));
    }
}


#[test]
fn a_changed_clone_leaves_its_source_alone() {
    let mut r = PaintRegistry::new();
    let source = allocate(&mut r).expect("a paint");
    with_paint(&mut r, source, |s| s.color = 7).expect("live");
    let clone = clone_of(&mut r, source).expect("a clone");
    with_paint(&mut r, clone, |s| s.color = 9).expect("live");
    assert_eq!(with_paint(&mut r, source, |s| s.color), Ok(7));
    assert_eq!(with_paint(&mut r, clone, |s| s.color), Ok(9));
}
