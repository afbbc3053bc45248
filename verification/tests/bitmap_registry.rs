use framework::bitmap_registry::{
    free, pack, store, with_bitmap, BitmapRegistry, BitmapRegistryError, BitmapState,
};

#[test]
fn store_returns_distinct_nonzero_handles_and_round_trips_dimensions() {
    let mut r = BitmapRegistry::new();
    let a = store(&mut r, BitmapState {
        width: 48,
        height: 24,
        bytes: vec![1, 2, 3],
    })
    .expect("store a");
    let b = store(&mut r, BitmapState::default()).expect("store b");
    assert_ne!(a, b, "distinct allocations must yield distinct handles");
    assert_ne!(a, 0, "a valid handle is never the reserved null 0");
    let (w, h, len) = with_bitmap(&mut r, a, |s| (s.width, s.height, s.bytes.len())).expect("read a");
    assert_eq!((w, h, len), (48, 24, 3), "recorded state round-trips");
    free(&mut r, a).expect("free a");
    free(&mut r, b).expect("free b");
}

#[test]
fn freed_handle_is_stale_and_fabricated_handles_are_rejected() {
    let mut r = BitmapRegistry::new();
    let old = store(&mut r, BitmapState::default()).expect("store old");
    free(&mut r, old).expect("free old");
    let new = store(&mut r, BitmapState::default()).expect("store new");
    assert_eq!(
        with_bitmap(&mut r, old, |_| ()),
        Err(BitmapRegistryError::StaleHandle),
        "a freed handle must be StaleHandle, never alias the reused slot"
    );
    assert_eq!(
        with_bitmap(&mut r, pack(u32::MAX, 1), |_| ()),
        Err(BitmapRegistryError::OutOfRange)
    );
    assert!(
        with_bitmap(&mut r, 0, |_| ()).is_err(),
        "the reserved null handle 0 must be rejected"
    );
    assert_eq!(free(&mut r, old), Err(BitmapRegistryError::StaleHandle));
    free(&mut r, new).expect("free new");
}

