use framework::asset_registry::{free, pack, store, with_stream, AssetRegistry, AssetRegistryError};

#[test]
fn store_returns_distinct_nonzero_handles_and_reads_sequentially() {
    let mut r = AssetRegistry::new();
    let a = store(&mut r, vec![1, 2, 3, 4, 5]).expect("store a");
    let b = store(&mut r, vec![9]).expect("store b");
    assert_ne!(a, b);
    assert_ne!(a, 0, "a valid handle is never the reserved null 0");

    assert_eq!(with_stream(&mut r, a, |s| s.len()), Ok(5));
    assert_eq!(with_stream(&mut r, a, |s| s.remaining()), Ok(5));

    let mut buf = [0u8; 3];
    assert_eq!(with_stream(&mut r, a, |s| s.read(&mut buf)), Ok(3));
    assert_eq!(buf, [1, 2, 3]);
    assert_eq!(with_stream(&mut r, a, |s| s.remaining()), Ok(2));
    let mut buf2 = [0u8; 8];
    assert_eq!(with_stream(&mut r, a, |s| s.read(&mut buf2)), Ok(2));
    assert_eq!(&buf2[..2], &[4, 5]);
    assert_eq!(with_stream(&mut r, a, |s| s.read(&mut buf2)), Ok(0));

    free(&mut r, a).expect("free a");
    free(&mut r, b).expect("free b");
}

#[test]
fn seek_set_cur_end_and_rejects_out_of_range() {
    let mut r = AssetRegistry::new();
    let h = store(&mut r, vec![0, 1, 2, 3, 4, 5, 6, 7, 8, 9]).expect("store");
    assert_eq!(with_stream(&mut r, h, |s| s.seek(3, 0)), Ok(3));
    assert_eq!(with_stream(&mut r, h, |s| s.remaining()), Ok(7));
    assert_eq!(with_stream(&mut r, h, |s| s.seek(2, 1)), Ok(5));
    assert_eq!(with_stream(&mut r, h, |s| s.seek(0, 2)), Ok(10));
    assert_eq!(with_stream(&mut r, h, |s| s.seek(-1, 0)), Ok(-1));
    assert_eq!(with_stream(&mut r, h, |s| s.seek(1, 2)), Ok(-1));
    assert_eq!(with_stream(&mut r, h, |s| s.seek(0, 99)), Ok(-1));

    assert_eq!(with_stream(&mut r, h, |s| s.remaining()), Ok(0));
    free(&mut r, h).expect("free");
}

#[test]
fn asset_registry_freed_handle_is_stale_and_does_not_alias_reused_slot() {
    let mut r = AssetRegistry::new();
    let old = store(&mut r, vec![7, 7, 7]).expect("store old");
    free(&mut r, old).expect("free old");
    let new = store(&mut r, vec![0]).expect("store new");
    assert_eq!(
        with_stream(&mut r, old, |s| s.len()),
        Err(AssetRegistryError::StaleHandle),
        "a freed handle must be StaleHandle, never alias the reused slot"
    );
    assert_eq!(with_stream(&mut r, new, |s| s.len()), Ok(1));
    free(&mut r, new).expect("free new");
}

#[test]
fn out_of_range_fabricated_and_double_free_return_err_not_panic() {
    let mut r = AssetRegistry::new();
    let fabricated = pack(u32::MAX, 1);
    assert_eq!(
        with_stream(&mut r, fabricated, |_| ()),
        Err(AssetRegistryError::OutOfRange)
    );
    assert!(matches!(
        with_stream(&mut r, 0, |_| ()),
        Err(AssetRegistryError::StaleHandle) | Err(AssetRegistryError::OutOfRange)
    ));
    let h = store(&mut r, vec![1]).expect("store");
    free(&mut r, h).expect("first free");
    assert_eq!(free(&mut r, h), Err(AssetRegistryError::StaleHandle));
}

