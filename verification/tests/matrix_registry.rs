use framework::matrix_registry::{
    allocate, free, get, pack, unpack, with_matrix, Affine, MatrixRegistry, MatrixRegistryError,
};

#[test]
fn matrix_registry_allocate_returns_distinct_nonzero_handles() {
    let mut r = MatrixRegistry::new();
    let a = allocate(&mut r, Affine::identity()).expect("allocate a");
    let b = allocate(&mut r, Affine::identity()).expect("allocate b");
    assert_ne!(a, b, "distinct allocations must yield distinct handles");
    assert_ne!(a, 0, "a valid handle is never the reserved null 0");
    assert_ne!(b, 0, "a valid handle is never the reserved null 0");
    free(&mut r, a).expect("free a");
    free(&mut r, b).expect("free b");
}

#[test]
fn null_handle_reads_identity_sentinel() {
    let mut r = MatrixRegistry::new();
    assert_eq!(get(&r, 0).map(|a| a.m), Ok(Affine::identity().m));

    assert!(matches!(
        with_matrix(&mut r, 0, |_| ()),
        Err(MatrixRegistryError::OutOfRange) | Err(MatrixRegistryError::StaleHandle)
    ));
    assert!(matches!(
        free(&mut r, 0),
        Err(MatrixRegistryError::OutOfRange) | Err(MatrixRegistryError::StaleHandle)
    ));
}

#[test]
fn with_matrix_mutates_the_right_slot() {
    let mut r = MatrixRegistry::new();
    let a = allocate(&mut r, Affine::identity()).expect("allocate a");
    let b = allocate(&mut r, Affine::identity()).expect("allocate b");
    with_matrix(&mut r, a, |m| m.set_translate(5.0f32.to_bits(), 7.0f32.to_bits())).expect("with a");
    with_matrix(&mut r, b, |m| m.set_scale(2.0f32.to_bits(), 3.0f32.to_bits())).expect("with b");
    let va = get(&r, a).expect("read a");
    let vb = get(&r, b).expect("read b");
    assert_eq!(va.m[2], 5.0f32.to_bits());
    assert_eq!(va.m[5], 7.0f32.to_bits());
    assert_eq!(vb.m[0], 2.0f32.to_bits());
    assert_eq!(vb.m[4], 3.0f32.to_bits());
    free(&mut r, a).expect("free a");
    free(&mut r, b).expect("free b");
}

#[test]
fn matrix_registry_freed_handle_is_stale_and_does_not_alias_reused_slot() {
    let mut r = MatrixRegistry::new();
    let old = allocate(&mut r, Affine::identity()).expect("allocate old");
    with_matrix(&mut r, old, |m| m.set_translate(1.0f32.to_bits(), 1.0f32.to_bits())).expect("write old");
    free(&mut r, old).expect("free old");

    let new = allocate(&mut r, Affine::identity()).expect("allocate new");
    assert_eq!(
        get(&r, old).map(|a| a.m),
        Err(MatrixRegistryError::StaleHandle),
        "a freed handle must be StaleHandle, never alias the reused slot"
    );
    assert!(
        get(&r, new).expect("read new").is_identity(),
        "reused slot is fresh identity"
    );
    free(&mut r, new).expect("free new");
}

#[test]
fn matrix_registry_out_of_range_and_fabricated_handles_return_err_not_panic() {
    let mut r = MatrixRegistry::new();
    let fabricated = pack(u32::MAX, 1);
    assert_eq!(
        with_matrix(&mut r, fabricated, |_| ()),
        Err(MatrixRegistryError::OutOfRange),
        "a fabricated out-of-range index must be OutOfRange, never an out-of-bounds deref"
    );
    assert_eq!(get(&r, fabricated).map(|a| a.m), Err(MatrixRegistryError::OutOfRange));
    assert_eq!(free(&mut r, fabricated), Err(MatrixRegistryError::OutOfRange));
}

#[test]
fn matrix_registry_double_free_is_rejected() {
    let mut r = MatrixRegistry::new();
    let h = allocate(&mut r, Affine::identity()).expect("allocate");
    free(&mut r, h).expect("first free");
    assert_eq!(free(&mut r, h), Err(MatrixRegistryError::StaleHandle));
}

#[test]
fn matrix_registry_pack_unpack_round_trips() {
    for &(index, generation) in &[(0u32, 1u32), (1, 1), (5, 42), (u32::MAX, u32::MAX), (3, 7)] {
        let handle = pack(index, generation);
        assert_eq!(unpack(handle), (index, generation));
    }
}

#[test]
fn reset_restores_identity() {
    let mut m = Affine::identity();
    m.set_scale(5.0f32.to_bits(), 5.0f32.to_bits());
    assert!(!m.is_identity());
    m.reset();
    assert!(m.is_identity());
}

#[test]
fn set_from_copies_or_resets() {
    let mut src = Affine::identity();
    src.set_translate(7.0f32.to_bits(), 9.0f32.to_bits());
    let mut dst = Affine::identity();
    dst.set_from(Some(&src));
    assert_eq!(dst.m[2], 7.0f32.to_bits());
    assert_eq!(dst.m[5], 9.0f32.to_bits());
    dst.set_from(None);
    assert!(dst.is_identity());
}

