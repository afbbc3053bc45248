//! Transformation matrices behind handles.

use vstd::prelude::*;

use crate::slots;
use crate::slots::{SlotError, SlotTable};

verus! {

/// A handle to a matrix. Zero stands for the identity and is never the handle of
/// a stored matrix.
pub type MatrixHandle = i64;

/// Every stored matrix.
pub type MatrixRegistry = SlotTable<Affine>;

/// Why a matrix could not be reached.
#[derive(Debug, Clone, Copy, PartialEq, Eq, Structural)]
pub enum MatrixRegistryError {
    OutOfRange,
    StaleHandle,
    Poisoned,
}

impl MatrixRegistryError {
    /// The error that a slot table reports, as this registry reports it.
    pub open spec fn of(error: SlotError) -> Self {
        match error {
            SlotError::OutOfRange => MatrixRegistryError::OutOfRange,
            SlotError::StaleHandle => MatrixRegistryError::StaleHandle,
        }
    }

    fn from_slot(error: SlotError) -> (e: Self)
        ensures
            e == Self::of(error),
    {
        match error {
            SlotError::OutOfRange => MatrixRegistryError::OutOfRange,
            SlotError::StaleHandle => MatrixRegistryError::StaleHandle,
        }
    }

    /// The message that an error is shown with.
    pub fn message(&self) -> (text: &'static str)
        ensures
            text@ == match *self {
                MatrixRegistryError::OutOfRange =>
                    "matrix handle slot index is out of range (fabricated or null handle)"@,
                MatrixRegistryError::StaleHandle =>
                    "matrix handle refers to a freed slot (stale generation)"@,
                MatrixRegistryError::Poisoned => "matrix registry mutex was poisoned"@,
            },
    {
        match self {
            MatrixRegistryError::OutOfRange => {
                "matrix handle slot index is out of range (fabricated or null handle)"
            },
            MatrixRegistryError::StaleHandle => {
                "matrix handle refers to a freed slot (stale generation)"
            },
            MatrixRegistryError::Poisoned => "matrix registry mutex was poisoned",
        }
    }
}

/// The bits of the single-precision number one.
pub const ONE_BITS: u32 = 0x3F80_0000;

/// The bits of the single-precision number zero.
pub const ZERO_BITS: u32 = 0;

/// The bits of the single-precision negative zero, which equals zero.
pub const NEGATIVE_ZERO_BITS: u32 = 0x8000_0000;

/// A three by three matrix in row order, each entry held as the bits of a
/// single-precision number.
#[derive(Debug, Clone, Copy)]
pub struct Affine {
    pub m: [u32; 9],
}

impl Affine {
    /// The entries of the identity.
    pub open spec fn identity_entries() -> Seq<u32> {
        seq![
            ONE_BITS,
            ZERO_BITS,
            ZERO_BITS,
            ZERO_BITS,
            ONE_BITS,
            ZERO_BITS,
            ZERO_BITS,
            ZERO_BITS,
            ONE_BITS,
        ]
    }

    /// Whether every entry equals that of the identity as a number: a zero may
    /// carry a sign.
    pub open spec fn equals_identity(self) -> bool {
        forall|i: int|
            0 <= i < 9 ==> if i == 0 || i == 4 || i == 8 {
                #[trigger] self.m@[i] == ONE_BITS
            } else {
                self.m@[i] == ZERO_BITS || self.m@[i] == NEGATIVE_ZERO_BITS
            }
    }

    /// The identity.
    pub fn identity() -> (matrix: Self)
        ensures
            matrix.m@ == Self::identity_entries(),
    {
        let matrix = Affine {
            m: [
                ONE_BITS,
                ZERO_BITS,
                ZERO_BITS,
                ZERO_BITS,
                ONE_BITS,
                ZERO_BITS,
                ZERO_BITS,
                ZERO_BITS,
                ONE_BITS,
            ],
        };
        assert(matrix.m@ =~= Self::identity_entries());
        matrix
    }

    /// Becomes the identity.
    pub fn reset(&mut self)
        ensures
            final(self).m@ == Self::identity_entries(),
    {
        *self = Affine::identity();
    }

    /// Becomes a copy of `src`, or the identity where there is none.
    pub fn set_from(&mut self, src: Option<&Affine>)
        ensures
            final(self).m@ == match src {
                Some(s) => s.m@,
                None => Self::identity_entries(),
            },
    {
        match src {
            Some(s) => {
                self.m = s.m;
            },
            None => {
                self.reset();
            },
        }
    }

    /// Becomes the translation by `dx` and `dy`, given as bits.
    pub fn set_translate(&mut self, dx: u32, dy: u32)
        ensures
            final(self).m@ == Self::identity_entries().update(2, dx).update(5, dy),
    {
        self.m = [
            ONE_BITS,
            ZERO_BITS,
            dx,
            ZERO_BITS,
            ONE_BITS,
            dy,
            ZERO_BITS,
            ZERO_BITS,
            ONE_BITS,
        ];
        assert(self.m@ =~= Self::identity_entries().update(2, dx).update(5, dy));
    }

    /// Becomes the scaling by `sx` and `sy`, given as bits.
    pub fn set_scale(&mut self, sx: u32, sy: u32)
        ensures
            final(self).m@ == Self::identity_entries().update(0, sx).update(4, sy),
    {
        self.m = [
            sx,
            ZERO_BITS,
            ZERO_BITS,
            ZERO_BITS,
            sy,
            ZERO_BITS,
            ZERO_BITS,
            ZERO_BITS,
            ONE_BITS,
        ];
        assert(self.m@ =~= Self::identity_entries().update(0, sx).update(4, sy));
    }

    /// Whether the matrix equals the identity, entry by entry as numbers.
    pub fn is_identity(&self) -> (b: bool)
        ensures
            b == self.equals_identity(),
    {
        let mut i: usize = 0;
        while i < 9
            invariant
                0 <= i <= 9,
                forall|j: int|
                    0 <= j < i ==> if j == 0 || j == 4 || j == 8 {
                        #[trigger] self.m@[j] == ONE_BITS
                    } else {
                        self.m@[j] == ZERO_BITS || self.m@[j] == NEGATIVE_ZERO_BITS
                    },
            decreases 9 - i,
        {
            let entry: u32 = self.m[i];
            if i == 0 || i == 4 || i == 8 {
                if entry != ONE_BITS {
                    assert(self.m@[i as int] != ONE_BITS);
                    return false;
                }
            } else if entry != ZERO_BITS && entry != NEGATIVE_ZERO_BITS {
                assert(self.m@[i as int] != ZERO_BITS);
                return false;
            }
            i += 1;
        }
        true
    }
}

impl Default for Affine {
    fn default() -> (matrix: Self)
        ensures
            matrix.m@ == Affine::identity_entries(),
    {
        Affine::identity()
    }
}

/// The handle of a slot index and a generation.
pub fn pack(index: u32, generation: u32) -> (handle: MatrixHandle)
    ensures
        handle == crate::slots::handle_of(index, generation),
        crate::slots::handle_index(handle) == index,
        crate::slots::handle_generation(handle) == generation,
{
    slots::pack(index, generation)
}

/// The slot index and the generation of a handle.
pub fn unpack(handle: MatrixHandle) -> (parts: (u32, u32))
    ensures
        parts.0 == crate::slots::handle_index(handle),
        parts.1 == crate::slots::handle_generation(handle),
        crate::slots::handle_of(parts.0, parts.1) == handle,
{
    slots::unpack(handle)
}

/// Stores a matrix and returns its handle. The only failure is that no index is
/// left.
pub fn allocate(registry: &mut MatrixRegistry, value: Affine) -> (result: Result<MatrixHandle, MatrixRegistryError>)
    requires
        old(registry)@.wf(),
    ensures
        final(registry)@.wf(),
        old(registry)@.has_room() ==> result == Ok::<MatrixHandle, MatrixRegistryError>(
            old(registry)@.next_handle(),
        ) && final(registry)@ == old(registry)@.stored(value),
        !old(registry)@.has_room() ==> result == Err::<MatrixHandle, MatrixRegistryError>(
            MatrixRegistryError::OutOfRange,
        ) && final(registry)@ == old(registry)@,
{
    match registry.store(value) {
        Ok(handle) => Ok(handle),
        Err(e) => Err(MatrixRegistryError::from_slot(e)),
    }
}

/// The matrix that `handle` names, the identity for the null handle.
pub fn get(registry: &MatrixRegistry, handle: MatrixHandle) -> (result: Result<
    Affine,
    MatrixRegistryError,
>)
    requires
        registry@.wf(),
    ensures
        handle == 0 ==> result is Ok && result->Ok_0.m@ == Affine::identity_entries(),
        handle != 0 && registry@.live(handle) ==> result == Ok::<Affine, MatrixRegistryError>(
            registry@.value(handle),
        ),
        handle != 0 && !registry@.live(handle) ==> result == Err::<Affine, MatrixRegistryError>(
            MatrixRegistryError::of(registry@.refusal(handle)),
        ),
{
    if handle == 0 {
        return Ok(Affine::identity());
    }
    match registry.get(handle) {
        Ok(value) => Ok(*value),
        Err(e) => Err(MatrixRegistryError::from_slot(e)),
    }
}

/// Applies `f` to the matrix that `handle` names.
pub fn with_matrix<R, F: FnOnce(&mut Affine) -> R>(
    registry: &mut MatrixRegistry,
    handle: MatrixHandle,
    f: F,
) -> (result: Result<R, MatrixRegistryError>)
    requires
        old(registry)@.wf(),
        old(registry)@.live(handle) ==> crate::slots::applicable(
            f,
            old(registry)@.value(handle),
        ),
    ensures
        final(registry)@.wf(),
        old(registry)@.live(handle) ==> {
            let after = final(registry)@.value(handle);
            &&& result is Ok
            &&& exists|x: &mut Affine| #[trigger]
                f.ensures((x,), result->Ok_0) && *x == old(registry)@.value(handle) && *final(x)
                    == after
            &&& final(registry)@ == old(registry)@.updated(handle, after)
        },
        !old(registry)@.live(handle) ==> result == Err::<R, MatrixRegistryError>(
            MatrixRegistryError::of(old(registry)@.refusal(handle)),
        ) && final(registry)@ == old(registry)@,
{
    let ghost before = registry@;
    match registry.with(handle, f) {
        Ok(output) => {
            let ghost given = choose|x: &mut Affine| #[trigger]
                f.ensures((x,), output) && *x == before.value(handle) && *final(x)
                    == registry@.value(handle);
            let result = Ok(output);
            assert(f.ensures((given,), result->Ok_0));
            result
        },
        Err(e) => Err(MatrixRegistryError::from_slot(e)),
    }
}

/// Drops the matrix that `handle` names.
pub fn free(registry: &mut MatrixRegistry, handle: MatrixHandle) -> (result: Result<
    (),
    MatrixRegistryError,
>)
    requires
        old(registry)@.wf(),
    ensures
        final(registry)@.wf(),
        old(registry)@.live(handle) ==> result is Ok && final(registry)@ == old(registry)@.freed(
            handle,
        ),
        !old(registry)@.live(handle) ==> result == Err::<(), MatrixRegistryError>(
            MatrixRegistryError::of(old(registry)@.refusal(handle)),
        ) && final(registry)@ == old(registry)@,
{
    match registry.free(handle) {
        Ok(()) => Ok(()),
        Err(e) => Err(MatrixRegistryError::from_slot(e)),
    }
}

/// The matrix that a handle stands for, the identity where it names none.
pub open spec fn matrix_of(registry: MatrixRegistry, handle: MatrixHandle) -> Seq<u32> {
    if registry@.live(handle) {
        registry@.value(handle).m@
    } else {
        Affine::identity_entries()
    }
}

/// Makes a matrix like another one and returns its handle, zero where no index is
/// left. Where the other one is not live it is the identity.
pub fn create(registry: &mut MatrixRegistry, src: MatrixHandle) -> (handle: MatrixHandle)
    requires
        old(registry)@.wf(),
    ensures
        final(registry)@.wf(),
        old(registry)@.has_room() ==> handle == old(registry)@.next_handle() && exists|
            value: Affine,
        | #[trigger] old(registry)@.stored(value) == final(registry)@ && value.m@ == matrix_of(
            *old(registry),
            src,
        ),
        !old(registry)@.has_room() ==> handle == 0 && final(registry)@ == old(registry)@,
{
    proof {
        crate::slots::law_null_handle_is_never_live(registry@);
    }
    let value: Affine = match get(registry, src) {
        Ok(value) => value,
        Err(_) => Affine::identity(),
    };
    match allocate(registry, value) {
        Ok(handle) => handle,
        Err(_) => 0,
    }
}

/// The identity has ones on its diagonal and zeros elsewhere, and a matrix equals it where
/// its entries do, with the zeros of either sign.
pub proof fn law_identity_has_ones_on_its_diagonal(matrix: Affine, i: int)
    requires
        0 <= i < 9,
    ensures
        Affine::identity_entries().len() == 9,
        Affine::identity_entries()[i] == (if i % 4 == 0 {
            0x3F80_0000u32
        } else {
            0u32
        }),
        matrix.equals_identity() ==> (if i % 4 == 0 {
            matrix.m@[i] == 0x3F80_0000
        } else {
            matrix.m@[i] == 0 || matrix.m@[i] == 0x8000_0000
        }),
        matrix.m@ == Affine::identity_entries() ==> matrix.equals_identity(),
{
    assert(i == 0 || i == 1 || i == 2 || i == 3 || i == 4 || i == 5 || i == 6 || i == 7 || i == 8);
    if matrix.equals_identity() {
        assert(matrix.m@[i] == matrix.m@[i]);
    }
}

/// A matrix with ones on its diagonal and zeros of either sign elsewhere is the identity.
pub proof fn law_ones_on_the_diagonal_make_the_identity(matrix: Affine)
    requires
        forall|i: int|
            0 <= i < 9 ==> if i % 4 == 0 {
                #[trigger] matrix.m@[i] == 0x3F80_0000
            } else {
                matrix.m@[i] == 0 || matrix.m@[i] == 0x8000_0000
            },
    ensures
        matrix.equals_identity(),
{
    assert forall|i: int| 0 <= i < 9 implies if i == 0 || i == 4 || i == 8 {
        #[trigger] matrix.m@[i] == ONE_BITS
    } else {
        matrix.m@[i] == ZERO_BITS || matrix.m@[i] == NEGATIVE_ZERO_BITS
    } by {}
}

/// A handle stands for the matrix that it names, and for the identity where it names none.
pub proof fn law_handle_without_a_matrix_is_the_identity(
    registry: MatrixRegistry,
    handle: MatrixHandle,
)
    ensures
        registry@.live(handle) ==> matrix_of(registry, handle) == registry@.value(handle).m@,
        !registry@.live(handle) ==> matrix_of(registry, handle) == Affine::identity_entries(),
{
}

/// A refusal is told by its own name.
pub proof fn law_refusal_keeps_its_name()
    ensures
        MatrixRegistryError::of(SlotError::OutOfRange) == MatrixRegistryError::OutOfRange,
        MatrixRegistryError::of(SlotError::StaleHandle) == MatrixRegistryError::StaleHandle,
{
}

} // verus!
