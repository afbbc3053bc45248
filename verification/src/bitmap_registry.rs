//! Recorded bitmaps, their size and encoded bytes, behind handles.

use vstd::prelude::*;

use crate::slots;
use crate::slots::{SlotError, SlotTable};

verus! {

/// A handle to a recorded bitmap. Zero is never the handle of one.
pub type BitmapHandle = i64;

/// Every recorded bitmap.
pub type BitmapRegistry = SlotTable<BitmapState>;

/// Why a bitmap could not be reached.
#[derive(Debug, Clone, Copy, PartialEq, Eq, Structural)]
pub enum BitmapRegistryError {
    OutOfRange,
    StaleHandle,
    Poisoned,
}

impl BitmapRegistryError {
    /// The error that a slot table reports, as this registry reports it.
    pub open spec fn of(error: SlotError) -> Self {
        match error {
            SlotError::OutOfRange => BitmapRegistryError::OutOfRange,
            SlotError::StaleHandle => BitmapRegistryError::StaleHandle,
        }
    }

    fn from_slot(error: SlotError) -> (e: Self)
        ensures
            e == Self::of(error),
    {
        match error {
            SlotError::OutOfRange => BitmapRegistryError::OutOfRange,
            SlotError::StaleHandle => BitmapRegistryError::StaleHandle,
        }
    }

    /// The message that an error is shown with.
    pub fn message(&self) -> (text: &'static str)
        ensures
            text@ == match *self {
                BitmapRegistryError::OutOfRange =>
                    "bitmap handle slot index is out of range (fabricated or null handle)"@,
                BitmapRegistryError::StaleHandle =>
                    "bitmap handle refers to a freed slot (stale generation)"@,
                BitmapRegistryError::Poisoned => "bitmap registry mutex was poisoned"@,
            },
    {
        match self {
            BitmapRegistryError::OutOfRange => {
                "bitmap handle slot index is out of range (fabricated or null handle)"
            },
            BitmapRegistryError::StaleHandle => {
                "bitmap handle refers to a freed slot (stale generation)"
            },
            BitmapRegistryError::Poisoned => "bitmap registry mutex was poisoned",
        }
    }
}

/// A recorded bitmap: its size, and the encoded bytes that it was read from.
#[derive(Debug)]
pub struct BitmapState {
    pub width: i32,
    pub height: i32,
    pub bytes: Vec<u8>,
}

impl Default for BitmapState {
    fn default() -> (state: Self)
        ensures
            state.width == 0,
            state.height == 0,
            state.bytes@ == Seq::<u8>::empty(),
    {
        BitmapState { width: 0, height: 0, bytes: Vec::new() }
    }
}

/// The handle of a slot index and a generation.
pub fn pack(index: u32, generation: u32) -> (handle: BitmapHandle)
    ensures
        handle == crate::slots::handle_of(index, generation),
        crate::slots::handle_index(handle) == index,
        crate::slots::handle_generation(handle) == generation,
{
    slots::pack(index, generation)
}

/// The slot index and the generation of a handle.
pub fn unpack(handle: BitmapHandle) -> (parts: (u32, u32))
    ensures
        parts.0 == crate::slots::handle_index(handle),
        parts.1 == crate::slots::handle_generation(handle),
        crate::slots::handle_of(parts.0, parts.1) == handle,
{
    slots::unpack(handle)
}

/// Records a bitmap and returns its handle. The only failure is that no index is
/// left.
pub fn store(registry: &mut BitmapRegistry, state: BitmapState) -> (result: Result<BitmapHandle, BitmapRegistryError>)
    requires
        old(registry)@.wf(),
    ensures
        final(registry)@.wf(),
        old(registry)@.has_room() ==> result == Ok::<BitmapHandle, BitmapRegistryError>(
            old(registry)@.next_handle(),
        ) && final(registry)@ == old(registry)@.stored(state),
        !old(registry)@.has_room() ==> result == Err::<BitmapHandle, BitmapRegistryError>(
            BitmapRegistryError::OutOfRange,
        ) && final(registry)@ == old(registry)@,
{
    match registry.store(state) {
        Ok(handle) => Ok(handle),
        Err(e) => Err(BitmapRegistryError::from_slot(e)),
    }
}

/// Applies `f` to the bitmap that `handle` names.
pub fn with_bitmap<R, F: FnOnce(&mut BitmapState) -> R>(
    registry: &mut BitmapRegistry,
    handle: BitmapHandle,
    f: F,
) -> (result: Result<R, BitmapRegistryError>)
    requires
        old(registry)@.wf(),
        old(registry)@.live(handle) ==> crate::slots::applicable(
            f,
            old(registry)@.value(handle),
        ),
    ensures
        final(registry)@.wf(),
        old(registry)@.live(handle) ==> {
            let after = final(registry)@.value(handle);
            &&& result is Ok
            &&& exists|x: &mut BitmapState| #[trigger]
                f.ensures((x,), result->Ok_0) && *x == old(registry)@.value(handle) && *final(x)
                    == after
            &&& final(registry)@ == old(registry)@.updated(handle, after)
        },
        !old(registry)@.live(handle) ==> result == Err::<R, BitmapRegistryError>(
            BitmapRegistryError::of(old(registry)@.refusal(handle)),
        ) && final(registry)@ == old(registry)@,
{
    let ghost before = registry@;
    match registry.with(handle, f) {
        Ok(output) => {
            let ghost given = choose|x: &mut BitmapState| #[trigger]
                f.ensures((x,), output) && *x == before.value(handle) && *final(x)
                    == registry@.value(handle);
            let result = Ok(output);
            assert(f.ensures((given,), result->Ok_0));
            result
        },
        Err(e) => Err(BitmapRegistryError::from_slot(e)),
    }
}

/// Drops the bitmap that `handle` names.
pub fn free(registry: &mut BitmapRegistry, handle: BitmapHandle) -> (result: Result<
    (),
    BitmapRegistryError,
>)
    requires
        old(registry)@.wf(),
    ensures
        final(registry)@.wf(),
        old(registry)@.live(handle) ==> result is Ok && final(registry)@ == old(registry)@.freed(
            handle,
        ),
        !old(registry)@.live(handle) ==> result == Err::<(), BitmapRegistryError>(
            BitmapRegistryError::of(old(registry)@.refusal(handle)),
        ) && final(registry)@ == old(registry)@,
{
    match registry.free(handle) {
        Ok(()) => Ok(()),
        Err(e) => Err(BitmapRegistryError::from_slot(e)),
    }
}

/// A refusal is told by its own name.
pub proof fn law_refusal_keeps_its_name()
    ensures
        BitmapRegistryError::of(SlotError::OutOfRange) == BitmapRegistryError::OutOfRange,
        BitmapRegistryError::of(SlotError::StaleHandle) == BitmapRegistryError::StaleHandle,
{
}

} // verus!
