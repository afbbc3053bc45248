//! Paints, each a set of drawing attributes, behind handles.

use vstd::prelude::*;

use crate::slots;
use crate::slots::{SlotError, SlotTable};

verus! {

/// A handle to a paint. Zero is never the handle of one.
pub type PaintHandle = i64;

/// Every paint.
pub type PaintRegistry = SlotTable<PaintState>;

/// Why a paint could not be reached.
#[derive(Debug, Clone, Copy, PartialEq, Eq, Structural)]
pub enum PaintRegistryError {
    OutOfRange,
    StaleHandle,
    Poisoned,
}

impl PaintRegistryError {
    /// The error that a slot table reports, as this registry reports it.
    pub open spec fn of(error: SlotError) -> Self {
        match error {
            SlotError::OutOfRange => PaintRegistryError::OutOfRange,
            SlotError::StaleHandle => PaintRegistryError::StaleHandle,
        }
    }

    fn from_slot(error: SlotError) -> (e: Self)
        ensures
            e == Self::of(error),
    {
        match error {
            SlotError::OutOfRange => PaintRegistryError::OutOfRange,
            SlotError::StaleHandle => PaintRegistryError::StaleHandle,
        }
    }

    /// The message that an error is shown with.
    pub fn message(&self) -> (text: &'static str)
        ensures
            text@ == match *self {
                PaintRegistryError::OutOfRange =>
                    "paint handle slot index is out of range (fabricated or null handle)"@,
                PaintRegistryError::StaleHandle =>
                    "paint handle refers to a freed slot (stale generation)"@,
                PaintRegistryError::Poisoned => "paint registry mutex was poisoned"@,
            },
    {
        match self {
            PaintRegistryError::OutOfRange => {
                "paint handle slot index is out of range (fabricated or null handle)"
            },
            PaintRegistryError::StaleHandle => {
                "paint handle refers to a freed slot (stale generation)"
            },
            PaintRegistryError::Poisoned => "paint registry mutex was poisoned",
        }
    }
}

/// Whether a shape's interior, its outline or both are drawn.
#[derive(Debug, Clone, Copy, PartialEq, Eq, Structural)]
pub enum PaintStyle {
    Fill,
    Stroke,
    FillAndStroke,
}

impl Default for PaintStyle {
    fn default() -> (value: Self)
        ensures
            value == PaintStyle::Fill,
    {
        PaintStyle::Fill
    }
}

impl PaintStyle {
    /// The position of the value in its Java enum.
    pub open spec fn spec_ordinal(self) -> i32 {
        match self {
            PaintStyle::Fill => 0,
            PaintStyle::Stroke => 1,
            PaintStyle::FillAndStroke => 2,
        }
    }

    /// The value at a position, `Fill` where there is none.
    pub fn from_ordinal(ordinal: i32) -> (value: Self)
        ensures
            0 <= ordinal <= 2 ==> value.spec_ordinal() == ordinal,
            ordinal == 0 ==> value == PaintStyle::Fill,
            ordinal == 1 ==> value == PaintStyle::Stroke,
            ordinal == 2 ==> value == PaintStyle::FillAndStroke,
            !(0 <= ordinal <= 2) ==> value == PaintStyle::Fill,
    {
        match ordinal {
            1 => PaintStyle::Stroke,
            2 => PaintStyle::FillAndStroke,
            _ => PaintStyle::Fill,
        }
    }

    /// The position of the value in its Java enum.
    pub fn ordinal(self) -> (ordinal: i32)
        ensures
            ordinal == self.spec_ordinal(),
            self == PaintStyle::Fill ==> ordinal == 0,
            self == PaintStyle::Stroke ==> ordinal == 1,
            self == PaintStyle::FillAndStroke ==> ordinal == 2,
            0 <= ordinal <= 2,
    {
        match self {
            PaintStyle::Fill => 0,
            PaintStyle::Stroke => 1,
            PaintStyle::FillAndStroke => 2,
        }
    }
}

/// How the ends of a stroke are drawn.
#[derive(Debug, Clone, Copy, PartialEq, Eq, Structural)]
pub enum StrokeCap {
    Butt,
    Round,
    Square,
}

impl Default for StrokeCap {
    fn default() -> (value: Self)
        ensures
            value == StrokeCap::Butt,
    {
        StrokeCap::Butt
    }
}

impl StrokeCap {
    /// The position of the value in its Java enum.
    pub open spec fn spec_ordinal(self) -> i32 {
        match self {
            StrokeCap::Butt => 0,
            StrokeCap::Round => 1,
            StrokeCap::Square => 2,
        }
    }

    /// The value at a position, `Butt` where there is none.
    pub fn from_ordinal(ordinal: i32) -> (value: Self)
        ensures
            0 <= ordinal <= 2 ==> value.spec_ordinal() == ordinal,
            ordinal == 0 ==> value == StrokeCap::Butt,
            ordinal == 1 ==> value == StrokeCap::Round,
            ordinal == 2 ==> value == StrokeCap::Square,
            !(0 <= ordinal <= 2) ==> value == StrokeCap::Butt,
    {
        match ordinal {
            1 => StrokeCap::Round,
            2 => StrokeCap::Square,
            _ => StrokeCap::Butt,
        }
    }

    /// The position of the value in its Java enum.
    pub fn ordinal(self) -> (ordinal: i32)
        ensures
            ordinal == self.spec_ordinal(),
            self == StrokeCap::Butt ==> ordinal == 0,
            self == StrokeCap::Round ==> ordinal == 1,
            self == StrokeCap::Square ==> ordinal == 2,
            0 <= ordinal <= 2,
    {
        match self {
            StrokeCap::Butt => 0,
            StrokeCap::Round => 1,
            StrokeCap::Square => 2,
        }
    }
}

/// How the corners of a stroke are drawn.
#[derive(Debug, Clone, Copy, PartialEq, Eq, Structural)]
pub enum StrokeJoin {
    Miter,
    Round,
    Bevel,
}

impl Default for StrokeJoin {
    fn default() -> (value: Self)
        ensures
            value == StrokeJoin::Miter,
    {
        StrokeJoin::Miter
    }
}

impl StrokeJoin {
    /// The position of the value in its Java enum.
    pub open spec fn spec_ordinal(self) -> i32 {
        match self {
            StrokeJoin::Miter => 0,
            StrokeJoin::Round => 1,
            StrokeJoin::Bevel => 2,
        }
    }

    /// The value at a position, `Miter` where there is none.
    pub fn from_ordinal(ordinal: i32) -> (value: Self)
        ensures
            0 <= ordinal <= 2 ==> value.spec_ordinal() == ordinal,
            ordinal == 0 ==> value == StrokeJoin::Miter,
            ordinal == 1 ==> value == StrokeJoin::Round,
            ordinal == 2 ==> value == StrokeJoin::Bevel,
            !(0 <= ordinal <= 2) ==> value == StrokeJoin::Miter,
    {
        match ordinal {
            1 => StrokeJoin::Round,
            2 => StrokeJoin::Bevel,
            _ => StrokeJoin::Miter,
        }
    }

    /// The position of the value in its Java enum.
    pub fn ordinal(self) -> (ordinal: i32)
        ensures
            ordinal == self.spec_ordinal(),
            self == StrokeJoin::Miter ==> ordinal == 0,
            self == StrokeJoin::Round ==> ordinal == 1,
            self == StrokeJoin::Bevel ==> ordinal == 2,
            0 <= ordinal <= 2,
    {
        match self {
            StrokeJoin::Miter => 0,
            StrokeJoin::Round => 1,
            StrokeJoin::Bevel => 2,
        }
    }
}

/// Opaque black, as an ARGB color.
pub const OPAQUE_BLACK: i32 = -0x0100_0000;

/// The attributes of a paint. The two sizes are held as the bits of the
/// single-precision numbers that they stand for.
#[derive(Debug, Clone, Copy, PartialEq, Eq, Structural)]
pub struct PaintState {
    pub color: i32,
    pub text_size_bits: u32,
    pub stroke_width_bits: u32,
    pub style: PaintStyle,
    pub stroke_cap: StrokeCap,
    pub stroke_join: StrokeJoin,
}

impl PaintState {
    /// The attributes of a new paint: opaque black, filling, all sizes zero.
    pub open spec fn fresh() -> Self {
        PaintState {
            color: OPAQUE_BLACK,
            text_size_bits: 0,
            stroke_width_bits: 0,
            style: PaintStyle::Fill,
            stroke_cap: StrokeCap::Butt,
            stroke_join: StrokeJoin::Miter,
        }
    }
}

impl Default for PaintState {
    fn default() -> (state: Self)
        ensures
            state == PaintState::fresh(),
    {
        PaintState {
            color: OPAQUE_BLACK,
            text_size_bits: 0,
            stroke_width_bits: 0,
            style: PaintStyle::Fill,
            stroke_cap: StrokeCap::Butt,
            stroke_join: StrokeJoin::Miter,
        }
    }
}

/// The handle of a slot index and a generation.
pub fn pack(index: u32, generation: u32) -> (handle: PaintHandle)
    ensures
        handle == crate::slots::handle_of(index, generation),
        crate::slots::handle_index(handle) == index,
        crate::slots::handle_generation(handle) == generation,
{
    slots::pack(index, generation)
}

/// The slot index and the generation of a handle.
pub fn unpack(handle: PaintHandle) -> (parts: (u32, u32))
    ensures
        parts.0 == crate::slots::handle_index(handle),
        parts.1 == crate::slots::handle_generation(handle),
        crate::slots::handle_of(parts.0, parts.1) == handle,
{
    slots::unpack(handle)
}

/// Stores a paint with the given attributes.
fn allocate_state(registry: &mut PaintRegistry, state: PaintState) -> (result: Result<PaintHandle, PaintRegistryError>)
    requires
        old(registry)@.wf(),
    ensures
        final(registry)@.wf(),
        old(registry)@.has_room() ==> result == Ok::<PaintHandle, PaintRegistryError>(
            old(registry)@.next_handle(),
        ) && final(registry)@ == old(registry)@.stored(state),
        !old(registry)@.has_room() ==> result == Err::<PaintHandle, PaintRegistryError>(
            PaintRegistryError::OutOfRange,
        ) && final(registry)@ == old(registry)@,
{
    match registry.store(state) {
        Ok(handle) => Ok(handle),
        Err(e) => Err(PaintRegistryError::from_slot(e)),
    }
}

/// Makes a paint with the attributes of a new one. The only failure is that no
/// index is left.
pub fn allocate(registry: &mut PaintRegistry) -> (result: Result<PaintHandle, PaintRegistryError>)
    requires
        old(registry)@.wf(),
    ensures
        final(registry)@.wf(),
        old(registry)@.has_room() ==> result == Ok::<PaintHandle, PaintRegistryError>(
            old(registry)@.next_handle(),
        ) && final(registry)@ == old(registry)@.stored(PaintState::fresh()),
        !old(registry)@.has_room() ==> result == Err::<PaintHandle, PaintRegistryError>(
            PaintRegistryError::OutOfRange,
        ) && final(registry)@ == old(registry)@,
{
    match registry.store(PaintState::default()) {
        Ok(handle) => Ok(handle),
        Err(e) => Err(PaintRegistryError::from_slot(e)),
    }
}

/// Makes a paint with the present attributes of another one.
pub fn clone_of(registry: &mut PaintRegistry, source: PaintHandle) -> (result: Result<
    PaintHandle,
    PaintRegistryError,
>)
    requires
        old(registry)@.wf(),
    ensures
        final(registry)@.wf(),
        !old(registry)@.live(source) ==> result == Err::<PaintHandle, PaintRegistryError>(
            PaintRegistryError::of(old(registry)@.refusal(source)),
        ) && final(registry)@ == old(registry)@,
        old(registry)@.live(source) && old(registry)@.has_room() ==> result == Ok::<
            PaintHandle,
            PaintRegistryError,
        >(old(registry)@.next_handle()) && final(registry)@ == old(registry)@.stored(
            old(registry)@.value(source),
        ),
        old(registry)@.live(source) && !old(registry)@.has_room() ==> result == Err::<
            PaintHandle,
            PaintRegistryError,
        >(PaintRegistryError::OutOfRange) && final(registry)@ == old(registry)@,
{
    let state: PaintState = match registry.get(source) {
        Ok(state) => *state,
        Err(e) => {
            return Err(PaintRegistryError::from_slot(e));
        },
    };
    allocate_state(registry, state)
}

/// Applies `f` to the paint that `handle` names.
pub fn with_paint<R, F: FnOnce(&mut PaintState) -> R>(
    registry: &mut PaintRegistry,
    handle: PaintHandle,
    f: F,
) -> (result: Result<R, PaintRegistryError>)
    requires
        old(registry)@.wf(),
        old(registry)@.live(handle) ==> crate::slots::applicable(
            f,
            old(registry)@.value(handle),
        ),
    ensures
        final(registry)@.wf(),
        old(registry)@.live(handle) ==> {
            let after = final(registry)@.value(handle);
            &&& result is Ok
            &&& exists|x: &mut PaintState| #[trigger]
                f.ensures((x,), result->Ok_0) && *x == old(registry)@.value(handle) && *final(x)
                    == after
            &&& final(registry)@ == old(registry)@.updated(handle, after)
        },
        !old(registry)@.live(handle) ==> result == Err::<R, PaintRegistryError>(
            PaintRegistryError::of(old(registry)@.refusal(handle)),
        ) && final(registry)@ == old(registry)@,
{
    let ghost before = registry@;
    match registry.with(handle, f) {
        Ok(output) => {
            let ghost given = choose|x: &mut PaintState| #[trigger]
                f.ensures((x,), output) && *x == before.value(handle) && *final(x)
                    == registry@.value(handle);
            let result = Ok(output);
            assert(f.ensures((given,), result->Ok_0));
            result
        },
        Err(e) => Err(PaintRegistryError::from_slot(e)),
    }
}

/// Drops the paint that `handle` names.
pub fn free(registry: &mut PaintRegistry, handle: PaintHandle) -> (result: Result<
    (),
    PaintRegistryError,
>)
    requires
        old(registry)@.wf(),
    ensures
        final(registry)@.wf(),
        old(registry)@.live(handle) ==> result is Ok && final(registry)@ == old(registry)@.freed(
            handle,
        ),
        !old(registry)@.live(handle) ==> result == Err::<(), PaintRegistryError>(
            PaintRegistryError::of(old(registry)@.refusal(handle)),
        ) && final(registry)@ == old(registry)@,
{
    match registry.free(handle) {
        Ok(()) => Ok(()),
        Err(e) => Err(PaintRegistryError::from_slot(e)),
    }
}

/// A style, a cap and a join are known again from their positions.
pub proof fn law_ordinals_name_their_values(
    style: PaintStyle,
    other_style: PaintStyle,
    cap: StrokeCap,
    other_cap: StrokeCap,
    join: StrokeJoin,
    other_join: StrokeJoin,
)
    ensures
        style.spec_ordinal() == other_style.spec_ordinal() ==> style == other_style,
        cap.spec_ordinal() == other_cap.spec_ordinal() ==> cap == other_cap,
        join.spec_ordinal() == other_join.spec_ordinal() ==> join == other_join,
{
}

/// A clone is a copy and no alias. It starts with the attributes of its
/// source, and whatever one of the two is changed to afterwards, the other keeps
/// them.
pub proof fn law_clone_is_independent(
    table: crate::slots::Slots<PaintState>,
    source: PaintHandle,
    changed: PaintState,
)
    requires
        table.wf(),
        table.live(source),
        table.has_room(),
    ensures
        ({
            let clone = table.next_handle();
            let after = table.stored(table.value(source));
            &&& clone != source
            &&& after.live(source)
            &&& after.value(source) == table.value(source)
            &&& after.value(clone) == table.value(source)
            &&& after.updated(source, changed).live(clone)
            &&& after.updated(source, changed).value(clone) == table.value(source)
            &&& after.updated(clone, changed).live(source)
            &&& after.updated(clone, changed).value(source) == table.value(source)
        }),
{
    slots::law_stored_value_is_read_back(table, table.value(source));
    let after = table.stored(table.value(source));
    slots::law_live_handles_do_not_share_a_slot(after, source, table.next_handle());
    slots::law_live_handles_do_not_share_a_slot(after, table.next_handle(), source);
}

/// A fresh paint is opaque black and fills, with plain ends and corners and no widths, and
/// the values of each attribute are counted in their order.
pub proof fn law_fresh_paint_is_plain()
    ensures
        PaintState::fresh().color == -0x100_0000,
        PaintState::fresh().text_size_bits == 0,
        PaintState::fresh().stroke_width_bits == 0,
        PaintState::fresh().style == PaintStyle::Fill,
        PaintState::fresh().stroke_cap == StrokeCap::Butt,
        PaintState::fresh().stroke_join == StrokeJoin::Miter,
        PaintStyle::Fill.spec_ordinal() == 0,
        PaintStyle::Stroke.spec_ordinal() == 1,
        PaintStyle::FillAndStroke.spec_ordinal() == 2,
        StrokeCap::Butt.spec_ordinal() == 0,
        StrokeCap::Round.spec_ordinal() == 1,
        StrokeCap::Square.spec_ordinal() == 2,
        StrokeJoin::Miter.spec_ordinal() == 0,
        StrokeJoin::Round.spec_ordinal() == 1,
        StrokeJoin::Bevel.spec_ordinal() == 2,
{
}

/// A refusal is told by its own name.
pub proof fn law_refusal_keeps_its_name()
    ensures
        PaintRegistryError::of(SlotError::OutOfRange) == PaintRegistryError::OutOfRange,
        PaintRegistryError::of(SlotError::StaleHandle) == PaintRegistryError::StaleHandle,
{
}

} // verus!
