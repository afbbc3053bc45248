//! What an app does to paints: an operation on a handle that is not live changes
//! nothing, and reads what a new paint has.

use vstd::prelude::*;

use crate::canvas_registry::PaintConfig;
use crate::paint_registry;
use crate::paint_registry::{PaintHandle, PaintRegistry, PaintState, PaintStyle, StrokeCap, StrokeJoin};
use crate::resources;

verus! {

/// How many colors there are for one alpha.
pub const ALPHA_UNIT: u32 = 0x0100_0000;

/// The alpha of a color.
pub open spec fn alpha_of(color: i32) -> int {
    (resources::unsigned(color) / ALPHA_UNIT) as int
}

/// A color with another alpha, of which only the lowest eight bits count.
pub open spec fn with_alpha(color: i32, alpha: i32) -> i32 {
    resources::signed(
        (resources::unsigned(color) % ALPHA_UNIT + (resources::unsigned(alpha) % 256) * ALPHA_UNIT) as u32,
    )
}

/// A color with another alpha.
pub fn paint_color_with_alpha(color: i32, alpha: i32) -> (result: i32)
    ensures
        result == with_alpha(color, alpha),
        (result - color) % 0x100_0000 == 0,
        ({
            let value = if result >= 0 {
                result as int
            } else {
                result + 0x1_0000_0000
            };
            value / 0x100_0000 == alpha as int % 256
        }),
{
    let rgb: u32 = resources::i32_to_u32(color) % ALPHA_UNIT;
    let a: u32 = resources::i32_to_u32(alpha) % 256;
    resources::u32_to_i32(rgb + a * ALPHA_UNIT)
}

/// The attributes that an app reads: those of the paint, or of a new one where the
/// handle is not live.
pub open spec fn state_of(registry: PaintRegistry, handle: PaintHandle) -> PaintState {
    if registry@.live(handle) {
        registry@.value(handle)
    } else {
        PaintState::fresh()
    }
}

/// Whether the paint of a handle, where it is live, has other attributes, and
/// nothing else changed.
pub open spec fn paint_set(
    before: PaintRegistry,
    after: PaintRegistry,
    handle: PaintHandle,
    state: PaintState,
) -> bool {
    &&& after@.wf()
    &&& after@ == (if before@.live(handle) {
        before@.updated(handle, state)
    } else {
        before@
    })
}

fn read(registry: &PaintRegistry, handle: PaintHandle) -> (state: PaintState)
    requires
        registry@.wf(),
    ensures
        state == state_of(*registry, handle),
{
    match registry.get(handle) {
        Ok(state) => *state,
        Err(_) => PaintState::default(),
    }
}

fn write(registry: &mut PaintRegistry, handle: PaintHandle, state: PaintState) -> (known: bool)
    requires
        old(registry)@.wf(),
    ensures
        known == old(registry)@.live(handle),
        paint_set(*old(registry), *final(registry), handle, state),
{
    match registry.get_mut(handle) {
        Ok(paint) => {
            *paint = state;
            true
        },
        Err(_) => false,
    }
}

/// Makes a paint and returns its handle, zero where no index is left.
pub fn create(registry: &mut PaintRegistry) -> (handle: PaintHandle)
    requires
        old(registry)@.wf(),
    ensures
        final(registry)@.wf(),
        old(registry)@.has_room() ==> handle == old(registry)@.next_handle() && final(registry)@
            == old(registry)@.stored(PaintState::fresh()),
        !old(registry)@.has_room() ==> handle == 0 && final(registry)@ == old(registry)@,
{
    match paint_registry::allocate(registry) {
        Ok(handle) => handle,
        Err(_) => 0,
    }
}

/// Makes a paint like another one and returns its handle, zero where no index is
/// left. Where the other one is not live it is like a new one.
pub fn clone_paint(registry: &mut PaintRegistry, src: PaintHandle) -> (handle: PaintHandle)
    requires
        old(registry)@.wf(),
    ensures
        final(registry)@.wf(),
        old(registry)@.has_room() ==> handle == old(registry)@.next_handle() && final(registry)@
            == old(registry)@.stored(state_of(*old(registry), src)),
        !old(registry)@.has_room() ==> handle == 0 && final(registry)@ == old(registry)@,
{
    match paint_registry::clone_of(registry, src) {
        Ok(handle) => handle,
        Err(_) => create(registry),
    }
}

/// Ends a paint and returns whether there was one.
pub fn recycle(registry: &mut PaintRegistry, handle: PaintHandle) -> (known: bool)
    requires
        old(registry)@.wf(),
    ensures
        final(registry)@.wf(),
        known == old(registry)@.live(handle),
        final(registry)@ == (if known {
            old(registry)@.freed(handle)
        } else {
            old(registry)@
        }),
{
    if handle == 0 {
        proof {
            crate::slots::law_null_handle_is_never_live(registry@);
        }
        return false;
    }
    match paint_registry::free(registry, handle) {
        Ok(()) => true,
        Err(_) => false,
    }
}

/// Gives a paint a color and returns whether there is one.
pub fn set_color(registry: &mut PaintRegistry, handle: PaintHandle, color: i32) -> (known: bool)
    requires
        old(registry)@.wf(),
    ensures
        known == old(registry)@.live(handle),
        paint_set(
            *old(registry),
            *final(registry),
            handle,
            (PaintState { color: color, ..state_of(*old(registry), handle) }),
        ),
{
    let mut state: PaintState = read(registry, handle);
    state.color = color;
    write(registry, handle, state)
}

/// Gives a paint the width of its strokes and returns whether there is one.
pub fn set_stroke_width(registry: &mut PaintRegistry, handle: PaintHandle, width_bits: u32) -> (known: bool)
    requires
        old(registry)@.wf(),
    ensures
        known == old(registry)@.live(handle),
        paint_set(
            *old(registry),
            *final(registry),
            handle,
            (PaintState { stroke_width_bits: width_bits, ..state_of(*old(registry), handle) }),
        ),
{
    let mut state: PaintState = read(registry, handle);
    state.stroke_width_bits = width_bits;
    write(registry, handle, state)
}

/// Gives a paint the size of its text and returns whether there is one.
pub fn set_text_size(registry: &mut PaintRegistry, handle: PaintHandle, size_bits: u32) -> (known: bool)
    requires
        old(registry)@.wf(),
    ensures
        known == old(registry)@.live(handle),
        paint_set(
            *old(registry),
            *final(registry),
            handle,
            (PaintState { text_size_bits: size_bits, ..state_of(*old(registry), handle) }),
        ),
{
    let mut state: PaintState = read(registry, handle);
    state.text_size_bits = size_bits;
    write(registry, handle, state)
}

/// Gives the color of a paint an alpha and returns whether there is one.
pub fn set_alpha(registry: &mut PaintRegistry, handle: PaintHandle, alpha: i32) -> (known: bool)
    requires
        old(registry)@.wf(),
    ensures
        known == old(registry)@.live(handle),
        paint_set(
            *old(registry),
            *final(registry),
            handle,
            (PaintState { color: with_alpha(state_of(*old(registry), handle).color, alpha), ..state_of(*old(registry), handle) }),
        ),
{
    let mut state: PaintState = read(registry, handle);
    state.color = paint_color_with_alpha(state.color, alpha);
    write(registry, handle, state)
}

/// Gives a paint the style at a position of its Java enum and returns whether
/// there is a paint.
pub fn set_style(registry: &mut PaintRegistry, handle: PaintHandle, ordinal: i32) -> (known: bool)
    requires
        old(registry)@.wf(),
    ensures
        known == old(registry)@.live(handle),
        exists|value: PaintStyle|
            {
                &&& #[trigger] value.spec_ordinal() == (if 0 <= ordinal <= 2 {
                    ordinal as int
                } else {
                    0
                })
                &&& paint_set(
                    *old(registry),
                    *final(registry),
                    handle,
                    (PaintState { style: value, ..state_of(*old(registry), handle) }),
                )
            },
{
    let mut state: PaintState = read(registry, handle);
    let value: PaintStyle = PaintStyle::from_ordinal(ordinal);
    assert(value.spec_ordinal() == if 0 <= ordinal <= 2 {
        ordinal as int
    } else {
        0
    });
    state.style = value;
    write(registry, handle, state)
}

/// Gives a paint the cap of strokes at a position of its Java enum and returns whether
/// there is a paint.
pub fn set_stroke_cap(registry: &mut PaintRegistry, handle: PaintHandle, ordinal: i32) -> (known: bool)
    requires
        old(registry)@.wf(),
    ensures
        known == old(registry)@.live(handle),
        exists|value: StrokeCap|
            {
                &&& #[trigger] value.spec_ordinal() == (if 0 <= ordinal <= 2 {
                    ordinal as int
                } else {
                    0
                })
                &&& paint_set(
                    *old(registry),
                    *final(registry),
                    handle,
                    (PaintState { stroke_cap: value, ..state_of(*old(registry), handle) }),
                )
            },
{
    let mut state: PaintState = read(registry, handle);
    let value: StrokeCap = StrokeCap::from_ordinal(ordinal);
    assert(value.spec_ordinal() == if 0 <= ordinal <= 2 {
        ordinal as int
    } else {
        0
    });
    state.stroke_cap = value;
    write(registry, handle, state)
}

/// Gives a paint the join of strokes at a position of its Java enum and returns whether
/// there is a paint.
pub fn set_stroke_join(registry: &mut PaintRegistry, handle: PaintHandle, ordinal: i32) -> (known: bool)
    requires
        old(registry)@.wf(),
    ensures
        known == old(registry)@.live(handle),
        exists|value: StrokeJoin|
            {
                &&& #[trigger] value.spec_ordinal() == (if 0 <= ordinal <= 2 {
                    ordinal as int
                } else {
                    0
                })
                &&& paint_set(
                    *old(registry),
                    *final(registry),
                    handle,
                    (PaintState { stroke_join: value, ..state_of(*old(registry), handle) }),
                )
            },
{
    let mut state: PaintState = read(registry, handle);
    let value: StrokeJoin = StrokeJoin::from_ordinal(ordinal);
    assert(value.spec_ordinal() == if 0 <= ordinal <= 2 {
        ordinal as int
    } else {
        0
    });
    state.stroke_join = value;
    write(registry, handle, state)
}

/// The color of a paint.
pub fn get_color(registry: &PaintRegistry, handle: PaintHandle) -> (value: i32)
    requires
        registry@.wf(),
    ensures
        value == state_of(*registry, handle).color,
{
    let state: PaintState = read(registry, handle);
    state.color
}

/// The width of the strokes of a paint.
pub fn get_stroke_width(registry: &PaintRegistry, handle: PaintHandle) -> (value: u32)
    requires
        registry@.wf(),
    ensures
        value == state_of(*registry, handle).stroke_width_bits,
{
    let state: PaintState = read(registry, handle);
    state.stroke_width_bits
}

/// The size of the text of a paint.
pub fn get_text_size(registry: &PaintRegistry, handle: PaintHandle) -> (value: u32)
    requires
        registry@.wf(),
    ensures
        value == state_of(*registry, handle).text_size_bits,
{
    let state: PaintState = read(registry, handle);
    state.text_size_bits
}

/// The position of the style of a paint in its Java enum.
pub fn get_style(registry: &PaintRegistry, handle: PaintHandle) -> (value: i32)
    requires
        registry@.wf(),
    ensures
        value == state_of(*registry, handle).style.spec_ordinal(),
{
    let state: PaintState = read(registry, handle);
    state.style.ordinal()
}

/// The position of the cap of the strokes of a paint in its Java enum.
pub fn get_stroke_cap(registry: &PaintRegistry, handle: PaintHandle) -> (value: i32)
    requires
        registry@.wf(),
    ensures
        value == state_of(*registry, handle).stroke_cap.spec_ordinal(),
{
    let state: PaintState = read(registry, handle);
    state.stroke_cap.ordinal()
}

/// The position of the join of the strokes of a paint in its Java enum.
pub fn get_stroke_join(registry: &PaintRegistry, handle: PaintHandle) -> (value: i32)
    requires
        registry@.wf(),
    ensures
        value == state_of(*registry, handle).stroke_join.spec_ordinal(),
{
    let state: PaintState = read(registry, handle);
    state.stroke_join.ordinal()
}

/// The alpha of a paint.
pub fn get_alpha(registry: &PaintRegistry, handle: PaintHandle) -> (value: i32)
    requires
        registry@.wf(),
    ensures
        value == alpha_of(state_of(*registry, handle).color),
{
    let state: PaintState = read(registry, handle);
    (resources::i32_to_u32(state.color) / ALPHA_UNIT) as i32
}

/// How a canvas draws with a paint. Where the handle is not live it fills with
/// opaque black.
pub open spec fn config_of(state: PaintState) -> PaintConfig {
    PaintConfig {
        argb: state.color,
        style: state.style,
        stroke_width_bits: state.stroke_width_bits,
        even_odd: false,
    }
}

/// How a canvas draws with a paint.
pub fn paint_config_from_handle(registry: &PaintRegistry, paint: PaintHandle) -> (config:
    PaintConfig)
    requires
        registry@.wf(),
    ensures
        config == config_of(state_of(*registry, paint)),
        config.argb == state_of(*registry, paint).color,
        config.style == state_of(*registry, paint).style,
        config.stroke_width_bits == state_of(*registry, paint).stroke_width_bits,
        !config.even_odd,
        !registry@.live(paint) ==> config == PaintConfig::plain(),
{
    let state: PaintState = read(registry, paint);
    PaintConfig {
        argb: state.color,
        style: state.style,
        stroke_width_bits: state.stroke_width_bits,
        even_odd: false,
    }
}

/// An alpha that a color was given is the color's alpha, and the rest of the color
/// is as it was.
pub proof fn law_alpha_is_read_back(color: i32, alpha: i32)
    ensures
        alpha_of(with_alpha(color, alpha)) == resources::unsigned(alpha) % 256,
        resources::unsigned(with_alpha(color, alpha)) % ALPHA_UNIT == resources::unsigned(color)
            % ALPHA_UNIT,
        with_alpha(with_alpha(color, alpha), alpha) == with_alpha(color, alpha),
{
    let rgb = resources::unsigned(color) % ALPHA_UNIT;
    let a = resources::unsigned(alpha) % 256;
    resources::law_ids_keep_their_bits((rgb + a * ALPHA_UNIT) as u32, color);
}

/// What a paint was given is what is read from it.
pub proof fn law_paint_is_read_back(
    before: PaintRegistry,
    after: PaintRegistry,
    handle: PaintHandle,
    state: PaintState,
)
    requires
        before@.wf(),
        before@.live(handle),
        paint_set(before, after, handle, state),
    ensures
        state_of(after, handle) == state,
        after@.live(handle),
        forall|other: PaintHandle|
            other != handle ==> #[trigger] state_of(after, other) == state_of(before, other),
{
    crate::slots::law_updated_value_is_read_back(before@, handle, state);
    assert forall|other: PaintHandle| other != handle implies #[trigger] state_of(after, other)
        == state_of(before, other) by {
        crate::slots::lemma_handle_is_its_parts(handle);
        crate::slots::lemma_handle_is_its_parts(other);
    }
}

/// A paint is read as it is, and a handle without one reads like a fresh paint; writing to
/// such a handle changes nothing.
pub proof fn law_handle_without_a_paint_reads_fresh(
    before: PaintRegistry,
    after: PaintRegistry,
    handle: PaintHandle,
    state: PaintState,
)
    requires
        paint_set(before, after, handle, state),
    ensures
        before@.live(handle) ==> state_of(before, handle) == before@.value(handle),
        !before@.live(handle) ==> state_of(before, handle) == PaintState::fresh() && after@
            == before@,
{
}

/// The alpha of a color is its highest byte.
pub proof fn law_alpha_is_the_highest_byte(alpha: u8, rest: u32, color: i32)
    requires
        rest < 0x100_0000,
        color == alpha * 0x100_0000 + rest || color == alpha * 0x100_0000 + rest - 0x1_0000_0000,
    ensures
        alpha_of(color) == alpha,
{
}

} // verus!
