//! Drawing views: each into a canvas of its own, which goes again where nothing was
//! drawn.

use vstd::prelude::*;

use crate::canvas_registry;
use crate::canvas_registry::{CanvasHandle, CanvasRegistry, CanvasState, Surface};
use crate::view_registry::ViewHandle;

verus! {

/// A view that is to be drawn, and its size.
#[derive(Debug, Clone, Copy, PartialEq, Eq, Structural)]
pub struct DrawTarget {
    pub handle: ViewHandle,
    pub width: u32,
    pub height: u32,
}

/// A view that was drawn, and the canvas that shows it.
#[derive(Debug, Clone, Copy, PartialEq, Eq, Structural)]
pub struct DrawnCanvas {
    pub view: ViewHandle,
    pub canvas: CanvasHandle,
}

/// Whether apps can draw into canvases: the native methods for it could be bound.
pub struct DrawSupport {
    pub bound: bool,
}

/// Whether apps can draw into canvases.
pub fn canvas_draw_supported(support: &DrawSupport) -> (b: bool)
    ensures
        b == support.bound,
{
    support.bound
}

/// Notes whether the native methods for drawing could be bound.
pub fn set_canvas_draw_supported(support: &mut DrawSupport, bound: bool)
    ensures
        final(support).bound == bound,
{
    support.bound = bound;
}

/// Whether anything is drawn: there are views to draw, and apps can draw.
pub fn draws_anything(support: &DrawSupport, targets: &[DrawTarget]) -> (b: bool)
    ensures
        b == (targets@.len() > 0 && support.bound),
{
    targets.len() > 0 && support.bound
}

/// Makes the canvas for a view. There is none where the size is none of a canvas or
/// no index is left, and the view is not drawn.
pub fn begin_draw(canvases: &mut CanvasRegistry, target: DrawTarget) -> (canvas: Option<
    CanvasHandle,
>)
    requires
        old(canvases)@.wf(),
    ensures
        final(canvases)@.wf(),
        if canvas_registry::good_dimensions(target.width, target.height) && old(
            canvases,
        )@.has_room() {
            &&& canvas == Some(old(canvases)@.next_handle())
            &&& exists|state: CanvasState|
                state@ == Surface::blank(target.width, target.height) && #[trigger] old(
                    canvases,
                )@.stored(state) == final(canvases)@
        } else {
            canvas is None && final(canvases)@ == old(canvases)@
        },
{
    match canvas_registry::allocate(canvases, target.width, target.height) {
        Ok(handle) => Some(handle),
        Err(_) => None,
    }
}

/// Notes what became of a view that was to be drawn into a canvas: the canvas shows
/// it, or goes.
pub fn finish_draw(
    canvases: &mut CanvasRegistry,
    drawn: &mut Vec<DrawnCanvas>,
    target: DrawTarget,
    canvas: CanvasHandle,
    succeeded: bool,
)
    requires
        old(canvases)@.wf(),
    ensures
        final(canvases)@.wf(),
        succeeded ==> final(drawn)@ == old(drawn)@.push(
            (DrawnCanvas { view: target.handle, canvas }),
        ) && final(canvases)@ == old(canvases)@,
        !succeeded ==> final(drawn)@ == old(drawn)@ && final(canvases)@ == (if old(
            canvases,
        )@.live(canvas) {
            old(canvases)@.freed(canvas)
        } else {
            old(canvases)@
        }),
{
    if succeeded {
        drawn.push(DrawnCanvas { view: target.handle, canvas });
    } else {
        match canvas_registry::free(canvases, canvas) {
            Ok(()) => {},
            Err(_) => {},
        }
    }
}

/// A view that could not be drawn leaves no canvas behind: the one made for it is
/// not live any more, and all others are as they were.
pub proof fn law_failed_draw_leaves_no_canvas(
    canvases: crate::slots::Slots<CanvasState>,
    state: CanvasState,
)
    requires
        canvases.wf(),
        canvases.has_room(),
    ensures
        ({
            let canvas = canvases.next_handle();
            let after = canvases.stored(state).freed(canvas);
            &&& canvases.stored(state).live(canvas)
            &&& !after.live(canvas)
            &&& forall|other: i64| #[trigger] after.live(other) == canvases.live(other)
            &&& forall|other: i64| #[trigger]
                canvases.live(other) ==> after.value(other) == canvases.value(other)
        }),
{
    let canvas = canvases.next_handle();
    let shown = canvases.stored(state);
    crate::slots::law_stored_value_is_read_back(canvases, state);
    crate::slots::law_freed_handle_is_stale(shown, canvas);
    assert forall|other: i64| canvases.live(other) implies #[trigger] shown.freed(canvas).live(
        other,
    ) && shown.freed(canvas).value(other) == canvases.value(other) by {
        crate::slots::law_live_handles_do_not_share_a_slot(shown, canvas, other);
    }
    assert forall|other: i64| #[trigger] shown.freed(canvas).live(other) implies canvases.live(
        other,
    ) by {
        assert(shown.live(other));
    }
}

} // verus!
