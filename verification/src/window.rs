//! Windows behind handles: their titles and what they show.

use vstd::prelude::*;

use crate::layout;
use crate::layout::GlobalLayoutObserver;
use crate::slots::{SlotError, SlotTable};
use crate::view_registry;
use crate::view_registry::{ViewHandle, ViewRegistry};

verus! {

/// A handle to a window.
pub type WindowHandle = i64;

/// Every window.
pub type WindowRegistry = SlotTable<WindowState>;

/// What is known of a window.
pub struct WindowState {
    pub title: String,
    /// The view that the window shows.
    pub root_view: Option<ViewHandle>,
}

/// Makes a window and returns its handle. The only failure is that no index is left.
pub fn allocate(windows: &mut WindowRegistry) -> (result: Result<WindowHandle, SlotError>)
    requires
        old(windows)@.wf(),
    ensures
        final(windows)@.wf(),
        old(windows)@.has_room() ==> result == Ok::<WindowHandle, SlotError>(
            old(windows)@.next_handle(),
        ) && exists|state: WindowState| #[trigger]
            old(windows)@.stored(state) == final(windows)@ && state.title@.len() == 0
                && state.root_view is None,
        !old(windows)@.has_room() ==> result == Err::<WindowHandle, SlotError>(
            SlotError::OutOfRange,
        ) && final(windows)@ == old(windows)@,
{
    let nothing: [char; 0] = [];
    let title = crate::text::string_of(&nothing);
    assert(title@ == nothing@);
    windows.store(WindowState { title, root_view: None })
}

/// Gives a window a title, an empty one where none is given, and returns whether
/// there is a window.
pub fn set_title(windows: &mut WindowRegistry, window: WindowHandle, title: Option<String>) -> (known:
    bool)
    requires
        old(windows)@.wf(),
    ensures
        final(windows)@.wf(),
        known == old(windows)@.live(window),
        !known ==> final(windows)@ == old(windows)@,
        known ==> ({
            let after = final(windows)@.value(window);
            &&& final(windows)@ == old(windows)@.updated(window, after)
            &&& after.root_view == old(windows)@.value(window).root_view
            &&& match title {
                Some(t) => after.title == t,
                None => after.title@.len() == 0,
            }
        }),
{
    let ghost before = windows@;
    let shown = match title {
        Some(t) => t,
        None => {
            let nothing: [char; 0] = [];
            let empty = crate::text::string_of(&nothing);
            assert(empty@ == nothing@);
            empty
        },
    };
    match windows.get_mut(window) {
        Ok(w) => {
            proof {
                crate::slots::law_updated_value_is_read_back(before, window, *final(w));
            }
            w.title = shown;
            true
        },
        Err(_) => false,
    }
}

/// Asks for another size of a window, which has the size of the host's. Whoever
/// observes layouts is to hear of one, where the window is known.
pub fn set_layout<O>(
    windows: &WindowRegistry,
    observers: &mut Vec<GlobalLayoutObserver<O>>,
    window: WindowHandle,
) -> (known: bool)
    requires
        windows@.wf(),
    ensures
        known == windows@.live(window),
        final(observers)@ == (if known {
            layout::all_pending(old(observers)@)
        } else {
            old(observers)@
        }),
{
    match windows.get(window) {
        Ok(_) => {
            layout::mark_global_layout_pending(observers);
            true
        },
        Err(_) => false,
    }
}

/// Makes a view what a window shows, or nothing where there is no such view, and
/// returns whether there is a window. The view is the content of the app either
/// way.
pub fn set_widget_as_root(
    windows: &mut WindowRegistry,
    views: &mut ViewRegistry,
    window: WindowHandle,
    widget: ViewHandle,
) -> (known: bool)
    requires
        old(windows)@.wf(),
        old(views).wf(),
    ensures
        final(windows)@.wf(),
        final(views).wf(),
        final(views).views@ == old(views).views@,
        final(views).focused == old(views).focused,
        final(views).active_root == (if old(views).views@.live(widget) {
            widget
        } else {
            0
        }),
        known == old(windows)@.live(window),
        final(windows)@ == (if known {
            old(windows)@.updated(
                window,
                (WindowState {
                    root_view: if old(views).views@.live(widget) {
                        Some(widget)
                    } else {
                        None
                    },
                    ..old(windows)@.value(window)
                }),
            )
        } else {
            old(windows)@
        }),
        known ==> (final(windows)@.value(window).root_view is Some <==> final(views).active_root
            != 0),
{
    proof {
        crate::slots::law_null_handle_is_never_live(views.views@);
    }
    let ghost before = windows@;
    let root = view_registry::set_widget_as_root(views, widget);
    match windows.get_mut(window) {
        Ok(w) => {
            proof {
                crate::slots::law_updated_value_is_read_back(before, window, *final(w));
            }
            w.root_view = root;
            true
        },
        Err(_) => false,
    }
}

} // verus!
