//! The view tree: what is known of every view, behind handles.

use vstd::prelude::*;

use crate::slots::{SlotError, SlotTable, Slots};
use crate::text;

verus! {

/// A handle to a view. Zero is never the handle of one.
pub type ViewHandle = i64;

/// What the layout of a view was asked to be. The weight is held as the bits of a
/// single-precision number.
#[derive(Debug, Clone, Copy)]
pub struct LayoutParams {
    pub width: i32,
    pub height: i32,
    pub gravity: i32,
    pub weight_bits: u32,
    pub margins: [i32; 4],
    pub padding: [i32; 4],
}

impl LayoutParams {
    /// The layout of a view that nothing was asked of.
    pub open spec fn unset() -> Self {
        LayoutParams {
            width: 0,
            height: 0,
            gravity: 0,
            weight_bits: 0,
            margins: [0, 0, 0, 0],
            padding: [0, 0, 0, 0],
        }
    }
}

/// What is known of a view.
#[derive(Debug)]
pub struct ViewState {
    pub class_name: String,
    pub text: Option<String>,
    pub children: Vec<ViewHandle>,
    /// The left, top, right and bottom edge that the view was laid out to.
    pub frame: Option<[i32; 4]>,
    pub layout: LayoutParams,
    pub background_color: Option<i32>,
    pub clickable: bool,
}

impl ViewState {
    /// A view of a class that nothing was done to.
    pub fn new(class_name: String) -> (state: Self)
        ensures
            state.class_name == class_name,
            state.text is None,
            state.children@ == Seq::<ViewHandle>::empty(),
            state.frame is None,
            state.layout == LayoutParams::unset(),
            state.background_color is None,
            !state.clickable,
            state.layout.width == 0 && state.layout.height == 0 && state.layout.gravity == 0,
            state.layout.weight_bits == 0,
            state.layout.margins == [0i32, 0, 0, 0] && state.layout.padding == [0i32, 0, 0, 0],
    {
        ViewState {
            class_name,
            text: None,
            children: Vec::new(),
            frame: None,
            layout: LayoutParams {
                width: 0,
                height: 0,
                gravity: 0,
                weight_bits: 0,
                margins: [0, 0, 0, 0],
                padding: [0, 0, 0, 0],
            },
            background_color: None,
            clickable: false,
        }
    }
}

/// Every view, the one that has the focus and the one that is the content of the
/// window, zero where there is none.
pub struct ViewRegistry {
    pub views: SlotTable<ViewState>,
    pub focused: ViewHandle,
    pub active_root: ViewHandle,
}

impl ViewRegistry {
    /// The table of views is well formed.
    pub open spec fn wf(self) -> bool {
        self.views@.wf()
    }

    /// A registry without views.
    pub fn new() -> (registry: Self)
        ensures
            registry.wf(),
            registry.views@ == Slots::<ViewState>::empty(),
            registry.focused == 0,
            registry.active_root == 0,
    {
        ViewRegistry { views: SlotTable::new(), focused: 0, active_root: 0 }
    }

    /// The registry with another value for one view, everything else as it was.
    pub open spec fn view_changed(before: Self, after: Self, widget: ViewHandle) -> bool {
        &&& after.wf()
        &&& after.focused == before.focused
        &&& after.active_root == before.active_root
        &&& after.views@ == before.views@.updated(widget, after.views@.value(widget))
    }

    /// The same registry.
    pub open spec fn same_as(self, other: Self) -> bool {
        self.views@ == other.views@ && self.focused == other.focused && self.active_root
            == other.active_root
    }
}

/// Makes a view of a class and returns its handle. The only failure is that no
/// index is left.
pub fn allocate(registry: &mut ViewRegistry, class_name: &str) -> (result: Result<
    ViewHandle,
    SlotError,
>)
    requires
        old(registry).wf(),
    ensures
        final(registry).wf(),
        final(registry).focused == old(registry).focused,
        final(registry).active_root == old(registry).active_root,
        old(registry).views@.has_room() ==> {
            &&& result == Ok::<ViewHandle, SlotError>(old(registry).views@.next_handle())
            &&& exists|state: ViewState|
                {
                    &&& #[trigger] old(registry).views@.stored(state) == final(registry).views@
                    &&& state.class_name@ == class_name@
                    &&& state.text is None
                    &&& state.children@ == Seq::<ViewHandle>::empty()
                    &&& state.frame is None
                    &&& state.layout == LayoutParams::unset()
                    &&& state.background_color is None
                    &&& !state.clickable
                }
        },
        !old(registry).views@.has_room() ==> result == Err::<ViewHandle, SlotError>(
            SlotError::OutOfRange,
        ) && final(registry).views@ == old(registry).views@,
{
    let state = ViewState::new(class_name.to_owned());
    registry.views.store(state)
}

/// The first slot at or after `from` that holds a view of a class, or the number
/// of slots.
pub open spec fn first_of_class(views: Slots<ViewState>, class_name: Seq<char>, from: nat) -> nat
    decreases views.states.len() - from,
{
    if from >= views.states.len() {
        from
    } else if views.states[from as int] is Some && views.states[from as int]->0.class_name@
        == class_name {
        from
    } else {
        first_of_class(views, class_name, from + 1)
    }
}

/// The handle of the first view of a class.
pub open spec fn view_of_class(views: Slots<ViewState>, class_name: Seq<char>) -> Option<
    ViewHandle,
> {
    let at = first_of_class(views, class_name, 0);
    if at < views.states.len() {
        Some(crate::slots::handle_of(at as u32, views.generations[at as int]))
    } else {
        None
    }
}

/// The handle of the first view of a class.
pub fn find_by_class(registry: &ViewRegistry, class_name: &str) -> (handle: Option<ViewHandle>)
    requires
        registry.wf(),
    ensures
        handle == view_of_class(registry.views@, class_name@),
{
    let mut i: usize = 0;
    let n: usize = registry.views.slot_count();
    while i < n
        invariant
            i <= n,
            n == registry.views@.states.len(),
            registry.wf(),
            first_of_class(registry.views@, class_name@, i as nat) == first_of_class(
                registry.views@,
                class_name@,
                0,
            ),
        decreases n - i,
    {
        if let Some((handle, state)) = registry.views.entry(i) {
            if text::same_str(state.class_name.as_str(), class_name) {
                return Some(handle);
            }
        }
        i += 1;
    }
    None
}

/// Gives the focus to a view; a handle without a view leaves it where it is.
pub fn request_focus(registry: &mut ViewRegistry, widget: ViewHandle)
    requires
        old(registry).wf(),
    ensures
        final(registry).wf(),
        final(registry).views@ == old(registry).views@,
        final(registry).active_root == old(registry).active_root,
        final(registry).focused == (if old(registry).views@.live(widget) {
            widget
        } else {
            old(registry).focused
        }),
{
    if registry.views.get(widget).is_ok() {
        registry.focused = widget;
    }
}

/// Whether a view has the focus.
pub fn is_focused(registry: &ViewRegistry, widget: ViewHandle) -> (b: bool)
    ensures
        b == (widget != 0 && registry.focused == widget),
{
    widget != 0 && registry.focused == widget
}

/// Makes a view the content of the window, or nothing where the handle names no
/// view, and returns the view that became it.
pub fn set_widget_as_root(registry: &mut ViewRegistry, widget: ViewHandle) -> (root: Option<
    ViewHandle,
>)
    requires
        old(registry).wf(),
    ensures
        final(registry).wf(),
        final(registry).views@ == old(registry).views@,
        final(registry).focused == old(registry).focused,
        old(registry).views@.live(widget) ==> root == Some(widget) && final(registry).active_root
            == widget,
        !old(registry).views@.live(widget) ==> root is None && final(registry).active_root == 0,
{
    if registry.views.get(widget).is_ok() {
        registry.active_root = widget;
        Some(widget)
    } else {
        registry.active_root = 0;
        None
    }
}

/// Records the padding of a view and returns whether there is one.
pub fn set_padding(registry: &mut ViewRegistry, widget: ViewHandle, padding: [i32; 4]) -> (known:
    bool)
    requires
        old(registry).wf(),
    ensures
        known == old(registry).views@.live(widget),
        !known ==> final(registry).same_as(*old(registry)) && final(registry).wf(),
        known ==> ViewRegistry::view_changed(*old(registry), *final(registry), widget) && ({
            let before = old(registry).views@.value(widget);
            let after = final(registry).views@.value(widget);
            after == (ViewState { layout: LayoutParams { padding, ..before.layout }, ..before })
        }),
{
    let ghost before = registry.views@;
    match registry.views.get_mut(widget) {
        Ok(v) => {
            proof {
                crate::slots::law_updated_value_is_read_back(before, widget, *final(v));
            }
            v.layout.padding = padding;
            true
        },
        Err(_) => false,
    }
}

/// Records the layout parameters of a view and returns whether there is one. The
/// padding stays.
pub fn set_layout_params(
    registry: &mut ViewRegistry,
    widget: ViewHandle,
    width: i32,
    height: i32,
    gravity: i32,
    weight_bits: u32,
    margins: [i32; 4],
) -> (known: bool)
    requires
        old(registry).wf(),
    ensures
        known == old(registry).views@.live(widget),
        !known ==> final(registry).same_as(*old(registry)) && final(registry).wf(),
        known ==> ViewRegistry::view_changed(*old(registry), *final(registry), widget) && ({
            let before = old(registry).views@.value(widget);
            let after = final(registry).views@.value(widget);
            after == (ViewState {
                layout: LayoutParams {
                    width,
                    height,
                    gravity,
                    weight_bits,
                    margins,
                    padding: before.layout.padding,
                },
                ..before
            })
        }),
{
    let ghost before = registry.views@;
    match registry.views.get_mut(widget) {
        Ok(v) => {
            proof {
                crate::slots::law_updated_value_is_read_back(before, widget, *final(v));
            }
            v.layout.width = width;
            v.layout.height = height;
            v.layout.gravity = gravity;
            v.layout.weight_bits = weight_bits;
            v.layout.margins = margins;
            true
        },
        Err(_) => false,
    }
}

/// Records where a view was laid out to and returns whether there is one.
pub fn set_frame(registry: &mut ViewRegistry, widget: ViewHandle, frame: [i32; 4]) -> (known: bool)
    requires
        old(registry).wf(),
    ensures
        known == old(registry).views@.live(widget),
        !known ==> final(registry).same_as(*old(registry)) && final(registry).wf(),
        known ==> ViewRegistry::view_changed(*old(registry), *final(registry), widget)
            && final(registry).views@.value(widget) == (ViewState {
            frame: Some(frame),
            ..old(registry).views@.value(widget)
        }),
{
    let ghost before = registry.views@;
    match registry.views.get_mut(widget) {
        Ok(v) => {
            proof {
                crate::slots::law_updated_value_is_read_back(before, widget, *final(v));
            }
            v.frame = Some(frame);
            true
        },
        Err(_) => false,
    }
}

/// Records the background color of a view and returns whether there is one.
pub fn set_background_color(registry: &mut ViewRegistry, widget: ViewHandle, color: i32) -> (known:
    bool)
    requires
        old(registry).wf(),
    ensures
        known == old(registry).views@.live(widget),
        !known ==> final(registry).same_as(*old(registry)) && final(registry).wf(),
        known ==> ViewRegistry::view_changed(*old(registry), *final(registry), widget)
            && final(registry).views@.value(widget) == (ViewState {
            background_color: Some(color),
            ..old(registry).views@.value(widget)
        }),
{
    let ghost before = registry.views@;
    match registry.views.get_mut(widget) {
        Ok(v) => {
            proof {
                crate::slots::law_updated_value_is_read_back(before, widget, *final(v));
            }
            v.background_color = Some(color);
            true
        },
        Err(_) => false,
    }
}

/// Marks a view as one that takes clicks, and says whether it is there.
pub fn set_clickable(registry: &mut ViewRegistry, widget: ViewHandle) -> (known: bool)
    requires
        old(registry).wf(),
    ensures
        known == old(registry).views@.live(widget),
        !known ==> final(registry).same_as(*old(registry)) && final(registry).wf(),
        known ==> ViewRegistry::view_changed(*old(registry), *final(registry), widget)
            && final(registry).views@.value(widget) == (ViewState {
            clickable: true,
            ..old(registry).views@.value(widget)
        }),
{
    let ghost before = registry.views@;
    match registry.views.get_mut(widget) {
        Ok(v) => {
            proof {
                crate::slots::law_updated_value_is_read_back(before, widget, *final(v));
            }
            v.clickable = true;
            true
        },
        Err(_) => false,
    }
}

/// Ends a view and returns whether there was one. Its handle is never that of
/// another view.
pub fn free(registry: &mut ViewRegistry, widget: ViewHandle) -> (known: bool)
    requires
        old(registry).wf(),
    ensures
        final(registry).wf(),
        known == old(registry).views@.live(widget),
        final(registry).focused == old(registry).focused,
        final(registry).active_root == old(registry).active_root,
        final(registry).views@ == (if known {
            old(registry).views@.freed(widget)
        } else {
            old(registry).views@
        }),
{
    match registry.views.free(widget) {
        Ok(()) => true,
        Err(_) => false,
    }
}

/// Records the text of a view and returns whether there is one.
pub fn set_text(registry: &mut ViewRegistry, widget: ViewHandle, value: Option<String>) -> (known:
    bool)
    requires
        old(registry).wf(),
    ensures
        known == old(registry).views@.live(widget),
        !known ==> final(registry).same_as(*old(registry)) && final(registry).wf(),
        known ==> ViewRegistry::view_changed(*old(registry), *final(registry), widget)
            && final(registry).views@.value(widget) == (ViewState {
            text: value,
            ..old(registry).views@.value(widget)
        }),
{
    let ghost before = registry.views@;
    match registry.views.get_mut(widget) {
        Ok(v) => {
            proof {
                crate::slots::law_updated_value_is_read_back(before, widget, *final(v));
            }
            v.text = value;
            true
        },
        Err(_) => false,
    }
}

/// The text of a view, none where there is no view or it has none.
pub open spec fn text_of(views: Slots<ViewState>, widget: ViewHandle) -> Option<Seq<char>> {
    if views.live(widget) {
        crate::resources::optional_text(views.value(widget).text)
    } else {
        None
    }
}

/// The text of a view.
pub fn get_text(registry: &ViewRegistry, widget: ViewHandle) -> (result: Option<String>)
    requires
        registry.wf(),
    ensures
        crate::resources::optional_text(result) == text_of(registry.views@, widget),
        !registry.views@.live(widget) ==> result is None,
        registry.views@.live(widget) ==> match registry.views@.value(widget).text {
            Some(t) => result is Some && result->0@ == t@,
            None => result is None,
        },
{
    match registry.views.get(widget) {
        Ok(v) => match &v.text {
            Some(s) => Some(s.clone()),
            None => None,
        },
        Err(_) => None,
    }
}

/// The children of a view after `child` was put in at `index`: at the end for a
/// negative index or one past the end.
pub open spec fn with_child(children: Seq<ViewHandle>, child: ViewHandle, index: int) -> Seq<
    ViewHandle,
> {
    if index < 0 || index > children.len() {
        children.push(child)
    } else {
        children.insert(index, child)
    }
}

/// Puts a view into another one. Nothing happens where either handle names no
/// view; returns whether the parent exists.
pub fn add_view(registry: &mut ViewRegistry, parent: ViewHandle, child: ViewHandle, index: i32) -> (known:
    bool)
    requires
        old(registry).wf(),
    ensures
        known == old(registry).views@.live(parent),
        !(known && old(registry).views@.live(child)) ==> final(registry).same_as(*old(registry))
            && final(registry).wf(),
        known && old(registry).views@.live(child) ==> {
            let before = old(registry).views@.value(parent);
            let after = final(registry).views@.value(parent);
            &&& ViewRegistry::view_changed(*old(registry), *final(registry), parent)
            &&& after == (ViewState { children: after.children, ..before })
            &&& after.children@ == with_child(before.children@, child, index as int)
        },
{
    let child_ok: bool = registry.views.get(child).is_ok();
    let parent_ok: bool = registry.views.get(parent).is_ok();
    if !child_ok || !parent_ok {
        return parent_ok;
    }
    let ghost before = registry.views@;
    match registry.views.get_mut(parent) {
        Ok(p) => {
            proof {
                crate::slots::law_updated_value_is_read_back(before, parent, *final(p));
            }
            let n: usize = p.children.len();
            let pos: usize = if index < 0 || index as usize > n {
                n
            } else {
                index as usize
            };
            let ghost kids = p.children@;
            p.children.insert(pos, child);
            assert(p.children@ =~= with_child(kids, child, index as int));
            true
        },
        Err(_) => false,
    }
}

/// The children without `child`, in their order.
pub open spec fn without_child(children: Seq<ViewHandle>, child: ViewHandle) -> Seq<ViewHandle>
    decreases children.len(),
{
    if children.len() == 0 {
        Seq::empty()
    } else if children.last() == child {
        without_child(children.drop_last(), child)
    } else {
        without_child(children.drop_last(), child).push(children.last())
    }
}

/// Takes a view out of another one, wherever it occurs in it; returns whether the
/// parent exists.
pub fn remove_view(registry: &mut ViewRegistry, parent: ViewHandle, child: ViewHandle) -> (known:
    bool)
    requires
        old(registry).wf(),
    ensures
        known == old(registry).views@.live(parent),
        !known ==> final(registry).same_as(*old(registry)) && final(registry).wf(),
        known ==> {
            let before = old(registry).views@.value(parent);
            let after = final(registry).views@.value(parent);
            &&& ViewRegistry::view_changed(*old(registry), *final(registry), parent)
            &&& after == (ViewState { children: after.children, ..before })
            &&& after.children@ == without_child(before.children@, child)
        },
{
    let ghost before = registry.views@;
    match registry.views.get_mut(parent) {
        Ok(p) => {
            proof {
                crate::slots::law_updated_value_is_read_back(before, parent, *final(p));
            }
            let kept = retain_other(&p.children, child);
            p.children = kept;
            true
        },
        Err(_) => false,
    }
}

fn retain_other(children: &Vec<ViewHandle>, child: ViewHandle) -> (kept: Vec<ViewHandle>)
    ensures
        kept@ == without_child(children@, child),
{
    let mut kept: Vec<ViewHandle> = Vec::new();
    let mut i: usize = 0;
    assert(children@.take(0) =~= Seq::<ViewHandle>::empty());
    while i < children.len()
        invariant
            i <= children@.len(),
            kept@ == without_child(children@.take(i as int), child),
        decreases children@.len() - i,
    {
        assert(children@.take(i + 1).drop_last() =~= children@.take(i as int));
        if children[i] != child {
            kept.push(children[i]);
        }
        i += 1;
    }
    assert(children@.take(children@.len() as int) =~= children@);
    kept
}

proof fn lemma_without_child_concat(a: Seq<ViewHandle>, b: Seq<ViewHandle>, child: ViewHandle)
    ensures
        without_child(a + b, child) == without_child(a, child) + without_child(b, child),
    decreases b.len(),
{
    if b.len() == 0 {
        assert(a + b =~= a);
        assert(without_child(a, child) + without_child(b, child) =~= without_child(a, child));
    } else {
        lemma_without_child_concat(a, b.drop_last(), child);
        assert((a + b).drop_last() =~= a + b.drop_last());
        assert(without_child(a + b, child) =~= without_child(a, child) + without_child(b, child));
    }
}

proof fn lemma_without_child(children: Seq<ViewHandle>, child: ViewHandle)
    ensures
        forall|i: int|
            0 <= i < without_child(children, child).len() ==> #[trigger] without_child(
                children,
                child,
            )[i] != child,
        (forall|i: int| 0 <= i < children.len() ==> #[trigger] children[i] != child)
            ==> without_child(children, child) == children,
    decreases children.len(),
{
    if children.len() > 0 {
        lemma_without_child(children.drop_last(), child);
        let rest = without_child(children.drop_last(), child);
        let all = without_child(children, child);
        assert forall|i: int| 0 <= i < all.len() implies #[trigger] all[i] != child by {
            if i < rest.len() {
                assert(rest[i] != child);
                assert(all[i] == rest[i]);
            }
        }
        if forall|i: int| 0 <= i < children.len() ==> #[trigger] children[i] != child {
            assert(children.last() != child);
            assert forall|i: int| 0 <= i < children.drop_last().len() implies #[trigger] children.drop_last()[i]
                != child by {
                assert(children[i] != child);
            }
            assert(children.drop_last().push(children.last()) =~= children);
        }
    } else {
        assert(without_child(children, child) =~= children);
    }
}

/// The children of a view, none where it is not there.
pub open spec fn children_of(views: Slots<ViewState>, view: ViewHandle) -> Seq<ViewHandle> {
    if views.live(view) {
        views.value(view).children@
    } else {
        Seq::empty()
    }
}

/// A way down the tree: each view but the first is a child of the one before it.
pub open spec fn is_descent(views: Slots<ViewState>, path: Seq<ViewHandle>) -> bool {
    &&& path.len() > 0
    &&& forall|i: int|
        0 < i < path.len() ==> children_of(views, path[i - 1]).contains(#[trigger] path[i])
}

/// The view `to` is `from` itself, or lies below it.
pub open spec fn reaches(views: Slots<ViewState>, from: ViewHandle, to: ViewHandle) -> bool {
    exists|path: Seq<ViewHandle>|
        #[trigger] is_descent(views, path) && path[0] == from && path.last() == to
}

proof fn lemma_reaches_child(
    views: Slots<ViewState>,
    from: ViewHandle,
    view: ViewHandle,
    child: ViewHandle,
)
    requires
        reaches(views, from, view),
        children_of(views, view).contains(child),
    ensures
        reaches(views, from, child),
{
    let path = choose|path: Seq<ViewHandle>|
        #[trigger] is_descent(views, path) && path[0] == from && path.last() == view;
    let longer = path.push(child);
    assert forall|i: int| 0 < i < longer.len() implies children_of(
        views,
        longer[i - 1],
    ).contains(#[trigger] longer[i]) by {
        if i < path.len() {
            assert(longer[i] == path[i]);
            assert(longer[i - 1] == path[i - 1]);
        }
    }
    assert(is_descent(views, longer));
    assert(longer[0] == from && longer.last() == child);
}

/// Every child of the views before `at` is among `seen`.
spec fn closed_up_to(views: Slots<ViewState>, seen: Seq<ViewHandle>, at: int) -> bool {
    forall|j: int, c: ViewHandle|
        0 <= j < at && #[trigger] children_of(views, seen[j]).contains(c) ==> seen.contains(c)
}

proof fn lemma_closed_holds_descent(
    views: Slots<ViewState>,
    seen: Seq<ViewHandle>,
    path: Seq<ViewHandle>,
    i: int,
)
    requires
        closed_up_to(views, seen, seen.len() as int),
        is_descent(views, path),
        seen.contains(path[0]),
        0 <= i < path.len(),
    ensures
        seen.contains(path[i]),
    decreases i,
{
    if i > 0 {
        lemma_closed_holds_descent(views, seen, path, i - 1);
        let j = choose|j: int| 0 <= j < seen.len() && seen[j] == path[i - 1];
        assert(children_of(views, seen[j]).contains(path[i]));
    }
}

fn contains_view(views: &Vec<ViewHandle>, view: ViewHandle) -> (b: bool)
    ensures
        b == views@.contains(view),
{
    let mut i: usize = 0;
    while i < views.len()
        invariant
            i <= views@.len(),
            forall|j: int| 0 <= j < i ==> views@[j] != view,
        decreases views@.len() - i,
    {
        if views[i] == view {
            assert(views@[i as int] == view);
            return true;
        }
        i += 1;
    }
    false
}

/// Appends the children that are not among `seen` yet.
fn add_unseen(seen: &mut Vec<ViewHandle>, children: &Vec<ViewHandle>)
    ensures
        old(seen)@.len() <= final(seen)@.len(),
        forall|j: int| 0 <= j < old(seen)@.len() ==> final(seen)@[j] == old(seen)@[j],
        forall|j: int|
            old(seen)@.len() <= j < final(seen)@.len() ==> children@.contains(
                #[trigger] final(seen)@[j],
            ),
        forall|c: ViewHandle| #[trigger] children@.contains(c) ==> final(seen)@.contains(c),
{
    let ghost before = seen@;
    let mut i: usize = 0;
    while i < children.len()
        invariant
            i <= children@.len(),
            before.len() <= seen@.len(),
            forall|j: int| 0 <= j < before.len() ==> seen@[j] == before[j],
            forall|j: int|
                before.len() <= j < seen@.len() ==> children@.contains(#[trigger] seen@[j]),
            forall|k: int| 0 <= k < i ==> seen@.contains(#[trigger] children@[k]),
        decreases children@.len() - i,
    {
        let ghost so_far = seen@;
        let child: ViewHandle = children[i];
        if !contains_view(seen, child) {
            seen.push(child);
            assert(seen@.last() == child);
        }
        assert forall|k: int| 0 <= k < i + 1 implies seen@.contains(#[trigger] children@[k]) by {
            if k < i {
                let j = choose|j: int| 0 <= j < so_far.len() && so_far[j] == children@[k];
                assert(seen@[j] == children@[k]);
            }
        }
        i += 1;
    }
    assert forall|c: ViewHandle| #[trigger] children@.contains(c) implies seen@.contains(c) by {
        let k = choose|k: int| 0 <= k < children@.len() && children@[k] == c;
        assert(seen@.contains(children@[k]));
    }
}

/// Says whether a view is `root` itself or lies below it. A tree that leads back to
/// itself is walked once.
pub fn subtree_contains(registry: &ViewRegistry, root: ViewHandle, target: ViewHandle) -> (b: bool)
    requires
        registry.wf(),
    ensures
        b == reaches(registry.views@, root, target),
{
    let ghost views = registry.views@;
    let mut seen: Vec<ViewHandle> = Vec::new();
    seen.push(root);
    proof {
        let path = seq![root];
        assert(is_descent(views, path) && path[0] == root && path.last() == root);
    }
    let mut at: usize = 0;
    while at < seen.len()
        invariant
            registry.wf(),
            views == registry.views@,
            at <= seen@.len(),
            seen@.contains(root),
            forall|j: int| 0 <= j < seen@.len() ==> reaches(views, root, #[trigger] seen@[j]),
            forall|j: int| 0 <= j < at ==> seen@[j] != target,
            closed_up_to(views, seen@, at as int),
        decreases usize::MAX - at,
    {
        let view: ViewHandle = seen[at];
        if view == target {
            assert(reaches(views, root, seen@[at as int]));
            return true;
        }
        let ghost so_far = seen@;
        match registry.views.get(view) {
            Ok(state) => {
                add_unseen(&mut seen, &state.children);
            },
            Err(_) => {},
        }
        proof {
            let k = choose|k: int| 0 <= k < so_far.len() && so_far[k] == root;
            assert(seen@[k] == root);
            assert forall|j: int| 0 <= j < seen@.len() implies reaches(
                views,
                root,
                #[trigger] seen@[j],
            ) by {
                if j < so_far.len() {
                    assert(reaches(views, root, so_far[j]));
                } else {
                    assert(reaches(views, root, so_far[at as int]));
                    lemma_reaches_child(views, root, view, seen@[j]);
                }
            }
            assert forall|j: int, c: ViewHandle|
                0 <= j < at + 1 && #[trigger] children_of(views, seen@[j]).contains(
                    c,
                ) implies seen@.contains(c) by {
                if j < at {
                    assert(children_of(views, so_far[j]).contains(c));
                    let m = choose|m: int| 0 <= m < so_far.len() && so_far[m] == c;
                    assert(seen@[m] == c);
                }
            }
        }
        at += 1;
    }
    proof {
        if reaches(views, root, target) {
            let path = choose|path: Seq<ViewHandle>|
                #[trigger] is_descent(views, path) && path[0] == root && path.last() == target;
            lemma_closed_holds_descent(views, seen@, path, path.len() - 1);
            let j = choose|j: int| 0 <= j < seen@.len() && seen@[j] == target;
            assert(seen@[j] != target);
        }
    }
    false
}

/// Says whether the view that the browser draws for goes away with a child that was
/// taken out. Zero stands for no such view.
pub fn detaches_active(registry: &ViewRegistry, child: ViewHandle, active: ViewHandle) -> (b: bool)
    requires
        registry.wf(),
    ensures
        b == (active != 0 && reaches(registry.views@, child, active)),
{
    active != 0 && subtree_contains(registry, child, active)
}

/// A view lies in its own subtree and in that of its parent, and what lies in
/// the subtree of a view lies in every subtree that the view lies in.
pub proof fn law_subtrees_nest(
    views: Slots<ViewState>,
    a: ViewHandle,
    b: ViewHandle,
    c: ViewHandle,
)
    ensures
        reaches(views, a, a),
        children_of(views, a).contains(b) ==> reaches(views, a, b),
        reaches(views, a, b) && reaches(views, b, c) ==> reaches(views, a, c),
{
    let own = seq![a];
    assert(is_descent(views, own) && own[0] == a && own.last() == a);
    if children_of(views, a).contains(b) {
        lemma_reaches_child(views, a, a, b);
    }
    if reaches(views, a, b) && reaches(views, b, c) {
        let upper = choose|path: Seq<ViewHandle>|
            #[trigger] is_descent(views, path) && path[0] == a && path.last() == b;
        let lower = choose|path: Seq<ViewHandle>|
            #[trigger] is_descent(views, path) && path[0] == b && path.last() == c;
        let whole = upper + lower.skip(1);
        let n = upper.len() as int;
        assert forall|i: int| 0 < i < whole.len() implies children_of(
            views,
            whole[i - 1],
        ).contains(#[trigger] whole[i]) by {
            if i < n {
                assert(whole[i] == upper[i] && whole[i - 1] == upper[i - 1]);
            } else {
                assert(whole[i] == lower[i - n + 1]);
                if i == n {
                    assert(whole[i - 1] == upper.last());
                } else {
                    assert(whole[i - 1] == lower[i - n]);
                }
            }
        }
        assert(is_descent(views, whole));
        assert(whole[0] == a);
        assert(whole.last() == c) by {
            if lower.len() == 1 {
                assert(whole =~= upper);
            }
        }
    }
}

/// A child that was taken out is nowhere among the children, and one that was
/// put in and taken out again leaves them as they were.
pub proof fn law_removed_child_is_gone(children: Seq<ViewHandle>, child: ViewHandle, index: int)
    ensures
        !without_child(children, child).contains(child),
        !children.contains(child) ==> without_child(with_child(children, child, index), child)
            == children,
{
    lemma_without_child(children, child);
    if !children.contains(child) {
        let at = if index < 0 || index > children.len() {
            children.len() as int
        } else {
            index
        };
        let head = children.take(at);
        let tail = children.skip(at);
        assert(with_child(children, child, index) =~= (head + seq![child]) + tail);
        assert(head + tail =~= children);
        assert(seq![child].drop_last() =~= Seq::<ViewHandle>::empty());
        assert(without_child(seq![child], child) =~= Seq::<ViewHandle>::empty()) by {
            reveal_with_fuel(without_child, 2);
        }
        lemma_without_child_concat(head + seq![child], tail, child);
        lemma_without_child_concat(head, seq![child], child);
        lemma_without_child_concat(head, tail, child);
        assert forall|i: int| 0 <= i < children.len() implies #[trigger] children[i] != child by {
            assert(children.contains(children[i]));
        }
        assert(without_child(head, child) + Seq::<ViewHandle>::empty() =~= without_child(
            head,
            child,
        ));
    }
}

proof fn lemma_first_of_class(
    views: Slots<ViewState>,
    class_name: Seq<char>,
    from: nat,
    at: nat,
)
    requires
        from <= at <= views.states.len(),
        forall|j: int|
            from <= j < at && (#[trigger] views.states[j]) is Some
                ==> views.states[j]->0.class_name@ != class_name,
        at < views.states.len() ==> views.states[at as int] is Some
            && views.states[at as int]->0.class_name@ == class_name,
    ensures
        first_of_class(views, class_name, from) == at,
    decreases at - from,
{
    if from < at {
        assert(views.states[from as int] is Some ==> views.states[from as int]->0.class_name@
            != class_name);
        lemma_first_of_class(views, class_name, from + 1, at);
    }
}

/// A class is looked for from the first slot on: the view that is found is of the
/// class, none before it is, and nothing is found where no view is of the class.
pub proof fn law_first_view_of_the_class_is_found(
    views: Slots<ViewState>,
    class_name: Seq<char>,
    at: nat,
)
    requires
        views.wf(),
        at <= views.states.len(),
        forall|j: int|
            0 <= j < at && (#[trigger] views.states[j]) is Some
                ==> views.states[j]->0.class_name@ != class_name,
        at < views.states.len() ==> views.states[at as int] is Some
            && views.states[at as int]->0.class_name@ == class_name,
    ensures
        at == views.states.len() ==> view_of_class(views, class_name) is None,
        at < views.states.len() ==> {
            let found = view_of_class(views, class_name);
            &&& found is Some
            &&& crate::slots::handle_index(found->0) == at
            &&& views.live(found->0)
            &&& views.value(found->0).class_name@ == class_name
        },
{
    lemma_first_of_class(views, class_name, 0, at);
    if at < views.states.len() {
        crate::slots::lemma_handle_round_trip(at as u32, views.generations[at as int]);
    }
}

/// A change to one view leaves every other view, the focus and the content of the
/// window alone.
pub proof fn law_change_touches_one_view(
    before: ViewRegistry,
    after: ViewRegistry,
    widget: ViewHandle,
    other: ViewHandle,
)
    requires
        before.wf(),
        before.views@.live(widget),
        ViewRegistry::view_changed(before, after, widget),
    ensures
        after.wf(),
        after.focused == before.focused,
        after.active_root == before.active_root,
        after.views@.live(widget),
        after.views@.live(other) == before.views@.live(other),
        other != widget && before.views@.live(other) ==> after.views@.value(other)
            == before.views@.value(other),
        after.views@.free == before.views@.free,
        after.views@.generations == before.views@.generations,
{
    crate::slots::law_updated_value_is_read_back(
        before.views@,
        widget,
        after.views@.value(widget),
    );
    if other != widget && before.views@.live(other) {
        crate::slots::law_live_handles_do_not_share_a_slot(before.views@, widget, other);
        assert(before.views@.updated(widget, after.views@.value(widget)).live(other));
    }
}

/// A registry that stays the same keeps its views, its focus and its content.
pub proof fn law_same_registry_keeps_all(before: ViewRegistry, after: ViewRegistry)
    ensures
        after.same_as(before) <==> after.views@ == before.views@ && after.focused == before.focused
            && after.active_root == before.active_root,
{
}

/// What is read of a view is what was recorded of it; of a view that is not there
/// nothing is read.
pub proof fn law_view_is_read_as_it_is(views: Slots<ViewState>, view: ViewHandle)
    ensures
        views.live(view) ==> children_of(views, view) == views.value(view).children@,
        !views.live(view) ==> children_of(views, view).len() == 0 && text_of(views, view) is None,
        views.live(view) ==> match views.value(view).text {
            Some(t) => text_of(views, view) == Some(t@),
            None => text_of(views, view) is None,
        },
{
}

/// A child that is put in stands at its index, or behind all others where there is no
/// such place; the children before it keep their places and those behind it move on
/// by one.
pub proof fn law_child_is_put_in_at_its_place(
    children: Seq<ViewHandle>,
    child: ViewHandle,
    index: int,
    i: int,
)
    ensures
        with_child(children, child, index).len() == children.len() + 1,
        0 <= index <= children.len() ==> {
            let all = with_child(children, child, index);
            &&& all[index] == child
            &&& 0 <= i < index ==> all[i] == children[i]
            &&& index <= i < children.len() ==> all[i + 1] == children[i]
        },
        index < 0 || index > children.len() ==> {
            let all = with_child(children, child, index);
            &&& all[children.len() as int] == child
            &&& 0 <= i < children.len() ==> all[i] == children[i]
        },
{
}

/// A child that is taken out goes from every place where it stood, and the others stay
/// in their order.
pub proof fn law_others_stay_in_order(
    children: Seq<ViewHandle>,
    child: ViewHandle,
    last: ViewHandle,
)
    ensures
        without_child(Seq::<ViewHandle>::empty(), child).len() == 0,
        last == child ==> without_child(children.push(last), child) == without_child(
            children,
            child,
        ),
        last != child ==> without_child(children.push(last), child) == without_child(
            children,
            child,
        ).push(last),
{
    assert(children.push(last).drop_last() =~= children);
}

/// A view that lies below another lies in the subtree of one of its children.
pub proof fn law_descent_goes_through_a_child(
    views: Slots<ViewState>,
    from: ViewHandle,
    to: ViewHandle,
)
    requires
        reaches(views, from, to),
        from != to,
    ensures
        exists|child: ViewHandle|
            children_of(views, from).contains(child) && #[trigger] reaches(views, child, to),
{
    let path = choose|path: Seq<ViewHandle>|
        #[trigger] is_descent(views, path) && path[0] == from && path.last() == to;
    let rest = path.skip(1);
    assert(path.len() > 1);
    assert(children_of(views, path[0]).contains(path[1]));
    assert forall|i: int| 0 < i < rest.len() implies children_of(
        views,
        rest[i - 1],
    ).contains(#[trigger] rest[i]) by {
        assert(rest[i] == path[i + 1] && rest[i - 1] == path[i]);
    }
    assert(is_descent(views, rest));
    assert(rest[0] == path[1] && rest.last() == to);
    assert(reaches(views, path[1], to));
}

} // verus!
